use miata_dash::clock::ClockFormat;
use miata_dash::controller::top_bar_surface;
use miata_dash::theme::{Color, Palette, ThemeMode};
use miata_dash::{format_clock, format_time};

fn egui_color(c: Color) -> egui::Color32 {
    egui::Color32::from_rgba_premultiplied(c.r, c.g, c.b, c.a)
}

#[test]
fn clock_format_toggle_and_codes() {
    let mut f = ClockFormat::H12;
    f.toggle();
    assert_eq!(f, ClockFormat::H24);
    f.toggle();
    assert_eq!(f, ClockFormat::H12);
    assert!(ClockFormat::H12.is_12h());
    assert!(!ClockFormat::H24.is_12h());
    assert_eq!(ClockFormat::from_u8(12), ClockFormat::H12);
    assert_eq!(ClockFormat::from_u8(24), ClockFormat::H24);
    assert_eq!(ClockFormat::from_u8(0), ClockFormat::H24);
    assert_eq!(ClockFormat::from_u8(13), ClockFormat::H24);
    assert_eq!(ClockFormat::H12.as_u8(), 12);
    assert_eq!(ClockFormat::H24.as_u8(), 24);
    for v in 0..=255u8 {
        let kept = ClockFormat::from_u8(v).as_u8() == v;
        assert_eq!(kept, v == 12 || v == 24);
    }
}

#[test]
fn theme_mode_set_dark() {
    let mut m = ThemeMode::Light;
    m.set_dark(true);
    assert!(m.is_dark());
    assert_eq!(m, ThemeMode::Dark);
    m.set_dark(false);
    assert!(!m.is_dark());
    assert_eq!(m.palette(), Palette::light());
    assert_eq!(ThemeMode::Dark.palette(), Palette::dark());
}

#[test]
fn palettes_match_egui_colors() {
    let dark = Palette::dark();
    let accent = egui::Color32::from_rgb(94, 129, 255);
    assert_eq!(egui_color(dark.accent_hover), accent.gamma_multiply(1.15));
    assert_eq!(dark.accent_hover, Color::from_rgb(108, 148, 255));
    assert_eq!(dark.background, Color::from_rgb(18, 18, 22));
    assert_eq!(dark.border, Color::from_rgba_premultiplied(90, 90, 104, 120));
    assert_eq!(dark.accent_text, Color::white());
    let light = Palette::light();
    let accent = egui::Color32::from_rgb(42, 106, 255);
    assert_eq!(egui_color(light.accent_hover), accent.gamma_multiply(0.9));
    assert_eq!(light.accent_hover, Color::from_rgba_premultiplied(38, 95, 230, 230));
}

#[test]
fn gamma_multiply_agrees_with_egui_on_every_byte() {
    for x in 0..=255u8 {
        let c = Color::from_rgba_premultiplied(x, x, x, x);
        let e = egui::Color32::from_rgba_premultiplied(x, x, x, x);
        assert_eq!(egui_color(c.gamma_multiply_twentieths(23)), e.gamma_multiply(1.15));
        assert_eq!(egui_color(c.gamma_multiply_twentieths(18)), e.gamma_multiply(0.9));
        assert_eq!(egui_color(c.gamma_multiply_twentieths(24)), e.gamma_multiply(1.2));
    }
}

#[test]
fn brightness_agrees_with_float_luminance() {
    for r in 0..=255u8 {
        for g in 0..=255u8 {
            for b in (0..=255u8).step_by(3) {
                let lum = 0.2126 * f32::from(r) + 0.7152 * f32::from(g) + 0.0722 * f32::from(b);
                assert_eq!(Color::from_rgb(r, g, b).is_bright(), lum > 150.0, "{r} {g} {b}");
            }
        }
    }
}

#[test]
fn with_accent_picks_text_color() {
    let p = Palette::dark().with_accent(Color::from_rgb(255, 255, 0));
    assert_eq!(p.accent, Color::from_rgb(255, 255, 0));
    assert_eq!(p.accent_text, Color::from_rgb(18, 18, 22));
    assert_eq!(p.accent_hover, Color::from_rgb(255, 255, 0));
    assert_eq!(p.background, Palette::dark().background);
    let p = Palette::light().with_accent(Color::from_rgb(10, 20, 200));
    assert_eq!(p.accent_text, Color::white());
    assert_eq!(p.accent_hover, Color::from_rgb(12, 24, 240));
    assert_eq!(p.card, Palette::light().card);
    let twice = Palette::dark()
        .with_accent(Color::from_rgb(1, 2, 3))
        .with_accent(Color::from_rgb(200, 100, 50));
    assert_eq!(twice, Palette::dark().with_accent(Color::from_rgb(200, 100, 50)));
}

#[test]
fn top_bar_surface_blends_background_and_card() {
    let p = Palette::dark();
    assert_eq!(top_bar_surface(&p), Color::from_rgb(20, 20, 25));
    let p = Palette::light();
    assert_eq!(top_bar_surface(&p), Color::from_rgb(245, 245, 247));
}

#[test]
fn clock_text_matches_chrono() {
    for h in 0..24u32 {
        for m in 0..60u32 {
            let t = chrono::NaiveTime::from_hms_opt(h, m, 0).unwrap();
            assert_eq!(format_clock(h, m, ClockFormat::H24), t.format("%H:%M").to_string());
            assert_eq!(format_clock(h, m, ClockFormat::H12), t.format("%-I:%M %p").to_string());
        }
    }
    assert_eq!(format_clock(0, 5, ClockFormat::H12), "12:05 AM");
    assert_eq!(format_clock(13, 7, ClockFormat::H12), "1:07 PM");
    assert_eq!(format_clock(9, 30, ClockFormat::H24), "09:30");
}

#[test]
fn playback_time_text() {
    assert_eq!(format_time(0), "00:00");
    assert_eq!(format_time(75), "01:15");
    assert_eq!(format_time(3599), "59:59");
    assert_eq!(format_time(6000), "100:00");
    for s in [0u64, 9, 61, 600, 12345, 987654] {
        assert_eq!(format_time(s), format!("{:02}:{:02}", s / 60, s % 60));
    }
}
