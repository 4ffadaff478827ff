use miata_dash::browser::{BrowserState, Page};
use miata_dash::clock::ClockFormat;
use miata_dash::controller::{
    home_action_for_tile, AppView, Controller, ControllerEffects, ControllerEvent, HomeAction,
    SettingsOutcome,
};
use miata_dash::settings::{
    is_blank_text, load_state, save_state, PersistedSettings, SettingsSession, SettingsState,
};
use miata_dash::theme::{Color, Palette, ThemeMode};

fn record(folder: &str, clock: u8) -> PersistedSettings {
    PersistedSettings {
        dark_mode: false,
        accent_color: [1, 2, 3, 4],
        clock_type: clock,
        music_folder: folder.to_string(),
    }
}

#[test]
fn default_record() {
    let d = PersistedSettings::default();
    assert!(d.dark_mode);
    assert_eq!(d.accent_color, [94, 129, 255, 255]);
    assert_eq!(d.clock_type, 24);
    assert_eq!(d.music_folder, "/storage/music");
}

#[test]
fn load_uses_defaults_and_writes_back() {
    let (state, write) = load_state(None, false);
    assert_eq!(state.theme_mode, ThemeMode::Dark);
    assert_eq!(state.accent_color, Color::from_rgb(94, 129, 255));
    assert_eq!(state.clock_format, ClockFormat::H24);
    assert_eq!(state.music_folder, "/storage/music");
    assert_eq!(write.unwrap().music_folder, "/storage/music");

    let (state, write) = load_state(Some(record("/media", 12)), true);
    assert_eq!(state.theme_mode, ThemeMode::Light);
    assert_eq!(state.accent_color, Color::from_rgba_premultiplied(1, 2, 3, 4));
    assert_eq!(state.clock_format, ClockFormat::H12);
    assert!(write.is_none());

    let (_, write) = load_state(Some(record(" \t\u{3000}", 0)), true);
    assert_eq!(write.unwrap().music_folder, " \t\u{3000}");
    let (_, write) = load_state(Some(record("/media", 0)), false);
    assert!(write.is_some());
    let (state, _) = load_state(None, true);
    assert_eq!(state.music_folder, "/storage/music");
}

#[test]
fn blank_text_matches_trim() {
    for s in ["", " ", "\n\t", "\u{a0}\u{2003}", "a", " a ", "\u{200b}"] {
        assert_eq!(is_blank_text(s), s.trim().is_empty(), "{s:?}");
    }
}

#[test]
fn save_then_load_round_trip() {
    let state = SettingsState {
        theme_mode: ThemeMode::Light,
        accent_color: Color::from_rgba_premultiplied(9, 8, 7, 6),
        clock_format: ClockFormat::H12,
        music_folder: "/x".to_string(),
    };
    let p = save_state(state);
    assert!(!p.dark_mode);
    assert_eq!(p.accent_color, [9, 8, 7, 6]);
    assert_eq!(p.clock_type, 12);
    let back = p.to_state();
    assert_eq!(back.theme_mode, ThemeMode::Light);
    assert_eq!(back.accent_color, Color::from_rgba_premultiplied(9, 8, 7, 6));
    assert_eq!(back.clock_format, ClockFormat::H12);
    assert_eq!(back.music_folder, "/x");
    let odd = record("/y", 7).to_state();
    assert_eq!(PersistedSettings::from_state(odd).clock_type, 24);
}

#[test]
fn settings_session_palette_and_save() {
    let session = SettingsSession::load(record("/z", 12).to_state());
    assert_eq!(session.palette(), Palette::light().with_accent(Color::from_rgba_premultiplied(1, 2, 3, 4)));
    let saved = session.save();
    assert_eq!(saved.accent_color, [1, 2, 3, 4]);
    assert_eq!(saved.clock_type, 12);
    assert_eq!(saved.music_folder, "/z");
}

fn controller() -> Controller {
    Controller::new(SettingsSession::load(record("/music", 24).to_state()))
}

fn none() -> ControllerEffects {
    ControllerEffects { save_settings: false, rescan_music: false }
}

#[test]
fn home_tiles_open_screens() {
    assert_eq!(home_action_for_tile("settings"), Some(HomeAction::OpenSettings));
    assert_eq!(home_action_for_tile("music"), None);
    assert_eq!(home_action_for_tile("androidauto"), None);
    assert_eq!(home_action_for_tile("maps"), None);
    assert_eq!(home_action_for_tile("Settings"), None);
    let mut c = controller();
    assert_eq!(c.current_view(), AppView::Home);
    assert!(c.style_needs_refresh());
    c.mark_style_applied();
    assert!(!c.style_needs_refresh());
    assert_eq!(c.update(ControllerEvent::Home(HomeAction::OpenMusic)), none());
    assert_eq!(c.current_view(), AppView::Music);
    c.update(ControllerEvent::Home(HomeAction::OpenSettings));
    assert_eq!(c.current_view(), AppView::Music);
    assert_eq!(
        c.update(ControllerEvent::MusicVolumeChanged),
        ControllerEffects { save_settings: true, rescan_music: false }
    );
    c.update(ControllerEvent::TopBarHome);
    assert_eq!(c.current_view(), AppView::Home);
    assert_eq!(c.update(ControllerEvent::MusicVolumeChanged), none());
    c.update(ControllerEvent::Home(HomeAction::OpenAndroidAuto));
    assert_eq!(c.current_view(), AppView::AndroidAutoMenu);
    assert_eq!(c.clock_text(14, 3), "14:03");
}

#[test]
fn settings_changes_save_and_rescan() {
    let mut c = controller();
    c.update(ControllerEvent::Home(HomeAction::OpenSettings));
    assert_eq!(c.current_view(), AppView::Settings);
    c.mark_style_applied();
    let unchanged = SettingsOutcome { go_home: false, style_changed: false, settings_changed: false };
    let e = c.update(ControllerEvent::SettingsShown { outcome: unchanged, previous_music_folder: "/music".to_string() });
    assert_eq!(e, none());
    c.settings_session.theme_mode.set_dark(false);
    let styled = SettingsOutcome { go_home: false, style_changed: true, settings_changed: true };
    let e = c.update(ControllerEvent::SettingsShown { outcome: styled, previous_music_folder: "/music".to_string() });
    assert_eq!(e, ControllerEffects { save_settings: true, rescan_music: false });
    assert!(c.style_needs_refresh());
    c.settings_session.music_folder = "/other".to_string();
    let e = c.update(ControllerEvent::SettingsShown { outcome: styled, previous_music_folder: "/music".to_string() });
    assert_eq!(e, ControllerEffects { save_settings: true, rescan_music: true });
    c.settings_session.clock_format.toggle();
    assert_eq!(c.clock_text(14, 3), "2:03 PM");
    let back = SettingsOutcome { go_home: true, style_changed: false, settings_changed: false };
    c.update(ControllerEvent::SettingsShown { outcome: back, previous_music_folder: "/other".to_string() });
    assert_eq!(c.current_view(), AppView::Home);
}

#[test]
fn browser_navigation() {
    let mut b = BrowserState::default();
    assert!(matches!(b.page, Page::Artists));
    b.select("Artist".to_string());
    assert!(matches!(&b.page, Page::Artist(a) if a == "Artist"));
    b.select("Album".to_string());
    assert!(matches!(&b.page, Page::Album(a, l) if a == "Artist" && l == "Album"));
    b.back();
    assert!(matches!(&b.page, Page::Artist(a) if a == "Artist"));
    b.back();
    assert!(matches!(b.page, Page::Artists));
    b.back();
    assert!(matches!(b.page, Page::Artists));
}
