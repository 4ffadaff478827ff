use vstd::prelude::*;

verus! {

/// An sRGBA color with premultiplied alpha, one byte per channel.
#[derive(Clone, Copy, Debug, PartialEq, Eq, Structural)]
pub struct Color {
    pub r: u8,
    pub g: u8,
    pub b: u8,
    pub a: u8,
}

pub open spec fn rgb(r: u8, g: u8, b: u8) -> Color {
    Color { r, g, b, a: 255 }
}

pub open spec fn rgba(r: u8, g: u8, b: u8, a: u8) -> Color {
    Color { r, g, b, a }
}

pub open spec fn white_color() -> Color {
    rgb(255, 255, 255)
}

/// One channel multiplied by `twentieths / 20` in gamma space, rounded half up
/// and saturated at 255.
pub open spec fn scaled_channel(x: u8, twentieths: nat) -> u8 {
    let v = (x * twentieths + 10) / 20;
    if v > 255 {
        255
    } else {
        v as u8
    }
}

/// Every channel, alpha included, multiplied by `twentieths / 20`.
pub open spec fn gamma_scaled(c: Color, twentieths: nat) -> Color {
    Color {
        r: scaled_channel(c.r, twentieths),
        g: scaled_channel(c.g, twentieths),
        b: scaled_channel(c.b, twentieths),
        a: scaled_channel(c.a, twentieths),
    }
}

/// Whether a color's relative luminance `0.2126 r + 0.7152 g + 0.0722 b` exceeds 150.
pub open spec fn is_bright(c: Color) -> bool {
    2126 * c.r + 7152 * c.g + 722 * c.b > 1500000
}

impl Color {
    /// Opaque white.
    pub fn white() -> (c: Color)
        ensures
            c == white_color(),
    {
        Color { r: 255, g: 255, b: 255, a: 255 }
    }

    /// An opaque color.
    pub fn from_rgb(r: u8, g: u8, b: u8) -> (c: Color)
        ensures
            c == rgb(r, g, b),
    {
        Color { r, g, b, a: 255 }
    }

    pub fn from_rgba_premultiplied(r: u8, g: u8, b: u8, a: u8) -> (c: Color)
        ensures
            c == rgba(r, g, b, a),
    {
        Color { r, g, b, a }
    }

    /// Multiplies every channel by `twentieths / 20`, rounding half up and
    /// saturating at 255; the dashboard brightens and darkens accents this way.
    pub fn gamma_multiply_twentieths(self, twentieths: u8) -> (c: Color)
        ensures
            c == gamma_scaled(self, twentieths as nat),
    {
        Color {
            r: scale_channel(self.r, twentieths),
            g: scale_channel(self.g, twentieths),
            b: scale_channel(self.b, twentieths),
            a: scale_channel(self.a, twentieths),
        }
    }

    /// Whether text on this color should be dark rather than white.
    pub fn is_bright(self) -> (r: bool)
        ensures
            r == is_bright(self),
    {
        2126u32 * self.r as u32 + 7152u32 * self.g as u32 + 722u32 * self.b as u32 > 1500000
    }
}

fn scale_channel(x: u8, twentieths: u8) -> (r: u8)
    ensures
        r == scaled_channel(x, twentieths as nat),
{
    assert(x as u32 * twentieths as u32 <= 255 * 255) by (nonlinear_arith)
        requires
            x <= 255,
            twentieths <= 255,
    ;
    let v: u32 = (x as u32 * twentieths as u32 + 10) / 20;
    if v > 255 {
        255
    } else {
        v as u8
    }
}

/// The colors of one theme.
#[derive(Clone, Copy, Debug, PartialEq, Eq, Structural)]
pub struct Palette {
    pub background: Color,
    pub foreground: Color,
    pub card: Color,
    pub card_hover: Color,
    pub accent: Color,
    pub accent_hover: Color,
    pub accent_text: Color,
    pub muted: Color,
    pub border: Color,
}

pub open spec fn dark_palette() -> Palette {
    Palette {
        background: rgb(18, 18, 22),
        foreground: rgb(238, 238, 244),
        card: rgb(28, 28, 34),
        card_hover: rgb(36, 36, 44),
        accent: rgb(94, 129, 255),
        accent_hover: gamma_scaled(rgb(94, 129, 255), 23),
        accent_text: white_color(),
        muted: rgb(160, 160, 176),
        border: rgba(90, 90, 104, 120),
    }
}

pub open spec fn light_palette() -> Palette {
    Palette {
        background: rgb(242, 242, 245),
        foreground: rgb(28, 28, 34),
        card: rgb(255, 255, 255),
        card_hover: rgb(245, 245, 245),
        accent: rgb(42, 106, 255),
        accent_hover: gamma_scaled(rgb(42, 106, 255), 18),
        accent_text: white_color(),
        muted: rgb(120, 120, 136),
        border: rgba(90, 90, 104, 120),
    }
}

/// A palette with its accent replaced: the hover accent is the accent brightened by
/// a fifth, and accent text is near-black on bright accents and white otherwise.
pub open spec fn palette_with_accent(p: Palette, accent: Color) -> Palette {
    Palette {
        accent: accent,
        accent_hover: gamma_scaled(accent, 24),
        accent_text: if is_bright(accent) {
            rgb(18, 18, 22)
        } else {
            white_color()
        },
        ..p
    }
}

impl Palette {
    pub fn dark() -> (p: Palette)
        ensures
            p == dark_palette(),
    {
        let accent = Color::from_rgb(94, 129, 255);
        Palette {
            background: Color::from_rgb(18, 18, 22),
            foreground: Color::from_rgb(238, 238, 244),
            card: Color::from_rgb(28, 28, 34),
            card_hover: Color::from_rgb(36, 36, 44),
            accent,
            accent_hover: accent.gamma_multiply_twentieths(23),
            accent_text: Color::white(),
            muted: Color::from_rgb(160, 160, 176),
            border: Color::from_rgba_premultiplied(90, 90, 104, 120),
        }
    }

    pub fn light() -> (p: Palette)
        ensures
            p == light_palette(),
    {
        let accent = Color::from_rgb(42, 106, 255);
        Palette {
            background: Color::from_rgb(242, 242, 245),
            foreground: Color::from_rgb(28, 28, 34),
            card: Color::from_rgb(255, 255, 255),
            card_hover: Color::from_rgb(245, 245, 245),
            accent,
            accent_hover: accent.gamma_multiply_twentieths(18),
            accent_text: Color::white(),
            muted: Color::from_rgb(120, 120, 136),
            border: Color::from_rgba_premultiplied(90, 90, 104, 120),
        }
    }

    pub fn with_accent(self, accent: Color) -> (p: Palette)
        ensures
            p == palette_with_accent(self, accent),
    {
        let mut p = self;
        p.accent = accent;
        p.accent_hover = accent.gamma_multiply_twentieths(24);
        p.accent_text = if accent.is_bright() {
            Color::from_rgb(18, 18, 22)
        } else {
            Color::white()
        };
        p
    }
}

/// Dark or light theme.
#[derive(Clone, Copy, Debug, PartialEq, Eq, Structural)]
pub enum ThemeMode {
    Dark,
    Light,
}

pub open spec fn mode_palette(mode: ThemeMode) -> Palette {
    match mode {
        ThemeMode::Dark => dark_palette(),
        ThemeMode::Light => light_palette(),
    }
}

pub open spec fn mode_of_dark_flag(is_dark: bool) -> ThemeMode {
    if is_dark {
        ThemeMode::Dark
    } else {
        ThemeMode::Light
    }
}

impl ThemeMode {
    pub fn palette(self) -> (p: Palette)
        ensures
            p == mode_palette(self),
    {
        match self {
            ThemeMode::Dark => Palette::dark(),
            ThemeMode::Light => Palette::light(),
        }
    }

    pub fn is_dark(self) -> (r: bool)
        ensures
            r == (self == ThemeMode::Dark),
    {
        matches!(self, ThemeMode::Dark)
    }

    pub fn set_dark(&mut self, is_dark: bool)
        ensures
            *final(self) == mode_of_dark_flag(is_dark),
    {
        *self = if is_dark {
            ThemeMode::Dark
        } else {
            ThemeMode::Light
        };
    }
}

/// The text on the accent is decided by the accent itself: near-black (18, 18, 22)
/// exactly when the accent's luminance `0.2126 r + 0.7152 g + 0.0722 b` is above 150,
/// white otherwise; the accent is the one given and the other colors are kept.
pub proof fn lemma_accent_text_follows_accent_luminance(p: Palette, a: Color)
    ensures
        palette_with_accent(p, a).accent == a,
        2126 * a.r + 7152 * a.g + 722 * a.b > 1500000 ==> palette_with_accent(p, a).accent_text
            == (Color { r: 18, g: 18, b: 22, a: 255 }),
        2126 * a.r + 7152 * a.g + 722 * a.b <= 1500000 ==> palette_with_accent(p, a).accent_text
            == (Color { r: 255, g: 255, b: 255, a: 255 }),
        palette_with_accent(p, a).background == p.background,
        palette_with_accent(p, a).foreground == p.foreground,
        palette_with_accent(p, a).card == p.card,
        palette_with_accent(p, a).card_hover == p.card_hover,
        palette_with_accent(p, a).muted == p.muted,
        palette_with_accent(p, a).border == p.border,
{
}

/// Setting the dark flag and reading it back gives the flag that was set.
pub proof fn lemma_set_dark_then_is_dark(is_dark: bool)
    ensures
        (mode_of_dark_flag(is_dark) == ThemeMode::Dark) == is_dark,
{
}

/// Replacing the accent leaves every color but the three accent colors as it was,
/// and replacing it twice is the same as replacing it once with the second accent.
pub proof fn lemma_with_accent_twice(p: Palette, first: Color, second: Color)
    ensures
        palette_with_accent(palette_with_accent(p, first), second) == palette_with_accent(p, second),
        palette_with_accent(p, first).background == p.background,
        palette_with_accent(p, first).foreground == p.foreground,
        palette_with_accent(p, first).card == p.card,
        palette_with_accent(p, first).card_hover == p.card_hover,
        palette_with_accent(p, first).muted == p.muted,
        palette_with_accent(p, first).border == p.border,
{
}

} // verus!
