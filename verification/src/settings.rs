use vstd::prelude::*;

use crate::clock::{clock_format_code, clock_format_of_code, ClockFormat};
use crate::theme::{mode_of_dark_flag, mode_palette, palette_with_accent, rgba, Color, Palette, ThemeMode};

verus! {

/// `char::is_whitespace`: the characters with the Unicode `White_Space` property.
pub open spec fn is_whitespace(c: char) -> bool {
    let u = c as u32;
    ||| 0x09 <= u <= 0x0D
    ||| u == 0x20
    ||| u == 0x85
    ||| u == 0xA0
    ||| u == 0x1680
    ||| 0x2000 <= u <= 0x200A
    ||| u == 0x2028
    ||| u == 0x2029
    ||| u == 0x202F
    ||| u == 0x205F
    ||| u == 0x3000
}

/// `s.trim().is_empty()`: the text is made of whitespace only.
pub open spec fn is_blank(s: Seq<char>) -> bool {
    forall|i: int| 0 <= i < s.len() ==> is_whitespace(#[trigger] s[i])
}

fn char_is_whitespace(c: char) -> (r: bool)
    ensures
        r == is_whitespace(c),
{
    let u = c as u32;
    (0x09 <= u && u <= 0x0D) || u == 0x20 || u == 0x85 || u == 0xA0 || u == 0x1680 || (0x2000
        <= u && u <= 0x200A) || u == 0x2028 || u == 0x2029 || u == 0x202F || u == 0x205F || u
        == 0x3000
}

/// Whether a text is empty once whitespace is trimmed from both ends.
pub fn is_blank_text(s: &str) -> (r: bool)
    ensures
        r == is_blank(s@),
{
    let n = s.unicode_len();
    let mut i: usize = 0;
    while i < n
        invariant
            n == s@.len(),
            i <= n,
            forall|j: int| 0 <= j < i ==> is_whitespace(#[trigger] s@[j]),
        decreases n - i,
    {
        if !char_is_whitespace(s.get_char(i)) {
            return false;
        }
        i = i + 1;
    }
    true
}

/// The settings the dashboard works with.
pub struct SettingsState {
    pub theme_mode: ThemeMode,
    pub accent_color: Color,
    pub clock_format: ClockFormat,
    pub music_folder: String,
}

/// The settings as the settings file stores them.
pub struct PersistedSettings {
    pub dark_mode: bool,
    /// Red, green, blue and alpha of the accent, alpha premultiplied.
    pub accent_color: [u8; 4],
    /// 12 for a 12-hour clock; any other number means 24-hour.
    pub clock_type: u8,
    pub music_folder: String,
}

/// The settings of a `SettingsState`, as plain values.
#[verifier::ext_equal]
pub struct SettingsView {
    pub theme_mode: ThemeMode,
    pub accent_color: Color,
    pub clock_format: ClockFormat,
    pub music_folder: Seq<char>,
}

/// The record of a `PersistedSettings`, as plain values.
#[verifier::ext_equal]
pub struct PersistedView {
    pub dark_mode: bool,
    pub accent_color: Seq<u8>,
    pub clock_type: u8,
    pub music_folder: Seq<char>,
}

impl View for SettingsState {
    type V = SettingsView;

    open spec fn view(&self) -> SettingsView {
        SettingsView {
            theme_mode: self.theme_mode,
            accent_color: self.accent_color,
            clock_format: self.clock_format,
            music_folder: self.music_folder@,
        }
    }
}

impl View for PersistedSettings {
    type V = PersistedView;

    open spec fn view(&self) -> PersistedView {
        PersistedView {
            dark_mode: self.dark_mode,
            accent_color: self.accent_color@,
            clock_type: self.clock_type,
            music_folder: self.music_folder@,
        }
    }
}

/// The record written when there is no settings file or it cannot be read.
pub open spec fn default_record() -> PersistedView {
    PersistedView {
        dark_mode: true,
        accent_color: seq![94u8, 129u8, 255u8, 255u8],
        clock_type: 24,
        music_folder: "/storage/music"@,
    }
}

/// The settings a stored record stands for.
pub open spec fn state_of_record(p: PersistedView) -> SettingsView {
    SettingsView {
        theme_mode: mode_of_dark_flag(p.dark_mode),
        accent_color: rgba(p.accent_color[0], p.accent_color[1], p.accent_color[2], p.accent_color[3]),
        clock_format: clock_format_of_code(p.clock_type),
        music_folder: p.music_folder,
    }
}

/// The record that stores a set of settings.
pub open spec fn record_of_state(s: SettingsView) -> PersistedView {
    PersistedView {
        dark_mode: s.theme_mode == ThemeMode::Dark,
        accent_color: seq![s.accent_color.r, s.accent_color.g, s.accent_color.b, s.accent_color.a],
        clock_type: clock_format_code(s.clock_format),
        music_folder: s.music_folder,
    }
}

/// Loading writes the record back when there was no settings file, or when its
/// music folder is blank.
pub open spec fn needs_write_back(file_exists: bool, p: PersistedView) -> bool {
    !file_exists || is_blank(p.music_folder)
}

impl Default for PersistedSettings {
    fn default() -> (p: PersistedSettings)
        ensures
            p@ == default_record(),
    {
        proof {
            reveal_strlit("/storage/music");
        }
        let p = PersistedSettings {
            dark_mode: true,
            accent_color: [94, 129, 255, 255],
            clock_type: 24,
            music_folder: "/storage/music".to_owned(),
        };
        assert(p@.accent_color =~= seq![94u8, 129u8, 255u8, 255u8]);
        p
    }
}

impl PersistedSettings {
    /// The record read from the settings file, or the default record when the file
    /// could not be read or parsed.
    pub fn loaded(parsed: Option<PersistedSettings>) -> (p: PersistedSettings)
        ensures
            parsed matches Some(q) ==> p@ == q@,
            parsed is None ==> p@ == default_record(),
    {
        match parsed {
            Some(q) => q,
            None => PersistedSettings::default(),
        }
    }

    pub fn to_state(&self) -> (s: SettingsState)
        ensures
            s@ == state_of_record(self@),
    {
        let theme_mode = if self.dark_mode {
            ThemeMode::Dark
        } else {
            ThemeMode::Light
        };
        let r = self.accent_color[0];
        let g = self.accent_color[1];
        let b = self.accent_color[2];
        let a = self.accent_color[3];
        SettingsState {
            theme_mode,
            accent_color: Color::from_rgba_premultiplied(r, g, b, a),
            clock_format: ClockFormat::from_u8(self.clock_type),
            music_folder: self.music_folder.clone(),
        }
    }

    pub fn from_state(state: SettingsState) -> (p: PersistedSettings)
        ensures
            p@ == record_of_state(state@),
    {
        let p = PersistedSettings {
            dark_mode: state.theme_mode.is_dark(),
            accent_color: [
                state.accent_color.r,
                state.accent_color.g,
                state.accent_color.b,
                state.accent_color.a,
            ],
            clock_type: state.clock_format.as_u8(),
            music_folder: state.music_folder,
        };
        assert(p@.accent_color =~= seq![
            state.accent_color.r,
            state.accent_color.g,
            state.accent_color.b,
            state.accent_color.a,
        ]);
        p
    }

    /// Whether loading must write this record back to the settings file.
    pub fn needs_write_back(&self, file_exists: bool) -> (r: bool)
        ensures
            r == needs_write_back(file_exists, self@),
    {
        !file_exists || is_blank_text(self.music_folder.as_str())
    }
}

/// Loads the settings from what was read from the settings file: `parsed` is the
/// parsed record, `None` when the file could not be read or parsed, and
/// `file_exists` tells whether the file exists. Returns the settings and, when the
/// record must be written back to the file, that record.
pub fn load_state(parsed: Option<PersistedSettings>, file_exists: bool) -> (r: (
    SettingsState,
    Option<PersistedSettings>,
))
    ensures
        ({
            let record = match parsed {
                Some(q) => q@,
                None => default_record(),
            };
            &&& r.0@ == state_of_record(record)
            &&& r.1 is Some <==> needs_write_back(file_exists, record)
            &&& r.1 matches Some(w) ==> w@ == record
        }),
{
    let persisted = PersistedSettings::loaded(parsed);
    let state = persisted.to_state();
    if persisted.needs_write_back(file_exists) {
        (state, Some(persisted))
    } else {
        (state, None)
    }
}

/// The record that saving `state` writes to the settings file.
pub fn save_state(state: SettingsState) -> (p: PersistedSettings)
    ensures
        p@ == record_of_state(state@),
{
    PersistedSettings::from_state(state)
}

/// Saving settings and loading them back gives the same settings.
pub proof fn lemma_save_then_load(s: SettingsView)
    ensures
        state_of_record(record_of_state(s)) == s,
{
    assert(state_of_record(record_of_state(s)) =~= s);
}

/// A stored record survives loading and saving unchanged exactly when its clock
/// type is 12 or 24 (any other number is read as a 24-hour clock and saved as 24).
pub proof fn lemma_load_then_save(p: PersistedView)
    requires
        p.accent_color.len() == 4,
    ensures
        record_of_state(state_of_record(p)) == p <==> (p.clock_type == 12 || p.clock_type == 24),
{
    if p.clock_type == 12 || p.clock_type == 24 {
        assert(record_of_state(state_of_record(p)).accent_color =~= p.accent_color);
        assert(record_of_state(state_of_record(p)) =~= p);
    }
}

/// The settings the dashboard edits while it runs.
pub struct SettingsSession {
    pub theme_mode: ThemeMode,
    pub accent_color: Color,
    pub clock_format: ClockFormat,
    pub music_folder: String,
}

impl SettingsSession {
    /// The session for the settings loaded at start-up.
    pub fn load(state: SettingsState) -> (s: SettingsSession)
        ensures
            s.theme_mode == state.theme_mode,
            s.accent_color == state.accent_color,
            s.clock_format == state.clock_format,
            s.music_folder@ == state.music_folder@,
    {
        SettingsSession {
            theme_mode: state.theme_mode,
            accent_color: state.accent_color,
            clock_format: state.clock_format,
            music_folder: state.music_folder,
        }
    }

    /// The theme's palette with the chosen accent.
    pub fn palette(&self) -> (p: Palette)
        ensures
            p == palette_with_accent(mode_palette(self.theme_mode), self.accent_color),
    {
        self.theme_mode.palette().with_accent(self.accent_color)
    }

    /// The record that saving the session writes to the settings file.
    pub fn save(&self) -> (p: PersistedSettings)
        ensures
            p@ == record_of_state(
                SettingsView {
                    theme_mode: self.theme_mode,
                    accent_color: self.accent_color,
                    clock_format: self.clock_format,
                    music_folder: self.music_folder@,
                },
            ),
    {
        save_state(
            SettingsState {
                theme_mode: self.theme_mode,
                accent_color: self.accent_color,
                clock_format: self.clock_format,
                music_folder: self.music_folder.clone(),
            },
        )
    }
}

} // verus!
