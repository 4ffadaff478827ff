use vstd::prelude::*;

use crate::clock::ClockFormat;
use crate::settings::SettingsSession;
use crate::text::{clock_text, format_clock, same_text};
use crate::theme::{mode_palette, palette_with_accent, rgb, Color, Palette};

verus! {

/// The screen the dashboard shows.
#[derive(Clone, Copy, Debug, PartialEq, Eq, Structural)]
pub enum AppView {
    Home,
    Music,
    Settings,
    AndroidAutoMenu,
}

/// What a tap on the home screen asks for.
#[derive(Clone, Copy, Debug, PartialEq, Eq, Structural)]
pub enum HomeAction {
    OpenMusic,
    OpenSettings,
    OpenAndroidAuto,
}

/// What the user did on the settings screen during one frame.
#[derive(Clone, Copy, Debug, PartialEq, Eq, Structural)]
pub struct SettingsOutcome {
    /// The back button was pressed.
    pub go_home: bool,
    /// The theme or the accent changed, so the style must be applied again.
    pub style_changed: bool,
    /// A setting changed and must be saved.
    pub settings_changed: bool,
}

/// The action a tapped home-screen tile asks for: only the settings tile opens a
/// screen; the other tiles are only reported.
pub open spec fn tile_action(id: Seq<char>) -> Option<HomeAction> {
    if id == "settings"@ {
        Some(HomeAction::OpenSettings)
    } else {
        None
    }
}

/// The screen a home action opens.
pub open spec fn target_view(action: HomeAction) -> AppView {
    match action {
        HomeAction::OpenMusic => AppView::Music,
        HomeAction::OpenSettings => AppView::Settings,
        HomeAction::OpenAndroidAuto => AppView::AndroidAutoMenu,
    }
}

/// The action for a tapped home-screen tile, by the tile's app id: the settings
/// tile opens the settings screen; any other tile gives no action.
pub fn home_action_for_tile(id: &str) -> (r: Option<HomeAction>)
    ensures
        r == tile_action(id@),
{
    if same_text(id, "settings") {
        Some(HomeAction::OpenSettings)
    } else {
        None
    }
}

/// What happened in a frame, as reported by the screen that was shown.
pub enum ControllerEvent {
    /// A tile of the home screen was tapped.
    Home(HomeAction),
    /// The home button of the top bar was pressed.
    TopBarHome,
    /// The volume was changed on the music screen.
    MusicVolumeChanged,
    /// The settings screen was shown; `previous_music_folder` is the music folder
    /// before the frame.
    SettingsShown { outcome: SettingsOutcome, previous_music_folder: String },
}

/// The work the caller must do after an event.
#[derive(Clone, Copy, Debug, PartialEq, Eq, Structural)]
pub struct ControllerEffects {
    /// Write the settings to the settings file.
    pub save_settings: bool,
    /// Scan the music folder again and start a new music session on it.
    pub rescan_music: bool,
}

pub open spec fn no_effects() -> ControllerEffects {
    ControllerEffects { save_settings: false, rescan_music: false }
}

/// The navigation state: the screen shown and whether the style must be applied.
#[verifier::ext_equal]
pub struct ControllerView {
    pub view: AppView,
    pub style_dirty: bool,
}

/// The controller's decision for an event, given the music folder now set.
pub open spec fn controller_step(
    c: ControllerView,
    music_folder: Seq<char>,
    event: ControllerEvent,
) -> (ControllerView, ControllerEffects) {
    match event {
        ControllerEvent::Home(action) => if c.view == AppView::Home {
            (ControllerView { view: target_view(action), ..c }, no_effects())
        } else {
            (c, no_effects())
        },
        ControllerEvent::TopBarHome => (ControllerView { view: AppView::Home, ..c }, no_effects()),
        ControllerEvent::MusicVolumeChanged => if c.view == AppView::Music {
            (c, ControllerEffects { save_settings: true, rescan_music: false })
        } else {
            (c, no_effects())
        },
        ControllerEvent::SettingsShown { outcome, previous_music_folder } => if c.view
            == AppView::Settings {
            (
                ControllerView {
                    view: if outcome.go_home {
                        AppView::Home
                    } else {
                        c.view
                    },
                    style_dirty: c.style_dirty || outcome.style_changed,
                },
                ControllerEffects {
                    save_settings: outcome.settings_changed,
                    rescan_music: outcome.settings_changed && music_folder
                        != previous_music_folder@,
                },
            )
        } else {
            (c, no_effects())
        },
    }
}

/// The blend of two colors the top bar is filled with: three parts of the first to
/// one of the second, opaque.
pub open spec fn bar_surface(bg: Color, tint: Color) -> Color {
    rgb(
        ((bg.r * 3 + tint.r) / 4) as u8,
        ((bg.g * 3 + tint.g) / 4) as u8,
        ((bg.b * 3 + tint.b) / 4) as u8,
    )
}

fn blend_channel(bg: u8, tint: u8) -> (r: u8)
    ensures
        r == ((bg * 3 + tint) / 4) as u8,
{
    ((bg as u16 * 3 + tint as u16) / 4) as u8
}

/// The color of the top bar for a palette: the background tinted with a quarter of
/// the card color.
pub fn top_bar_surface(palette: &Palette) -> (c: Color)
    ensures
        c == bar_surface(palette.background, palette.card),
{
    let bg = palette.background;
    let tint = palette.card;
    Color::from_rgb(
        blend_channel(bg.r, tint.r),
        blend_channel(bg.g, tint.g),
        blend_channel(bg.b, tint.b),
    )
}

/// Decides which screen the dashboard shows and when settings are saved and the
/// music library reloaded.
pub struct Controller {
    pub view: AppView,
    pub style_dirty: bool,
    pub settings_session: SettingsSession,
}

impl View for Controller {
    type V = ControllerView;

    open spec fn view(&self) -> ControllerView {
        ControllerView { view: self.view, style_dirty: self.style_dirty }
    }
}

impl Controller {
    /// A controller on the home screen, with the style still to be applied.
    pub fn new(settings_session: SettingsSession) -> (c: Controller)
        ensures
            c@ == (ControllerView { view: AppView::Home, style_dirty: true }),
            c.settings_session == settings_session,
    {
        Controller { view: AppView::Home, style_dirty: true, settings_session }
    }

    /// The screen shown.
    pub fn current_view(&self) -> (v: AppView)
        ensures
            v == self@.view,
    {
        self.view
    }

    pub fn palette(&self) -> (p: Palette)
        ensures
            p == palette_with_accent(
                mode_palette(self.settings_session.theme_mode),
                self.settings_session.accent_color,
            ),
    {
        self.settings_session.palette()
    }

    pub fn style_needs_refresh(&self) -> (r: bool)
        ensures
            r == self@.style_dirty,
    {
        self.style_dirty
    }

    pub fn mark_style_applied(&mut self)
        ensures
            final(self)@ == (ControllerView { style_dirty: false, ..old(self)@ }),
            final(self).settings_session == old(self).settings_session,
    {
        self.style_dirty = false;
    }

    /// The time the top bar shows, in the clock format of the settings.
    pub fn clock_text(&self, hour: u32, minute: u32) -> (r: String)
        requires
            hour < 24,
            minute < 60,
        ensures
            r@ == clock_text(hour as nat, minute as nat, self.settings_session.clock_format),
    {
        format_clock(hour, minute, self.settings_session.clock_format)
    }

    /// Applies what happened in a frame and returns the work left to the caller.
    pub fn update(&mut self, event: ControllerEvent) -> (e: ControllerEffects)
        ensures
            (final(self)@, e) == controller_step(
                old(self)@,
                old(self).settings_session.music_folder@,
                event,
            ),
            final(self).settings_session == old(self).settings_session,
    {
        match event {
            ControllerEvent::Home(action) => {
                if self.view == AppView::Home {
                    self.view = match action {
                        HomeAction::OpenMusic => AppView::Music,
                        HomeAction::OpenSettings => AppView::Settings,
                        HomeAction::OpenAndroidAuto => AppView::AndroidAutoMenu,
                    };
                }
                ControllerEffects { save_settings: false, rescan_music: false }
            },
            ControllerEvent::TopBarHome => {
                self.view = AppView::Home;
                ControllerEffects { save_settings: false, rescan_music: false }
            },
            ControllerEvent::MusicVolumeChanged => {
                ControllerEffects { save_settings: self.view == AppView::Music, rescan_music: false }
            },
            ControllerEvent::SettingsShown { outcome, previous_music_folder } => {
                if self.view != AppView::Settings {
                    return ControllerEffects { save_settings: false, rescan_music: false };
                }
                if outcome.style_changed {
                    self.style_dirty = true;
                }
                let mut effects = ControllerEffects { save_settings: false, rescan_music: false };
                if outcome.settings_changed {
                    if !same_text(
                        self.settings_session.music_folder.as_str(),
                        previous_music_folder.as_str(),
                    ) {
                        effects.rescan_music = true;
                    }
                    effects.save_settings = true;
                }
                if outcome.go_home {
                    self.view = AppView::Home;
                }
                effects
            },
        }
    }
}

/// From any screen but home, the top bar's home button leads home, and a home tile
/// then opens its screen; the settings are never touched by navigation.
pub proof fn lemma_home_then_open(c: ControllerView, folder: Seq<char>, action: HomeAction)
    ensures
        controller_step(controller_step(c, folder, ControllerEvent::TopBarHome).0, folder, ControllerEvent::Home(action)).0.view
            == target_view(action),
        controller_step(c, folder, ControllerEvent::TopBarHome).1 == no_effects(),
{
}

/// A settings change is saved, and the music library is reloaded exactly when the
/// music folder changed; without a change nothing is saved or reloaded.
pub proof fn lemma_settings_saved_when_changed(
    c: ControllerView,
    folder: Seq<char>,
    outcome: SettingsOutcome,
    previous: String,
)
    requires
        c.view == AppView::Settings,
    ensures
        ({
            let e = controller_step(
                c,
                folder,
                ControllerEvent::SettingsShown { outcome, previous_music_folder: previous },
            ).1;
            &&& e.save_settings == outcome.settings_changed
            &&& e.rescan_music <==> (outcome.settings_changed && folder != previous@)
        }),
{
}

} // verus!
