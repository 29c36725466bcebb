//! The Studio Monitor preferences dialog: what each choice in it changes,
//! and what is left for the window, the receive worker and the playout
//! buffer to do.

use vstd::prelude::*;

use crate::monitor::{DelayUnit, ThemeChoice, VideoQualityPreset, MAX_AUDIO_DELAY_MS, MAX_VIDEO_DELAY_FRAMES};
use crate::monitor_menu::{DelaySetting, MonitorSettings};

verus! {

/// UI language of the suite.
#[derive(Debug, Clone, Copy, PartialEq, Eq, Structural)]
pub enum UiLanguage {
    English,
    Japanese,
}

/// User actions emitted by the preferences dialog.
#[derive(Debug, Clone)]
pub enum PrefsAction {
    Close,
    SetLanguage(UiLanguage),
    SetTheme(ThemeChoice),
    SetAudioDevice(Option<String>),
    SetVideoDelayFrames(u32),
    SetAudioDelayMs(u32),
    SetBufferLink(bool),
    SetBoost(i32),
    SetQuality(VideoQualityPreset),
    SetAlpha(bool),
    SetSafeArea(bool),
    SetVu(bool),
    EnterFullscreen,
    OpenHelp,
    OpenLicense,
    Exit,
}

/// The part of the monitor window that the preferences dialog changes.
#[derive(Debug, Clone)]
pub struct PrefsState {
    pub language: UiLanguage,
    pub theme: ThemeChoice,
    pub settings: MonitorSettings,
    pub preferences_open: bool,
    /// Chosen audio output device (`None`: the system default).
    pub audio_output_device: Option<String>,
    /// Whether the dark palette was last applied (`None`: apply again).
    pub last_theme_dark: Option<bool>,
}

/// What is left to do after a preferences choice has updated the state.
#[derive(Debug, Clone)]
pub enum PrefsEffect {
    Nothing,
    /// Save the suite preferences (language and theme).
    PersistPrefs,
    /// Route audio to this device (`None`: the system default).
    SendAudioDevice(Option<String>),
    /// Apply this video delay to the playout buffer, then refresh the
    /// buffer fields from it.
    ApplyVideoDelay(DelaySetting),
    /// Apply this audio delay to the playout buffer, then refresh the
    /// buffer fields from it.
    ApplyAudioDelay(DelaySetting),
    /// Link or unlink the playout buffers, then refresh the buffer fields.
    ApplyBufferLink(bool),
    /// Hand the new boost to the receive worker.
    SendAudioBoost(i32),
    /// Reconnect the selected source with the new quality.
    Reconnect,
    /// Tell the frame preparation thread whether to show the alpha channel.
    SetPrepAlpha(bool),
    EnterFullscreen,
    /// Open the guides in the browser.
    OpenHelp,
    /// Open the license in the browser.
    OpenLicense,
    /// Close the window.
    Exit,
}

pub open spec fn device_view(d: Option<String>) -> Option<Seq<char>> {
    match d {
        Some(s) => Some(s@),
        None => None,
    }
}

/// The state after the choice `a` (without the fields that hold text).
pub open spec fn prefs_after(s: PrefsState, a: PrefsAction) -> PrefsState {
    match a {
        PrefsAction::Close => PrefsState { preferences_open: false, ..s },
        PrefsAction::SetLanguage(l) => PrefsState { language: l, ..s },
        PrefsAction::SetTheme(t) => if s.theme != t {
            PrefsState { theme: t, last_theme_dark: None, ..s }
        } else {
            s
        },
        PrefsAction::SetBoost(db) => PrefsState {
            settings: MonitorSettings { audio_boost_db: db, ..s.settings },
            ..s
        },
        PrefsAction::SetQuality(p) => PrefsState {
            settings: MonitorSettings { quality: p, ..s.settings },
            ..s
        },
        PrefsAction::SetAlpha(v) => PrefsState {
            settings: MonitorSettings { show_alpha: v, ..s.settings },
            ..s
        },
        PrefsAction::SetSafeArea(v) => PrefsState {
            settings: MonitorSettings { safe_area: v, ..s.settings },
            ..s
        },
        PrefsAction::SetVu(v) => PrefsState {
            settings: MonitorSettings { vu_meter: v, ..s.settings },
            ..s
        },
        _ => s,
    }
}

/// Carry out the state part of a preferences choice and say what is left to
/// do: the language and theme are saved only when they change; a video
/// delay is capped at 120 frames and an audio delay at 2000 ms.
#[verifier::spinoff_prover]
#[verifier::rlimit(30)]
pub fn apply_prefs_action(state: &mut PrefsState, action: PrefsAction) -> (r: PrefsEffect)
    ensures
        ({
            let s = *old(state);
            &&& final(state).language == prefs_after(s, action).language
            &&& final(state).theme == prefs_after(s, action).theme
            &&& final(state).settings == prefs_after(s, action).settings
            &&& final(state).preferences_open == prefs_after(s, action).preferences_open
            &&& final(state).last_theme_dark == prefs_after(s, action).last_theme_dark
            &&& device_view(final(state).audio_output_device) == match action {
                PrefsAction::SetAudioDevice(d) => device_view(d),
                _ => device_view(s.audio_output_device),
            }
        }),
        match action {
            PrefsAction::Close => r is Nothing,
            PrefsAction::SetLanguage(l) => if old(state).language != l {
                r is PersistPrefs
            } else {
                r is Nothing
            },
            PrefsAction::SetTheme(t) => if old(state).theme != t {
                r is PersistPrefs
            } else {
                r is Nothing
            },
            PrefsAction::SetAudioDevice(d) => r matches PrefsEffect::SendAudioDevice(e) && device_view(e)
                == device_view(d),
            PrefsAction::SetVideoDelayFrames(n) => r matches PrefsEffect::ApplyVideoDelay(d) && d == (
            DelaySetting {
                amount: if n < MAX_VIDEO_DELAY_FRAMES {
                    n
                } else {
                    MAX_VIDEO_DELAY_FRAMES
                },
                unit: DelayUnit::Frames,
            }),
            PrefsAction::SetAudioDelayMs(n) => r matches PrefsEffect::ApplyAudioDelay(d) && d == (
            DelaySetting {
                amount: if n < MAX_AUDIO_DELAY_MS {
                    n
                } else {
                    MAX_AUDIO_DELAY_MS
                },
                unit: DelayUnit::Milliseconds,
            }),
            PrefsAction::SetBufferLink(b) => r matches PrefsEffect::ApplyBufferLink(c) && c == b,
            PrefsAction::SetBoost(db) => r matches PrefsEffect::SendAudioBoost(x) && x == db,
            PrefsAction::SetQuality(_) => r is Reconnect,
            PrefsAction::SetAlpha(v) => r matches PrefsEffect::SetPrepAlpha(x) && x == v,
            PrefsAction::SetSafeArea(_) | PrefsAction::SetVu(_) => r is Nothing,
            PrefsAction::EnterFullscreen => r is EnterFullscreen,
            PrefsAction::OpenHelp => r is OpenHelp,
            PrefsAction::OpenLicense => r is OpenLicense,
            PrefsAction::Exit => r is Exit,
        },
{
    match action {
        PrefsAction::Close => {
            state.preferences_open = false;
            PrefsEffect::Nothing
        },
        PrefsAction::SetLanguage(l) => {
            if state.language != l {
                state.language = l;
                PrefsEffect::PersistPrefs
            } else {
                PrefsEffect::Nothing
            }
        },
        PrefsAction::SetTheme(t) => {
            if state.theme != t {
                state.theme = t;
                state.last_theme_dark = None;
                PrefsEffect::PersistPrefs
            } else {
                PrefsEffect::Nothing
            }
        },
        PrefsAction::SetAudioDevice(d) => {
            let e = match &d {
                Some(name) => Some(name.clone()),
                None => None,
            };
            state.audio_output_device = d;
            PrefsEffect::SendAudioDevice(e)
        },
        PrefsAction::SetVideoDelayFrames(n) => {
            let amount = if n < MAX_VIDEO_DELAY_FRAMES {
                n
            } else {
                MAX_VIDEO_DELAY_FRAMES
            };
            PrefsEffect::ApplyVideoDelay(DelaySetting { amount, unit: DelayUnit::Frames })
        },
        PrefsAction::SetAudioDelayMs(n) => {
            let amount = if n < MAX_AUDIO_DELAY_MS {
                n
            } else {
                MAX_AUDIO_DELAY_MS
            };
            PrefsEffect::ApplyAudioDelay(DelaySetting { amount, unit: DelayUnit::Milliseconds })
        },
        PrefsAction::SetBufferLink(b) => PrefsEffect::ApplyBufferLink(b),
        PrefsAction::SetBoost(db) => {
            state.settings.audio_boost_db = db;
            PrefsEffect::SendAudioBoost(db)
        },
        PrefsAction::SetQuality(p) => {
            state.settings.quality = p;
            PrefsEffect::Reconnect
        },
        PrefsAction::SetAlpha(v) => {
            state.settings.show_alpha = v;
            PrefsEffect::SetPrepAlpha(v)
        },
        PrefsAction::SetSafeArea(v) => {
            state.settings.safe_area = v;
            PrefsEffect::Nothing
        },
        PrefsAction::SetVu(v) => {
            state.settings.vu_meter = v;
            PrefsEffect::Nothing
        },
        PrefsAction::EnterFullscreen => PrefsEffect::EnterFullscreen,
        PrefsAction::OpenHelp => PrefsEffect::OpenHelp,
        PrefsAction::OpenLicense => PrefsEffect::OpenLicense,
        PrefsAction::Exit => PrefsEffect::Exit,
    }
}

/// The guides page that Help opens.
pub fn docs_url() -> (r: &'static str)
    ensures
        r@ == "https://github.com/MikanseiLaboratory/omt-tools#docs--guides"@,
{
    "https://github.com/MikanseiLaboratory/omt-tools#docs--guides"
}

/// The license page.
pub fn license_url() -> (r: &'static str)
    ensures
        r@ == "https://github.com/MikanseiLaboratory/omt-tools/blob/main/LICENSE"@,
{
    "https://github.com/MikanseiLaboratory/omt-tools/blob/main/LICENSE"
}

/// Choosing the language or theme that is already in use changes nothing
/// and saves nothing: choosing one twice has the effect of choosing it once.
pub proof fn law_repeated_choice_is_quiet(s: PrefsState, a: PrefsAction)
    requires
        a is SetLanguage || a is SetTheme,
    ensures
        prefs_after(prefs_after(s, a), a) == prefs_after(s, a),
        match a {
            PrefsAction::SetLanguage(l) => prefs_after(s, a).language == l,
            PrefsAction::SetTheme(t) => prefs_after(s, a).theme == t,
            _ => true,
        },
{
}

/// Whether the palette must be applied: the wanted darkness differs from
/// what was applied last (or nothing was).
pub fn theme_needs_apply(last_theme_dark: Option<bool>, dark: bool) -> (r: bool)
    ensures
        r == (last_theme_dark != Some(dark)),
{
    match last_theme_dark {
        Some(d) => d != dark,
        None => true,
    }
}

/// Choosing another theme gets it applied on the next frame, whatever the
/// system reports.
pub proof fn law_new_theme_is_applied(s: PrefsState, t: ThemeChoice, system_dark: bool)
    requires
        s.theme != t,
    ensures
        prefs_after(s, PrefsAction::SetTheme(t)).theme == t,
        prefs_after(s, PrefsAction::SetTheme(t)).last_theme_dark != Some(
            crate::monitor::theme_dark(t, system_dark),
        ),
{
}

/// The monitor window's palette, as `0xRRGGBB` colours.
#[derive(Debug, Clone, Copy, PartialEq, Eq, Structural)]
pub struct UiChrome {
    /// App / letterbox background.
    pub bg: u32,
    /// Sidebar / stats panel background.
    pub panel: u32,
    /// Slightly elevated surface (rows, buttons).
    pub surface: u32,
    /// Selected / hover surface.
    pub surface_active: u32,
    /// Hairline borders.
    pub border: u32,
    /// Primary text.
    pub text: u32,
    /// Secondary / muted text.
    pub text_muted: u32,
    /// Accent (selection, live affordances).
    pub accent: u32,
    /// Soft accent wash behind selected rows.
    pub accent_soft: u32,
}

pub open spec fn dark_chrome() -> UiChrome {
    UiChrome {
        bg: 0x0e1116,
        panel: 0x141a22,
        surface: 0x1a222d,
        surface_active: 0x243041,
        border: 0x2a3340,
        text: 0xedf2f7,
        text_muted: 0x8b9aab,
        accent: 0x3d9cf0,
        accent_soft: 0x1a3048,
    }
}

pub open spec fn light_chrome() -> UiChrome {
    UiChrome {
        bg: 0xf3f5f8,
        panel: 0xffffff,
        surface: 0xeef1f5,
        surface_active: 0xe2e8f0,
        border: 0xd0d7e0,
        text: 0x1a2330,
        text_muted: 0x5c6b7a,
        accent: 0x1f6feb,
        accent_soft: 0xdbe8f8,
    }
}

impl UiChrome {
    /// The dark palette.
    pub fn dark() -> (r: Self)
        ensures
            r == dark_chrome(),
    {
        UiChrome {
            bg: 0x0e1116,
            panel: 0x141a22,
            surface: 0x1a222d,
            surface_active: 0x243041,
            border: 0x2a3340,
            text: 0xedf2f7,
            text_muted: 0x8b9aab,
            accent: 0x3d9cf0,
            accent_soft: 0x1a3048,
        }
    }

    /// The light palette.
    pub fn light() -> (r: Self)
        ensures
            r == light_chrome(),
    {
        UiChrome {
            bg: 0xf3f5f8,
            panel: 0xffffff,
            surface: 0xeef1f5,
            surface_active: 0xe2e8f0,
            border: 0xd0d7e0,
            text: 0x1a2330,
            text_muted: 0x5c6b7a,
            accent: 0x1f6feb,
            accent_soft: 0xdbe8f8,
        }
    }

    /// The palette for a theme choice, given whether the system is dark.
    pub fn resolve(pref: ThemeChoice, system_dark: bool) -> (r: Self)
        ensures
            r == if crate::monitor::theme_dark(pref, system_dark) {
                dark_chrome()
            } else {
                light_chrome()
            },
    {
        if crate::monitor::theme_is_dark(pref, system_dark) {
            UiChrome::dark()
        } else {
            UiChrome::light()
        }
    }
}

} // verus!
