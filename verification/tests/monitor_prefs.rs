use omt_tools::monitor::{theme_is_dark, DelayUnit, ThemeChoice, VideoQualityPreset};
use omt_tools::monitor_menu::{BufferSettings, DelaySetting, MonitorSettings};
use omt_tools::monitor_prefs::{
    apply_prefs_action, docs_url, license_url, theme_needs_apply, PrefsAction, PrefsEffect,
    PrefsState, UiChrome, UiLanguage,
};

fn state() -> PrefsState {
    PrefsState {
        language: UiLanguage::English,
        theme: ThemeChoice::System,
        settings: MonitorSettings {
            show_alpha: false,
            safe_area: false,
            vu_meter: true,
            quality: VideoQualityPreset::Default,
            audio_boost_db: 0,
            buffer: BufferSettings {
                video: DelaySetting { amount: 0, unit: DelayUnit::Frames },
                audio: DelaySetting { amount: 0, unit: DelayUnit::Milliseconds },
                linked: true,
            },
        },
        preferences_open: true,
        audio_output_device: None,
        last_theme_dark: Some(false),
    }
}

#[test]
fn language_and_theme_are_saved_only_when_they_change() {
    let mut s = state();
    assert!(matches!(apply_prefs_action(&mut s, PrefsAction::SetLanguage(UiLanguage::Japanese)), PrefsEffect::PersistPrefs));
    assert_eq!(s.language, UiLanguage::Japanese);
    assert!(matches!(apply_prefs_action(&mut s, PrefsAction::SetLanguage(UiLanguage::Japanese)), PrefsEffect::Nothing));
    assert!(matches!(apply_prefs_action(&mut s, PrefsAction::SetTheme(ThemeChoice::Dark)), PrefsEffect::PersistPrefs));
    assert_eq!(s.theme, ThemeChoice::Dark);
    assert_eq!(s.last_theme_dark, None);
    s.last_theme_dark = Some(true);
    assert!(matches!(apply_prefs_action(&mut s, PrefsAction::SetTheme(ThemeChoice::Dark)), PrefsEffect::Nothing));
    assert_eq!(s.last_theme_dark, Some(true));
}

#[test]
fn delays_from_preferences_are_capped() {
    let mut s = state();
    match apply_prefs_action(&mut s, PrefsAction::SetVideoDelayFrames(500)) {
        PrefsEffect::ApplyVideoDelay(d) => assert_eq!(d, DelaySetting { amount: 120, unit: DelayUnit::Frames }),
        _ => panic!("expected a video delay"),
    }
    match apply_prefs_action(&mut s, PrefsAction::SetAudioDelayMs(40)) {
        PrefsEffect::ApplyAudioDelay(d) => assert_eq!(d, DelaySetting { amount: 40, unit: DelayUnit::Milliseconds }),
        _ => panic!("expected an audio delay"),
    }
    match apply_prefs_action(&mut s, PrefsAction::SetAudioDelayMs(9000)) {
        PrefsEffect::ApplyAudioDelay(d) => assert_eq!(d.amount, 2000),
        _ => panic!("expected an audio delay"),
    }
    assert!(matches!(apply_prefs_action(&mut s, PrefsAction::SetBufferLink(false)), PrefsEffect::ApplyBufferLink(false)));
    assert!(s.settings.buffer.linked);
}

#[test]
fn viewer_settings_follow_the_dialog() {
    let mut s = state();
    assert!(matches!(apply_prefs_action(&mut s, PrefsAction::SetBoost(10)), PrefsEffect::SendAudioBoost(10)));
    assert_eq!(s.settings.audio_boost_db, 10);
    assert!(matches!(apply_prefs_action(&mut s, PrefsAction::SetQuality(VideoQualityPreset::Low)), PrefsEffect::Reconnect));
    assert_eq!(s.settings.quality, VideoQualityPreset::Low);
    assert!(matches!(apply_prefs_action(&mut s, PrefsAction::SetAlpha(true)), PrefsEffect::SetPrepAlpha(true)));
    assert!(s.settings.show_alpha);
    assert!(matches!(apply_prefs_action(&mut s, PrefsAction::SetVu(false)), PrefsEffect::Nothing));
    assert!(!s.settings.vu_meter);
    assert!(matches!(apply_prefs_action(&mut s, PrefsAction::SetSafeArea(true)), PrefsEffect::Nothing));
    assert!(s.settings.safe_area);
    match apply_prefs_action(&mut s, PrefsAction::SetAudioDevice(Some("Speakers".into()))) {
        PrefsEffect::SendAudioDevice(d) => assert_eq!(d.as_deref(), Some("Speakers")),
        _ => panic!("expected a device"),
    }
    assert_eq!(s.audio_output_device.as_deref(), Some("Speakers"));
    assert!(matches!(apply_prefs_action(&mut s, PrefsAction::Close), PrefsEffect::Nothing));
    assert!(!s.preferences_open);
}

#[test]
fn window_actions_are_passed_on() {
    let mut s = state();
    assert!(matches!(apply_prefs_action(&mut s, PrefsAction::EnterFullscreen), PrefsEffect::EnterFullscreen));
    assert!(matches!(apply_prefs_action(&mut s, PrefsAction::OpenHelp), PrefsEffect::OpenHelp));
    assert!(matches!(apply_prefs_action(&mut s, PrefsAction::OpenLicense), PrefsEffect::OpenLicense));
    assert!(matches!(apply_prefs_action(&mut s, PrefsAction::Exit), PrefsEffect::Exit));
    assert_eq!(docs_url(), "https://github.com/MikanseiLaboratory/omt-tools#docs--guides");
    assert_eq!(license_url(), "https://github.com/MikanseiLaboratory/omt-tools/blob/main/LICENSE");
}

#[test]
fn dark_palette_follows_the_choice() {
    assert!(theme_is_dark(ThemeChoice::Dark, false));
    assert!(!theme_is_dark(ThemeChoice::Light, true));
    assert!(theme_is_dark(ThemeChoice::System, true));
    assert!(!theme_is_dark(ThemeChoice::System, false));
}

#[test]
fn a_new_theme_is_applied_on_the_next_frame() {
    let mut s = state();
    assert!(!theme_needs_apply(s.last_theme_dark, false));
    apply_prefs_action(&mut s, PrefsAction::SetTheme(ThemeChoice::Light));
    assert!(theme_needs_apply(s.last_theme_dark, false));
    assert!(theme_needs_apply(Some(true), false));
}

#[test]
fn palettes() {
    assert_eq!(UiChrome::resolve(ThemeChoice::System, true), UiChrome::dark());
    assert_eq!(UiChrome::resolve(ThemeChoice::System, false), UiChrome::light());
    assert_eq!(UiChrome::resolve(ThemeChoice::Light, true).bg, 0xf3f5f8);
    assert_eq!(UiChrome::resolve(ThemeChoice::Dark, false).accent, 0x3d9cf0);
    assert_eq!(UiChrome::light().panel, 0xffffff);
}
