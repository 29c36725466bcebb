use omt_tools::monitor::{DelayUnit, MenuNodeId, VideoQualityPreset};
use omt_tools::monitor_menu::{
    dispatch_action, delay_preset_entries, format_buffer_settings, format_delay_setting, help_url, i32_to_text, item_id, label_text,
    root_entries, submenu_entries, ui_text_key, BufferSettings, DelaySetting, MenuAction,
    MenuEffect, MenuEntry, MenuLabel, MonitorSettings, UiText,
};

fn ms(amount: u32) -> DelaySetting {
    DelaySetting { amount, unit: DelayUnit::Milliseconds }
}

fn frames(amount: u32) -> DelaySetting {
    DelaySetting { amount, unit: DelayUnit::Frames }
}

fn settings() -> MonitorSettings {
    MonitorSettings::default_with_buffer(BufferSettings {
        video: frames(3),
        audio: ms(100),
        linked: false,
    })
}

#[test]
fn new_windows_start_with_the_meter_on() {
    let s = settings();
    assert!(s.vu_meter && !s.show_alpha && !s.safe_area);
    assert_eq!((s.quality, s.audio_boost_db), (VideoQualityPreset::Default, 0));
    assert_eq!(s.buffer.video, frames(3));
}

fn checked_rows(entries: &[MenuEntry]) -> Vec<usize> {
    entries
        .iter()
        .enumerate()
        .filter(|(_, e)| matches!(e, MenuEntry::Item { checked: true, .. }))
        .map(|(i, _)| i)
        .collect()
}

#[test]
fn root_panel_rows() {
    let root = root_entries();
    assert_eq!(root.len(), 5);
    assert_eq!(
        root[0],
        MenuEntry::Item {
            label: MenuLabel::Text(UiText::Fullscreen),
            checked: false,
            action: MenuAction::Fullscreen
        }
    );
    assert_eq!(root[1], MenuEntry::Separator);
    assert_eq!(
        root[2],
        MenuEntry::Submenu { id: MenuNodeId::Settings, label: MenuLabel::Text(UiText::Settings) }
    );
    assert!(matches!(root[4], MenuEntry::Item { action: MenuAction::Exit, .. }));
}

#[test]
fn boost_panel_checks_current_boost() {
    let mut s = settings();
    s.audio_boost_db = 10;
    let rows = submenu_entries(&s, MenuNodeId::AudioBoost);
    assert_eq!(rows.len(), 4);
    assert_eq!(checked_rows(&rows), vec![2]);
    assert_eq!(
        rows[3],
        MenuEntry::Item { label: MenuLabel::Boost(20), checked: false, action: MenuAction::SetBoost(20) }
    );
    s.audio_boost_db = 3;
    assert!(checked_rows(&submenu_entries(&s, MenuNodeId::AudioBoost)).is_empty());
}

#[test]
fn delay_panels_list_presets() {
    let rows = delay_preset_entries(frames(3), true);
    assert_eq!(rows.len(), 11);
    assert_eq!(rows[5], MenuEntry::Separator);
    assert_eq!(checked_rows(&rows), vec![9]);
    assert_eq!(
        rows[1],
        MenuEntry::Item {
            label: MenuLabel::Delay(ms(50)),
            checked: false,
            action: MenuAction::SetVideoDelay(ms(50))
        }
    );
    let audio = submenu_entries(&settings(), MenuNodeId::AudioBuffer);
    assert_eq!(checked_rows(&audio), vec![2]);
    assert_eq!(audio[2], MenuEntry::Item {
        label: MenuLabel::Delay(ms(100)),
        checked: true,
        action: MenuAction::SetAudioDelay(ms(100))
    });
}

#[test]
fn buffer_panel_shows_current_delays() {
    let rows = submenu_entries(&settings(), MenuNodeId::AvBuffer);
    assert_eq!(rows.len(), 5);
    assert_eq!(
        rows[0],
        MenuEntry::Submenu {
            id: MenuNodeId::VideoBuffer,
            label: MenuLabel::DelayTitle(UiText::BufferVideo, frames(3))
        }
    );
    assert_eq!(
        rows[3],
        MenuEntry::Item {
            label: MenuLabel::Text(UiText::BufferLink),
            checked: false,
            action: MenuAction::ToggleBufferLink
        }
    );
    assert_eq!(rows[4], MenuEntry::Note { label: MenuLabel::Text(UiText::BufferUnlinkInfo) });
}

#[test]
fn choosing_a_quality_checks_it() {
    let mut s = settings();
    let rows = submenu_entries(&s, MenuNodeId::VideoQuality);
    assert_eq!(checked_rows(&rows), vec![0]);
    let effect = dispatch_action(&mut s, MenuAction::SetQuality(VideoQualityPreset::High));
    assert_eq!(effect, MenuEffect::Reconnect);
    assert_eq!(s.quality, VideoQualityPreset::High);
    assert_eq!(checked_rows(&submenu_entries(&s, MenuNodeId::VideoQuality)), vec![3]);
}

#[test]
fn choosing_a_boost_checks_it() {
    let mut s = settings();
    assert_eq!(dispatch_action(&mut s, MenuAction::SetBoost(6)), MenuEffect::SendAudioBoost(6));
    assert_eq!(s.audio_boost_db, 6);
    assert_eq!(checked_rows(&submenu_entries(&s, MenuNodeId::AudioBoost)), vec![1]);
}

#[test]
fn toggles_flip_their_rows() {
    let mut s = settings();
    assert_eq!(checked_rows(&submenu_entries(&s, MenuNodeId::Overlay)), vec![1]);
    assert_eq!(dispatch_action(&mut s, MenuAction::ToggleSafeArea), MenuEffect::Nothing);
    assert_eq!(dispatch_action(&mut s, MenuAction::ToggleVu), MenuEffect::Nothing);
    assert_eq!(checked_rows(&submenu_entries(&s, MenuNodeId::Overlay)), vec![0]);
    assert_eq!(dispatch_action(&mut s, MenuAction::ToggleAlpha), MenuEffect::InvalidateTexture);
    assert!(s.show_alpha);
    assert_eq!(checked_rows(&submenu_entries(&s, MenuNodeId::Video)), vec![0]);
}

#[test]
fn buffer_choices_are_left_to_the_playout_buffer() {
    let mut s = settings();
    let before = s;
    assert_eq!(
        dispatch_action(&mut s, MenuAction::SetVideoDelay(ms(200))),
        MenuEffect::ApplyVideoDelay(ms(200))
    );
    assert_eq!(
        dispatch_action(&mut s, MenuAction::ToggleBufferLink),
        MenuEffect::ApplyBufferLink(true)
    );
    assert_eq!(s, before);
    assert_eq!(dispatch_action(&mut s, MenuAction::Help), MenuEffect::OpenHelp);
    assert_eq!(dispatch_action(&mut s, MenuAction::Exit), MenuEffect::Quit);
    assert_eq!(dispatch_action(&mut s, MenuAction::Fullscreen), MenuEffect::EnterFullscreen);
    assert_eq!(help_url(), "https://github.com/MikanseiLaboratory/omt-tools");
}

#[test]
fn labels_render() {
    assert_eq!(label_text(MenuLabel::Boost(6), "", "frame", "frames"), "+6 dB");
    assert_eq!(label_text(MenuLabel::Delay(frames(1)), "", "frame", "frames"), "1 frame");
    assert_eq!(label_text(MenuLabel::Delay(ms(50)), "", "frame", "frames"), "50 ms");
    assert_eq!(
        label_text(MenuLabel::DelayTitle(UiText::BufferVideo, frames(3)), "Video", "frame", "frames"),
        "Video (3 frames)"
    );
    assert_eq!(label_text(MenuLabel::Text(UiText::Help), "Help", "f", "fs"), "Help");
    assert_eq!(ui_text_key(UiText::QualityLowBandwidth), "monitor.quality_low_bw");
    assert_eq!(ui_text_key(UiText::Fullscreen), "monitor.fullscreen");
}

#[test]
fn item_ids() {
    assert_eq!(item_id(MenuAction::SetBoost(6)), "boost-6");
    assert_eq!(item_id(MenuAction::SetBoost(-5)), "boost--5");
    assert_eq!(item_id(MenuAction::SetVideoDelay(ms(50))), "buf-v-ms-50");
    assert_eq!(item_id(MenuAction::SetAudioDelay(frames(1))), "buf-a-fr-1");
    assert_eq!(item_id(MenuAction::SetQuality(VideoQualityPreset::LowBandwidth)), "q-LowBandwidth");
    assert_eq!(item_id(MenuAction::ToggleBufferLink), "buf-link");
    assert_eq!(i32_to_text(i32::MIN), i32::MIN.to_string());
    assert_eq!(i32_to_text(0), "0");
}

#[test]
fn stats_buffer_line_with_units() {
    assert_eq!(format_delay_setting(ms(80), 80, "frame", "frames", "≈"), "80 ms");
    assert_eq!(format_delay_setting(frames(1), 33, "frame", "frames", "≈"), "1 frame (≈33 ms)");
    let b = BufferSettings { video: frames(3), audio: ms(100), linked: false };
    assert_eq!(
        format_buffer_settings(b, 100, 100, "frame", "frames", "≈"),
        "indep · V 3 frames (≈100 ms) / A 100 ms"
    );
}
