use omt_tools::editing::{apply_text_key, name_or_default, TextKeyOutcome};
use omt_tools::monitor::{
    buffer_fps, commit_number_field, expand_menu_node, format_buffer_stats, format_delay_short,
    format_log_line, format_video_delay_frames, next_status, u64_to_text, BufferEditState, DelayUnit, MenuNodeId, Quality, SessionState,
    VideoQualityPreset,
};
use omt_tools::patterns::{
    nudge_anim_speed, nudge_frame_buffer, nudge_height, nudge_width, quality_label,
    resolution_tag_text, selection_after_remove, toggle_menu, MenuKind,
};

#[test]
fn text_keys_edit_the_field() {
    let mut f = String::from("ab");
    assert_eq!(apply_text_key(&mut f, "c", Some("c"), 64), TextKeyOutcome::Inserted);
    assert_eq!(f, "abc");
    assert_eq!(apply_text_key(&mut f, "backspace", None, 64), TextKeyOutcome::Deleted);
    assert_eq!(f, "ab");
    assert_eq!(apply_text_key(&mut f, "enter", Some("\n"), 64), TextKeyOutcome::Finish);
    assert_eq!(apply_text_key(&mut f, "escape", None, 64), TextKeyOutcome::Finish);
    assert_eq!(f, "ab");
    assert_eq!(apply_text_key(&mut f, "tab", Some("\t"), 64), TextKeyOutcome::Unchanged);
    assert_eq!(apply_text_key(&mut f, "x", Some("日本"), 7), TextKeyOutcome::Unchanged);
    assert_eq!(apply_text_key(&mut f, "x", Some("日本"), 8), TextKeyOutcome::Inserted);
    assert_eq!(f, "ab日本");
    let mut empty = String::new();
    assert_eq!(apply_text_key(&mut empty, "backspace", None, 8), TextKeyOutcome::Deleted);
    assert_eq!(empty, "");
    assert_eq!(name_or_default("   "), "Test Pattern");
    assert_eq!(name_or_default(" Cam "), " Cam ");
}

#[test]
fn buffer_drafts_follow_the_applied_buffer() {
    let mut b = BufferEditState::default();
    b.sync_from(DelayUnit::Frames, 3, false, 100, 40, 9);
    assert_eq!(b.video_frames, "3");
    assert_eq!(b.audio_ms, "40");
    b.sync_from(DelayUnit::Milliseconds, 100, true, 100, 40, 6);
    assert_eq!(b.video_frames, "6");
    assert_eq!(b.audio_ms, "100");
}

#[test]
fn number_fields_commit_capped_values() {
    let mut e = String::from(" 500 ");
    assert_eq!(commit_number_field(&mut e, 120, 7), Some(120));
    assert_eq!(e, "120");
    let mut e = String::from("42");
    assert_eq!(commit_number_field(&mut e, 2000, 7), Some(42));
    assert_eq!(e, "42");
    let mut e = String::from("abc");
    assert_eq!(commit_number_field(&mut e, 2000, 7), None);
    assert_eq!(e, "7");
    let mut e = String::from("  ");
    assert_eq!(commit_number_field(&mut e, 2000, 7), None);
    assert_eq!(e, "  ");
}

#[test]
fn buffer_rate_defaults_to_30() {
    assert_eq!(buffer_fps(0, 0), (30, 1));
    assert_eq!(buffer_fps(60000, 1001), (60000, 1001));
    assert_eq!(buffer_fps(25, 0), (25, 1));
}

#[test]
fn status_follows_the_session() {
    assert_eq!(next_status(SessionState::Connecting, 0, None, "x"), "Connecting…");
    assert_eq!(next_status(SessionState::Reconnecting, 12, None, "x"), "Reconnecting… (12)");
    assert_eq!(next_status(SessionState::Connected, 0, None, "Connecting…"), "");
    assert_eq!(next_status(SessionState::Connected, 0, None, "Reconnecting… (1)"), "");
    assert_eq!(next_status(SessionState::Connected, 0, None, "ok"), "ok");
    assert_eq!(next_status(SessionState::Connected, 0, Some("bad"), "ok"), "bad");
    assert_eq!(next_status(SessionState::Connected, 0, Some(""), "ok"), "ok");
    assert_eq!(next_status(SessionState::Stopped, 0, Some("gone"), "ok"), "gone");
    assert_eq!(next_status(SessionState::Stopping, 0, None, "ok"), "ok");
}

#[test]
fn log_lines_show_time_within_100s() {
    assert_eq!(format_log_line(1_700_000_123_456, "Tally", "on"), "[23456] Tally: on");
    assert_eq!(u64_to_text(u64::MAX), u64::MAX.to_string());
    assert_eq!(u64_to_text(0), "0");
}

#[test]
fn menu_path_truncates_to_depth() {
    let mut path = vec![MenuNodeId::Settings, MenuNodeId::Audio, MenuNodeId::AvBuffer];
    expand_menu_node(&mut path, MenuNodeId::Video);
    assert_eq!(path, vec![MenuNodeId::Settings, MenuNodeId::Video]);
    expand_menu_node(&mut path, MenuNodeId::VideoQuality);
    assert_eq!(path, vec![MenuNodeId::Settings, MenuNodeId::Video, MenuNodeId::VideoQuality]);
    expand_menu_node(&mut path, MenuNodeId::Settings);
    assert_eq!(path, vec![MenuNodeId::Settings]);
    let mut short = Vec::new();
    expand_menu_node(&mut short, MenuNodeId::AudioBuffer);
    assert_eq!(short, vec![MenuNodeId::AudioBuffer]);
}

#[test]
fn quality_presets_map_to_connect_parts() {
    assert_eq!(VideoQualityPreset::Default.to_connect_parts(), (Quality::Default, false));
    assert_eq!(VideoQualityPreset::High.to_connect_parts(), (Quality::High, false));
    assert_eq!(VideoQualityPreset::LowBandwidth.to_connect_parts(), (Quality::Low, true));
}

#[test]
fn delay_labels() {
    assert_eq!(format_delay_short(DelayUnit::Milliseconds, 200, "frame", "frames"), "200 ms");
    assert_eq!(format_delay_short(DelayUnit::Frames, 1, "frame", "frames"), "1 frame");
    assert_eq!(format_delay_short(DelayUnit::Frames, 5, "frame", "frames"), "5 frames");
}

#[test]
fn steppers_clamp() {
    assert_eq!(nudge_width(1920, 16), 1936);
    assert_eq!(nudge_width(7679, 8), 7680);
    assert_eq!(nudge_width(64, -16), 64);
    assert_eq!(nudge_width(1921, 2), 1922);
    assert_eq!(nudge_width(1920, 3), 1922);
    assert_eq!(nudge_height(1080, 8), 1088);
    assert_eq!(nudge_height(4320, 8), 4320);
    assert_eq!(nudge_height(70, -10), 64);
    assert_eq!(nudge_anim_speed(190, 25), 200);
    assert_eq!(nudge_anim_speed(-190, -25), -200);
    assert_eq!(nudge_anim_speed(0, 25), 25);
}

#[test]
fn resolution_tags() {
    assert_eq!(resolution_tag_text(2160), "2160p");
    assert_eq!(resolution_tag_text(1080), "1080p");
    assert_eq!(resolution_tag_text(720), "720p");
    assert_eq!(resolution_tag_text(480), "SD");
}

#[test]
fn selection_after_image_removal() {
    assert_eq!(selection_after_remove(Some(2), 2, true), None);
    assert_eq!(selection_after_remove(Some(2), 2, false), Some(2));
    assert_eq!(selection_after_remove(Some(3), 1, true), Some(2));
    assert_eq!(selection_after_remove(Some(0), 1, true), Some(0));
    assert_eq!(selection_after_remove(None, 0, true), None);
}

#[test]
fn frame_buffer_steps_stay_in_range() {
    assert_eq!(nudge_frame_buffer(3, 1, 1, 8), 4);
    assert_eq!(nudge_frame_buffer(8, 1, 1, 8), 8);
    assert_eq!(nudge_frame_buffer(1, -1, 1, 8), 1);
    assert_eq!(nudge_frame_buffer(0, -5, 1, 8), 1);
}

#[test]
fn menus_toggle_and_stay_shut_while_sending() {
    assert_eq!(toggle_menu(None, MenuKind::Tone, false), Some(MenuKind::Tone));
    assert_eq!(toggle_menu(Some(MenuKind::Tone), MenuKind::Tone, true), None);
    assert_eq!(toggle_menu(Some(MenuKind::Tone), MenuKind::Level, false), Some(MenuKind::Level));
    assert_eq!(toggle_menu(None, MenuKind::Resolution, true), None);
    assert_eq!(toggle_menu(Some(MenuKind::Level), MenuKind::Fps, true), Some(MenuKind::Level));
    assert_eq!(toggle_menu(None, MenuKind::Fps, false), Some(MenuKind::Fps));
}

#[test]
fn quality_tags() {
    assert_eq!(quality_label(Quality::Low), "LQ");
    assert_eq!(quality_label(Quality::High), "HQ");
    assert_eq!(quality_label(Quality::Default), "SQ");
}

#[test]
fn video_delay_in_frames_and_ms() {
    assert_eq!(
        format_video_delay_frames(DelayUnit::Frames, 3, 100, 9, "frame", "frames", "≈"),
        "3 frames (≈100 ms)"
    );
    assert_eq!(
        format_video_delay_frames(DelayUnit::Milliseconds, 40, 40, 1, "frame", "frames", "~"),
        "1 frame (~40 ms)"
    );
}

#[test]
fn buffer_stats_line() {
    assert_eq!(format_buffer_stats(true, "2 frames", 80), "link · V 2 frames / A 80 ms");
    assert_eq!(format_buffer_stats(false, "0 ms", 0), "indep · V 0 ms / A 0 ms");
}

#[test]
fn typed_text_never_exceeds_the_byte_limit() {
    let mut f = String::from("abc");
    for _ in 0..10 {
        apply_text_key(&mut f, "x", Some("é"), 8);
        assert!(f.len() <= 8);
    }
    assert_eq!(f, "abcéé");
}
