use omt_tools::monitor::Quality;
use omt_tools::patterns::MenuKind;
use omt_tools::patterns_form::{
    frame_rate_presets, pattern_title, resolution_label, resolution_presets, window_title,
    FrameRate, PatternsForm, Resolution,
};

#[test]
fn presets() {
    let rates = frame_rate_presets();
    assert_eq!(rates.len(), 8);
    assert_eq!(rates[0], FrameRate { n: 24_000, d: 1_001 });
    assert_eq!(rates[7], FrameRate { n: 60, d: 1 });
    let sizes = resolution_presets();
    assert_eq!(sizes, vec![
        Resolution { width: 1280, height: 720 },
        Resolution { width: 1920, height: 1080 },
        Resolution { width: 3840, height: 2160 },
    ]);
    assert_eq!(resolution_label(sizes[1]), "1920×1080");
}

#[test]
fn titles() {
    assert_eq!(window_title("SMPTE Color Bars", 1080, "29.97"), "OMT Test Patterns - SMPTE Color Bars (1080p29.97)");
    assert_eq!(window_title("Image", 480, "25"), "OMT Test Patterns - Image (SD25)");
    assert_eq!(pattern_title(true, Some("logo.png"), "Bars"), "logo.png");
    assert_eq!(pattern_title(true, None, "Bars"), "Image");
    assert_eq!(pattern_title(false, Some("logo.png"), "Bars"), "Bars");
}

#[test]
fn name_editing() {
    let mut f = PatternsForm::new(3);
    f.on_name_key("a", Some("a"));
    assert_eq!(f.name, "Test Pattern");
    f.begin_edit_name();
    assert!(f.name_editing);
    for _ in 0..12 {
        f.on_name_key("backspace", None);
    }
    assert_eq!(f.name, "");
    f.on_name_key(" ", Some(" "));
    f.on_name_key("enter", None);
    assert!(!f.name_editing);
    assert_eq!(f.name, "Test Pattern");
    f.begin_edit_name();
    f.on_name_key("x", Some("!"));
    f.close_overlays();
    assert_eq!(f.name, "Test Pattern!");
    f.sending = true;
    f.begin_edit_name();
    assert!(!f.name_editing);
}

#[test]
fn format_is_frozen_while_sending() {
    let mut f = PatternsForm::new(3);
    assert!(f.set_resolution(Resolution { width: 1280, height: 720 }));
    assert!(!f.set_resolution(Resolution { width: 1280, height: 720 }));
    assert!(f.nudge_width(3));
    assert_eq!(f.width, 1282);
    assert!(f.set_frame_rate(FrameRate { n: 50, d: 1 }));
    f.sending = true;
    f.open_menu = Some(MenuKind::Fps);
    assert!(!f.set_frame_rate(FrameRate { n: 60, d: 1 }));
    assert_eq!(f.open_menu, None);
    assert!(!f.set_resolution(Resolution { width: 3840, height: 2160 }));
    assert!(!f.nudge_height(8));
    assert!(!f.nudge_width(-8));
    assert_eq!((f.width, f.height, f.frame_rate), (1282, 720, FrameRate { n: 50, d: 1 }));
}

#[test]
fn speeds_quality_and_buffer() {
    let mut f = PatternsForm::new(3);
    assert!(f.nudge_anim_speed_h(150));
    assert_eq!(f.anim_speed_h_pct, 200);
    assert!(!f.nudge_anim_speed_h(10));
    assert!(f.nudge_anim_speed_v(-350));
    assert_eq!(f.anim_speed_v_pct, -200);
    assert!(!f.set_quality(Quality::Medium));
    assert!(f.set_quality(Quality::High));
    assert!(f.nudge_frame_buffer(1, 1, 8));
    assert_eq!(f.frame_buffer_frames, 4);
    assert!(!f.nudge_frame_buffer(10, 1, 4));
    f.toggle_animate();
    assert!(!f.animate);
}

#[test]
fn menus() {
    let mut f = PatternsForm::new(3);
    f.open_custom_menu(2);
    assert_eq!(f.custom_menu, Some(2));
    f.toggle_menu(MenuKind::Tone);
    assert_eq!((f.open_menu, f.custom_menu), (Some(MenuKind::Tone), None));
    f.toggle_menu(MenuKind::Tone);
    assert_eq!(f.open_menu, None);
    f.toggle_menu(MenuKind::Level);
    f.stop_sending();
    assert_eq!(f.open_menu, None);
    f.name = "  ".into();
    f.start_sending();
    assert_eq!(f.name, "Test Pattern");
}

#[test]
fn name_editing_leaves_the_send_settings() {
    let mut f = PatternsForm::new(5);
    f.animate = false;
    f.anim_speed_h_pct = -50;
    f.begin_edit_name();
    f.on_name_key("x", Some("x"));
    f.close_overlays();
    f.start_sending();
    assert_eq!((f.animate, f.anim_speed_h_pct, f.anim_speed_v_pct, f.frame_buffer_frames), (false, -50, 100, 5));
    assert_eq!(f.quality, Quality::Medium);
    assert_eq!(f.name, "Test Patternx");
}
