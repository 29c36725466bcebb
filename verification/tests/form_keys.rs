use std::path::PathBuf;

use omt_tools::config_form::{apply_edit_key, EditTarget, CONFIG_FIELD_MAX_BYTES};
use omt_tools::discovery::{apply_server_key, ServerEditTarget};
use omt_tools::settings_editor::{SettingsEditor, SettingsRead, StoredSettings};

fn editor() -> SettingsEditor {
    let mut e = SettingsEditor::new(PathBuf::from("/tmp/settings.xml"));
    e.reload_from(SettingsRead::Loaded(StoredSettings {
        discovery_server: String::new(),
        port_start: 6400,
        port_end: 6600,
        entries: vec![("Alpha".to_string(), "1".to_string())],
    }));
    e
}

#[test]
fn config_keys_go_to_the_edited_field() {
    let mut e = editor();
    assert_eq!(apply_edit_key(&mut e, EditTarget::Discovery, "o", Some("omt://h")), EditTarget::Discovery);
    assert_eq!(e.discovery_server, "omt://h");
    assert_eq!(apply_edit_key(&mut e, EditTarget::PortStart, "backspace", None), EditTarget::PortStart);
    assert_eq!(e.port_start, "640");
    assert_eq!(apply_edit_key(&mut e, EditTarget::ExtraValue(0), "2", Some("2")), EditTarget::ExtraValue(0));
    assert_eq!(e.extras, vec![("Alpha".to_string(), "12".to_string())]);
    assert_eq!(apply_edit_key(&mut e, EditTarget::ExtraKey(0), "x", Some("X")), EditTarget::ExtraKey(0));
    assert_eq!(e.extras, vec![("AlphaX".to_string(), "12".to_string())]);
    assert_eq!(apply_edit_key(&mut e, EditTarget::NewKey, "k", Some("K")), EditTarget::NewKey);
    assert_eq!(e.new_key, "K");
}

#[test]
fn config_editing_ends_on_enter_and_ignores_gone_rows() {
    let mut e = editor();
    assert_eq!(apply_edit_key(&mut e, EditTarget::PortEnd, "enter", Some("\r")), EditTarget::Idle);
    assert_eq!(e.port_end, "6600");
    assert_eq!(apply_edit_key(&mut e, EditTarget::ExtraKey(5), "escape", None), EditTarget::Idle);
    assert_eq!(apply_edit_key(&mut e, EditTarget::ExtraKey(5), "x", Some("x")), EditTarget::ExtraKey(5));
    assert_eq!(e.extras, vec![("Alpha".to_string(), "1".to_string())]);
    assert_eq!(apply_edit_key(&mut e, EditTarget::Idle, "x", Some("x")), EditTarget::Idle);
    assert_eq!(e.new_key, "");
}

#[test]
fn config_fields_stop_at_256_bytes() {
    let mut e = editor();
    let long = "a".repeat(CONFIG_FIELD_MAX_BYTES);
    assert_eq!(apply_edit_key(&mut e, EditTarget::NewValue, "a", Some(&long)), EditTarget::NewValue);
    assert_eq!(e.new_value.len(), 256);
    apply_edit_key(&mut e, EditTarget::NewValue, "a", Some("a"));
    assert_eq!(e.new_value.len(), 256);
}

#[test]
fn server_keys_edit_only_while_stopped() {
    let mut bind = String::from("::");
    let mut port = String::from("6399");
    assert_eq!(
        apply_server_key(&mut bind, &mut port, ServerEditTarget::Port, true, "1", Some("1")),
        ServerEditTarget::Port
    );
    assert_eq!(port, "6399");
    assert_eq!(
        apply_server_key(&mut bind, &mut port, ServerEditTarget::Port, false, "backspace", None),
        ServerEditTarget::Port
    );
    assert_eq!(port, "639");
    assert_eq!(
        apply_server_key(&mut bind, &mut port, ServerEditTarget::Bind, false, "1", Some("1")),
        ServerEditTarget::Bind
    );
    assert_eq!(bind, "::1");
    assert_eq!(
        apply_server_key(&mut bind, &mut port, ServerEditTarget::Bind, false, "escape", None),
        ServerEditTarget::Idle
    );
    let long = "b".repeat(70);
    apply_server_key(&mut bind, &mut port, ServerEditTarget::Bind, false, "b", Some(&long));
    assert_eq!(bind, "::1");
}
