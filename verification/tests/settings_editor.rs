use std::path::PathBuf;

use omt_tools::settings_editor::{
    parse_port, validate_discovery_url, SavePlan, SettingsEditor, SettingsRead, StatusLine,
    StoredSettings,
};

fn pair(k: &str, v: &str) -> (String, String) {
    (k.to_string(), v.to_string())
}

fn stored(ds: &str, start: u16, end: u16, entries: Vec<(String, String)>) -> SettingsRead {
    SettingsRead::Loaded(StoredSettings {
        discovery_server: ds.to_string(),
        port_start: start,
        port_end: end,
        entries,
    })
}

fn editor() -> SettingsEditor {
    let mut e = SettingsEditor::new(PathBuf::from("/tmp/settings.xml"));
    e.reload_from(stored("", 6400, 6600, Vec::new()));
    e
}

/// What a store holds after applying `plan` (keys sorted, last write wins).
fn store_after(existing: Vec<(String, String)>, plan: &SavePlan) -> SettingsRead {
    let mut map: std::collections::BTreeMap<String, String> = existing.into_iter().collect();
    for k in &plan.remove {
        map.remove(k);
    }
    map.insert("DiscoveryServer".into(), plan.discovery_server.clone());
    map.insert("NetworkPortStart".into(), plan.port_start.to_string());
    map.insert("NetworkPortEnd".into(), plan.port_end.to_string());
    for (k, v) in &plan.extras {
        map.insert(k.clone(), v.clone());
    }
    stored(
        &plan.discovery_server,
        plan.port_start,
        plan.port_end,
        map.into_iter().collect(),
    )
}

#[test]
fn new_editor_has_default_ports() {
    let e = SettingsEditor::new(PathBuf::from("/tmp/x.xml"));
    assert_eq!(e.port_start, "6400");
    assert_eq!(e.port_end, "6600");
    assert_eq!(e.discovery_server, "");
    assert!(e.extras.is_empty());
    assert!(!e.unreadable);
}

#[test]
fn roundtrip_known_and_unknown_keys() {
    let mut e = SettingsEditor::new(PathBuf::from("/tmp/settings.xml"));
    let existing = vec![
        pair("DiscoveryServer", "omt://10.0.0.1:6399"),
        pair("VendorKey", "keep"),
    ];
    e.reload_from(stored("omt://10.0.0.1:6399", 6400, 6600, existing.clone()));
    assert_eq!(e.discovery_server, "omt://10.0.0.1:6399");
    assert_eq!(e.extras, vec![pair("VendorKey", "keep")]);
    e.discovery_server = "omt://127.0.0.1:6399".into();
    e.port_start = "6500".into();
    e.port_end = "6510".into();
    e.extras[0].1 = "updated".into();
    let keys: Vec<String> = existing.iter().map(|(k, _)| k.clone()).collect();
    let plan = e.plan_save(&keys).unwrap();
    assert!(plan.remove.is_empty());
    assert_eq!(plan.discovery_server, "omt://127.0.0.1:6399");
    assert_eq!(plan.port_start, 6500);
    assert_eq!(plan.port_end, 6510);
    assert_eq!(plan.extras, vec![pair("VendorKey", "updated")]);
    e.mark_saved();
    assert_eq!(e.status.as_deref(), Some("Saved"));
    assert!(e.error.is_none());

    let mut again = SettingsEditor::new(PathBuf::from("/tmp/settings.xml"));
    again.reload(store_after(existing, &plan));
    assert_eq!(again.discovery_server, "omt://127.0.0.1:6399");
    assert_eq!(again.port_start, "6500");
    assert_eq!(again.port_end, "6510");
    assert_eq!(again.extras, vec![pair("VendorKey", "updated")]);
    assert_eq!(again.status.as_deref(), Some("Reloaded"));
}

#[test]
fn rejects_invalid_url_and_inverted_ports_without_writing() {
    let mut e = editor();
    e.discovery_server = "http://nope".into();
    let err = e.plan_save(&Vec::new()).unwrap_err();
    assert_eq!(err, "Discovery Server must be empty (DNS-SD) or omt://host:port");

    e.discovery_server = "omt://127.0.0.1:6399".into();
    e.port_start = "6600".into();
    e.port_end = "6400".into();
    assert!(e.validate().unwrap_err().contains("less than or equal"));
    assert!(e.plan_save(&Vec::new()).is_err());
}

#[test]
fn remove_extra_key_is_persisted() {
    let mut e = editor();
    e.new_key = "CustomFlag".into();
    e.new_value = "yes".into();
    e.add_extra().unwrap();
    assert!(e.new_key.is_empty() && e.new_value.is_empty());
    let plan = e.plan_save(&Vec::new()).unwrap();
    assert_eq!(plan.extras, vec![pair("CustomFlag", "yes")]);

    e.remove_extra(0);
    let keys = vec![
        "CustomFlag".to_string(),
        "DiscoveryServer".to_string(),
        "NetworkPortEnd".to_string(),
        "NetworkPortStart".to_string(),
    ];
    let plan = e.plan_save(&keys).unwrap();
    assert_eq!(plan.remove, vec!["CustomFlag".to_string()]);
    assert!(plan.extras.is_empty());
}

#[test]
fn empty_discovery_means_dns_sd() {
    let mut e = editor();
    e.discovery_server = "omt://10.0.0.2:6399".into();
    assert_eq!(e.plan_save(&Vec::new()).unwrap().discovery_server, "omt://10.0.0.2:6399");
    e.clear_discovery();
    assert_eq!(e.discovery_server, "");
    assert_eq!(e.plan_save(&Vec::new()).unwrap().discovery_server, "");
}

#[test]
fn unreadable_file_does_not_save() {
    let mut direct = editor();
    direct.unreadable = true;
    direct.error = Some("denied".into());
    assert!(direct.plan_save(&Vec::new()).unwrap_err().contains("could not be read"));

    let mut e = editor();
    e.reload(SettingsRead::Unreadable("could not read /x: denied".into()));
    assert!(e.unreadable);
    assert_eq!(e.error.as_deref(), Some("could not read /x: denied"));
    assert!(e.status.is_none());
    assert!(e.plan_save(&Vec::new()).unwrap_err().contains("could not be read"));
}

#[test]
fn add_extra_keeps_keys_sorted_and_unique() {
    let mut e = editor();
    for (k, v) in [("Zeta", "1"), ("alpha", "2"), ("Beta", "3")] {
        e.new_key = format!("  {k} ");
        e.new_value = v.into();
        e.add_extra().unwrap();
    }
    assert_eq!(
        e.extras,
        vec![pair("Beta", "3"), pair("Zeta", "1"), pair("alpha", "2")]
    );
    e.new_key = "Beta".into();
    assert_eq!(e.add_extra().unwrap_err(), "Beta already exists");
    e.new_key = "NetworkPortEnd".into();
    assert_eq!(e.add_extra().unwrap_err(), "NetworkPortEnd already exists");
    e.new_key = "1abc".into();
    assert_eq!(
        e.add_extra().unwrap_err(),
        "key must be a valid XML name (letter or _ first)"
    );
    assert_eq!(e.extras.len(), 3);
}

#[test]
fn remove_extra_past_end_changes_nothing() {
    let mut e = editor();
    e.extras = vec![pair("A", "1")];
    e.remove_extra(5);
    assert_eq!(e.extras, vec![pair("A", "1")]);
}

#[test]
fn invalid_and_dedicated_extra_keys_are_reported() {
    let mut e = editor();
    e.extras = vec![pair("bad key", "x")];
    assert_eq!(e.validate().unwrap_err(), "invalid extra key \"bad key\"");
    e.extras = vec![pair("DiscoveryServer", "x")];
    assert_eq!(
        e.validate().unwrap_err(),
        "DiscoveryServer is a dedicated field; remove it from extra keys"
    );
}

#[test]
fn ports_must_be_integers_from_1_to_65535() {
    assert_eq!(parse_port(" 6500 ", "p"), Ok(6500));
    assert_eq!(parse_port("+80", "p"), Ok(80));
    assert_eq!(parse_port("65535", "p"), Ok(65535));
    assert_eq!(
        parse_port("0", "Sender port start"),
        Err("Sender port start must be an integer from 1 to 65535".to_string())
    );
    assert!(parse_port("65536", "p").is_err());
    assert!(parse_port("-1", "p").is_err());
    assert!(parse_port("", "p").is_err());
    assert!(parse_port("12a", "p").is_err());
    assert!(parse_port("99999999999", "p").is_err());
}

#[test]
fn discovery_url_forms() {
    assert!(validate_discovery_url("").is_ok());
    assert!(validate_discovery_url("   ").is_ok());
    assert!(validate_discovery_url("omt://host").is_ok());
    assert!(validate_discovery_url(" omt://10.0.0.1:6399/path ").is_ok());
    assert!(validate_discovery_url("omt://[::1]:6399").is_ok());
    assert_eq!(
        validate_discovery_url("omt://:6399").unwrap_err(),
        "Discovery Server host is missing"
    );
    assert_eq!(
        validate_discovery_url("omt:///x").unwrap_err(),
        "Discovery Server host is missing"
    );
    assert_eq!(
        validate_discovery_url("omt://[:6399").unwrap_err(),
        "Discovery Server host is missing"
    );
    assert_eq!(
        validate_discovery_url("omt://host:0").unwrap_err(),
        "Discovery Server port must be an integer from 1 to 65535"
    );
}

#[test]
fn status_line_prefers_the_error() {
    let mut e = editor();
    assert!(matches!(e.status_line(), StatusLine::Blank));
    e.mark_saved();
    assert!(matches!(e.status_line(), StatusLine::Success(ref m) if m == "Saved"));
    e.error = Some("bad".into());
    assert!(matches!(e.status_line(), StatusLine::Failure(ref m) if m == "bad"));
}

#[test]
fn failures_replace_the_success_message() {
    let mut e = editor();
    e.mark_saved();
    e.new_key = "1bad".into();
    let err = e.add_extra().unwrap_err();
    e.record_failure(err.clone());
    assert_eq!(e.error, Some(err));
    assert!(e.status.is_none());
    assert!(matches!(e.status_line(), StatusLine::Failure(_)));
}
