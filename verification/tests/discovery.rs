use omt_tools::discovery::{
    bind_choices, check_settings_change, classify_bind, format_event, format_instance_name,
    format_source, parse_listen_port, remembered_port, starting_line, visible_events, BindChoice,
    BindTarget,
    EventLog, InterfaceAddr, ServerEvent, ServerSettings, SourceName,
    DISCOVERY_SERVER_DEFAULT_PORT, MAX_EVENTS,
};

fn iface(name: &str, ip: &str, unspecified: bool) -> InterfaceAddr {
    InterfaceAddr { name: name.into(), ip: ip.into(), unspecified }
}

#[test]
fn bind_choices_include_any_and_local_addrs() {
    let choices = bind_choices(vec![iface("lo", "127.0.0.1", false)]);
    assert!(choices.iter().any(|c| c.bind == "::" && c.iface.is_none()));
    assert!(choices.iter().any(|c| c.bind == "0.0.0.0" && c.iface.is_none()));
}

#[test]
fn bind_choices_skip_unspecified_and_repeated_addresses() {
    let choices = bind_choices(vec![
        iface("eth0", "10.0.0.5", false),
        iface("any", "0.0.0.0", true),
        iface("eth1", "10.0.0.5", false),
        iface("wlan0", "fe80::1", false),
        iface("odd", "::", false),
    ]);
    assert_eq!(
        choices,
        vec![
            BindChoice { bind: "::".into(), iface: None },
            BindChoice { bind: "0.0.0.0".into(), iface: None },
            BindChoice { bind: "10.0.0.5".into(), iface: Some("eth0".into()) },
            BindChoice { bind: "fe80::1".into(), iface: Some("wlan0".into()) },
        ]
    );
}

#[test]
fn default_settings_listen_dual_stack_on_6399() {
    let s = ServerSettings::default();
    assert_eq!(s.bind, "::");
    assert_eq!(s.port, 6399);
}

#[test]
fn bind_hosts_are_classified() {
    assert_eq!(classify_bind("::"), BindTarget::DualStackAny);
    assert_eq!(classify_bind("  "), BindTarget::DualStackAny);
    assert_eq!(classify_bind(" 0.0.0.0 "), BindTarget::Ipv4Any);
    assert_eq!(classify_bind(" 127.0.0.1 "), BindTarget::Literal("127.0.0.1".into()));
}

#[test]
fn events_are_formatted_like_the_console_app() {
    let src = SourceName { name: "Cam1".into(), machine_name: "CTRLHOST".into(), port: 6411 };
    assert_eq!(format_instance_name(&src), "CTRLHOST (Cam1)");
    assert_eq!(format_source(&src), "CTRLHOST (Cam1):6411");
    let bare = SourceName { name: "Solo".into(), machine_name: String::new(), port: 7 };
    assert_eq!(format_source(&bare), "Solo:7");
    assert_eq!(
        format_event(&ServerEvent::Started { bind: "[::]:6399".into() }),
        "started on [::]:6399"
    );
    assert_eq!(
        format_event(&ServerEvent::ClientConnected { peer: "10.0.0.9:5000".into() }),
        "connected 10.0.0.9:5000"
    );
    assert_eq!(
        format_event(&ServerEvent::ClientDisconnected { peer: "10.0.0.9:5000".into() }),
        "disconnected 10.0.0.9:5000"
    );
    assert_eq!(
        format_event(&ServerEvent::SourceRegistered { source: src.clone(), peer: "p".into() }),
        "added CTRLHOST (Cam1):6411 from p"
    );
    assert_eq!(
        format_event(&ServerEvent::SourceRemoved { source: src, peer: "p".into() }),
        "removed CTRLHOST (Cam1):6411 from p"
    );
    assert_eq!(format_event(&ServerEvent::Error { message: "boom".into() }), "error boom");
    assert_eq!(format_event(&ServerEvent::Stopped), "stopped");
    assert_eq!(starting_line("127.0.0.1:0"), "starting on 127.0.0.1:0");
}

#[test]
fn event_log_keeps_the_newest_lines() {
    let mut log = EventLog::new();
    for i in 0..(MAX_EVENTS + 5) {
        log.push_event(format!("line {i}"));
    }
    assert_eq!(log.events().len(), MAX_EVENTS);
    assert_eq!(log.events()[0], "line 5");
    assert_eq!(log.events()[MAX_EVENTS - 1], format!("line {}", MAX_EVENTS + 4));
    log.push_events(vec![ServerEvent::Stopped]);
    assert_eq!(log.events().last().map(String::as_str), Some("stopped"));
    assert_eq!(log.events().len(), MAX_EVENTS);
    log.clear_events();
    assert!(log.events().is_empty());
}

#[test]
fn settings_change_only_while_stopped() {
    assert!(check_settings_change(false).is_ok());
    assert_eq!(
        check_settings_change(true).unwrap_err(),
        "stop the server before changing bind or port"
    );
}

#[test]
fn listen_port_is_trimmed_and_in_range() {
    assert_eq!(parse_listen_port(" 6400 "), Ok(6400));
    assert_eq!(parse_listen_port("0"), Err("port must be an integer from 1 to 65535".to_string()));
    assert_eq!(parse_listen_port("70000"), Err("port must be an integer from 1 to 65535".to_string()));
    assert_eq!(parse_listen_port("x"), Err("port must be an integer from 1 to 65535".to_string()));
}

#[test]
fn remembered_port_falls_back_to_default() {
    assert_eq!(remembered_port("6400"), 6400);
    assert_eq!(remembered_port("0"), 0);
    assert_eq!(remembered_port(" 6400"), DISCOVERY_SERVER_DEFAULT_PORT);
    assert_eq!(remembered_port("65536"), DISCOVERY_SERVER_DEFAULT_PORT);
    assert_eq!(remembered_port(""), 6399);
}

#[test]
fn window_shows_newest_events_first() {
    let events: Vec<String> = (0..100).map(|i| format!("e{i}")).collect();
    let shown = visible_events(&events);
    assert_eq!(shown.len(), 80);
    assert_eq!(shown[0], "e99");
    assert_eq!(shown[79], "e20");
    let few = vec!["a".to_string(), "b".to_string()];
    assert_eq!(visible_events(&few), vec!["b".to_string(), "a".to_string()]);
}

#[test]
fn bind_host_defaults_to_dual_stack_any() {
    assert_eq!(classify_bind("::"), BindTarget::DualStackAny);
    assert_eq!(classify_bind("127.0.0.1"), BindTarget::Literal("127.0.0.1".into()));
    assert_eq!(ServerSettings::default().port, 6399);
}
