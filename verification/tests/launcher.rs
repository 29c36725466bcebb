use omt_tools::launcher::{
    appimage_exec, check_launchable, desktop_file_name, is_cmd_exe_clone, is_usable_tool_binary,
    linux_applications_dir, linux_desktop_entry, listing_mentions, macos_info_plist,
    macos_wrapped_executable, parse_launch_tool_id, parse_tool_id, quote_desktop_path,
    should_register, tool_binary_candidates, tool_id_text, user_applications_dir, ToolId,
    MIN_TOOL_BYTES, join_path_styled, launch_args, pick_tool_binary, tool_search_paths, PathStyle,
};

#[test]
fn plist_contains_bundle_id_and_executable() {
    let plist = macos_info_plist(
        "Studio Monitor",
        "OMT Studio Monitor",
        "omt-studio-monitor",
        "studio-monitor",
        "0.1.0",
    );
    assert!(plist.contains("lab.mikansei.omt-tools.studio-monitor"));
    assert!(plist.contains("<key>CFBundleExecutable</key>\n    <string>omt-studio-monitor</string>"));
    assert!(plist.contains("<key>CFBundleDisplayName</key>\n    <string>OMT Studio Monitor</string>"));
    assert!(plist.contains("<key>CFBundleName</key>\n    <string>Studio Monitor</string>"));
    assert!(!plist.contains("<string>launch</string>"));
    assert!(plist.contains("<key>CFBundleShortVersionString</key>\n    <string>0.1.0</string>"));
    assert!(plist.starts_with("<?xml version=\"1.0\" encoding=\"UTF-8\"?>\n"));
    assert!(plist.ends_with("</dict>\n</plist>\n"));
}

#[test]
fn desktop_entry_uses_qualified_name() {
    let entry = linux_desktop_entry(
        ToolId::TestPatterns,
        "OMT Test Patterns",
        "\"/opt/omt-test-patterns\"",
        "omt-test-patterns",
    );
    assert!(entry.contains("Name=OMT Test Patterns"));
    assert!(!entry.contains("Name=\n"));
    assert!(entry.contains("Exec=\"/opt/omt-test-patterns\""));
    assert!(entry.contains("StartupWMClass=omt-test-patterns"));
    assert!(entry.contains("Comment=Pick a pattern and send video + tone over OMT\n"));
    assert!(entry.starts_with("[Desktop Entry]\nType=Application\n"));
}

#[test]
fn desktop_path_is_quoted() {
    let quoted = quote_desktop_path("/opt/OMT Tools.AppImage");
    assert_eq!(quoted, "\"/opt/OMT Tools.AppImage\"");
    assert_eq!(quote_desktop_path("/a\"b"), "\"/a\\\"b\"");
}

#[test]
fn tool_ids_parse() {
    assert_eq!(parse_tool_id("studio-monitor"), Ok(ToolId::StudioMonitor));
    assert_eq!(parse_tool_id("test-patterns"), Ok(ToolId::TestPatterns));
    assert_eq!(parse_tool_id("config-manager"), Ok(ToolId::ConfigManager));
    assert_eq!(parse_tool_id("discovery-server"), Ok(ToolId::DiscoveryServer));
    assert_eq!(parse_tool_id("screen-capture"), Ok(ToolId::ScreenCapture));
    assert_eq!(parse_tool_id("paint"), Err("unknown tool: paint".to_string()));
    assert!(check_launchable(ToolId::StudioMonitor).is_ok());
    assert_eq!(
        check_launchable(ToolId::ScreenCapture).unwrap_err(),
        "Screen Capture is not enabled in this suite build"
    );
}

fn args(list: &[&str]) -> Vec<String> {
    list.iter().map(|s| s.to_string()).collect()
}

#[test]
fn launch_argument_forms() {
    assert_eq!(
        parse_launch_tool_id(&args(&["--launch", "studio-monitor"])),
        Some("studio-monitor".to_string())
    );
    assert_eq!(
        parse_launch_tool_id(&args(&["-v", "--launch=test-patterns", "--launch", "x"])),
        Some("test-patterns".to_string())
    );
    assert_eq!(parse_launch_tool_id(&args(&["--launch"])), None);
    assert_eq!(parse_launch_tool_id(&args(&["--other"])), None);
    assert_eq!(parse_launch_tool_id(&args(&["--launch="])), Some(String::new()));
}

#[test]
fn registration_skips_debug_and_target_builds() {
    assert!(should_register(false, Some("/Applications/OMT Tools.app/Contents/MacOS/omt")));
    assert!(!should_register(true, Some("/usr/bin/omt")));
    assert!(!should_register(false, None));
    assert!(!should_register(false, Some("/home/u/omt/target/release/omt")));
    assert!(!should_register(false, Some("C:\\src\\omt\\target\\release\\omt.exe")));
}

#[test]
fn rejects_tiny_stub_and_missing_path() {
    assert!(!is_usable_tool_binary(None, None));
    assert!(!is_usable_tool_binary(Some((true, 2)), None));
    assert!(!is_usable_tool_binary(Some((false, MIN_TOOL_BYTES)), None));
    assert!(is_usable_tool_binary(Some((true, MIN_TOOL_BYTES)), None));
    assert!(!is_usable_tool_binary(Some((true, 300_000)), Some(300_000)));
    assert!(is_usable_tool_binary(Some((true, 300_000)), Some(289_792)));
    assert!(is_cmd_exe_clone(5, Some(5)));
    assert!(!is_cmd_exe_clone(5, None));
}

#[test]
fn applications_dir_under_home() {
    assert_eq!(user_applications_dir(Some("/Users/me")), Ok("/Users/me/Applications".to_string()));
    assert_eq!(user_applications_dir(Some("/Users/me/")), Ok("/Users/me/Applications".to_string()));
    assert_eq!(user_applications_dir(None), Err("HOME is not set".to_string()));
}

#[test]
fn linux_entry_locations() {
    assert_eq!(
        linux_applications_dir(Some("/data"), Some("/home/u")),
        Ok("/data/applications".to_string())
    );
    assert_eq!(
        linux_applications_dir(None, Some("/home/u/")),
        Ok("/home/u/.local/share/applications".to_string())
    );
    assert_eq!(linux_applications_dir(None, None), Err("HOME is not set".to_string()));
    assert_eq!(desktop_file_name("studio-monitor"), "lab.mikansei.omt-studio-monitor.desktop");
    assert_eq!(
        appimage_exec("/opt/My \"Tools\".AppImage", "test-patterns"),
        "\"/opt/My \\\"Tools\\\".AppImage\" --launch test-patterns"
    );
}

#[test]
fn wrapped_executable_path() {
    assert_eq!(
        macos_wrapped_executable(Some("/Users/u"), "OMT Studio Monitor", "omt-studio-monitor"),
        Some(
            "/Users/u/Applications/OMT Studio Monitor.app/Contents/MacOS/omt-studio-monitor"
                .to_string()
        )
    );
    assert_eq!(macos_wrapped_executable(None, "OMT", "omt"), None);
}

#[test]
fn binary_candidates_in_order() {
    assert_eq!(
        tool_binary_candidates("/app", "omt-test-patterns", PathStyle::Unix),
        vec![
            "/app/omt-test-patterns".to_string(),
            "/app/omt-test-patterns.exe".to_string(),
            "/app/binaries/omt-test-patterns".to_string(),
            "/app/binaries/omt-test-patterns.exe".to_string(),
        ]
    );
}

#[test]
fn process_listing_ignores_case() {
    assert!(listing_mentions("Image Name\nOMT-STUDIO-MONITOR.EXE  1234", "omt-studio-monitor.exe"));
    assert!(!listing_mentions("INFO: No tasks are running", "omt-studio-monitor.exe"));
    assert!(listing_mentions("abc", ""));
}

#[test]
fn tool_ids_round_trip() {
    for t in [
        ToolId::StudioMonitor,
        ToolId::TestPatterns,
        ToolId::ConfigManager,
        ToolId::DiscoveryServer,
        ToolId::ScreenCapture,
    ] {
        assert_eq!(parse_tool_id(tool_id_text(t)), Ok(t));
    }
}

#[test]
fn windows_candidates_use_backslashes() {
    assert_eq!(
        tool_binary_candidates(r"C:\OMT", "omt-x", PathStyle::Windows),
        vec![
            r"C:\OMT\omt-x".to_string(),
            r"C:\OMT\omt-x.exe".to_string(),
            r"C:\OMT\binaries\omt-x".to_string(),
            r"C:\OMT\binaries\omt-x.exe".to_string(),
        ]
    );
}

#[test]
fn joins_follow_the_platform() {
    assert_eq!(join_path_styled(PathStyle::Windows, "C:", "x"), "C:x");
    assert_eq!(join_path_styled(PathStyle::Windows, r"C:\a\", "x"), r"C:\a\x");
    assert_eq!(join_path_styled(PathStyle::Windows, "C:/a", "x"), r"C:/a\x");
    assert_eq!(join_path_styled(PathStyle::Windows, r"C:\a", r"\x"), r"C:\x");
    assert_eq!(join_path_styled(PathStyle::Windows, r"C:\a", r"D:\y"), r"D:\y");
    assert_eq!(join_path_styled(PathStyle::Windows, "", "x"), "x");
    assert_eq!(join_path_styled(PathStyle::Windows, r"\\srv\share\a", r"\x"), r"\\srv\share\x");
    assert_eq!(join_path_styled(PathStyle::Windows, r"//srv/share/a", r"\x"), r"//srv/share\x");
    assert_eq!(join_path_styled(PathStyle::Windows, r"\\.\COM1\a", r"\x"), r"\\.\COM1\x");
    assert_eq!(join_path_styled(PathStyle::Windows, r"\\srv", r"\x"), r"\x");
    assert_eq!(join_path_styled(PathStyle::Windows, r"C:\a", r"\\x"), r"C:\\x");
    assert_eq!(join_path_styled(PathStyle::Windows, r"C:\a", r"\\srv\sh"), r"\\srv\sh");
    assert_eq!(join_path_styled(PathStyle::Windows, r"\\?\C:\a", r"D:\y"), r"D:\y");
    assert_eq!(join_path_styled(PathStyle::Windows, r"\\srv\share", "x"), r"\\srv\share\x");
    assert_eq!(join_path_styled(PathStyle::Unix, "/a", "/b"), "/b");
    assert_eq!(join_path_styled(PathStyle::Unix, "/a/", "b"), "/a/b");
    assert_eq!(join_path_styled(PathStyle::Unix, "a", ""), "a/");
    // These tests run on Unix hosts, where `Path::join` follows the Unix rules.
    for (base, rel) in [("/opt/omt", "bin"), ("dir", "x.exe"), ("", "y"), ("/a/", "b"), ("/a", "/b")] {
        let expected = std::path::Path::new(base).join(rel);
        assert_eq!(join_path_styled(PathStyle::Unix, base, rel), expected.to_string_lossy());
    }
}

#[test]
fn search_order_and_pick() {
    let paths = tool_search_paths(PathStyle::Unix, None, Some("/exe"), "/ws", "omt-x");
    assert_eq!(
        paths,
        vec![
            "/exe/omt-x".to_string(),
            "/exe/omt-x.exe".to_string(),
            "/exe/binaries/omt-x".to_string(),
            "/exe/binaries/omt-x.exe".to_string(),
            "/ws/target/debug/omt-x.exe".to_string(),
            "/ws/target/debug/omt-x".to_string(),
            "/ws/target/release/omt-x.exe".to_string(),
            "/ws/target/release/omt-x".to_string(),
        ]
    );
    let with_resource = tool_search_paths(PathStyle::Unix, Some("/res"), None, "/ws", "omt-x");
    assert_eq!(with_resource.len(), 8);
    assert_eq!(with_resource[0], "/res/omt-x");
    let big = MIN_TOOL_BYTES;
    let probes = vec![None, Some((false, big)), Some((true, 10)), Some((true, big)), Some((true, big))];
    assert_eq!(pick_tool_binary(&probes, None, "omt-x"), Ok(3));
    assert_eq!(pick_tool_binary(&probes, Some(big), "omt-x"), Err("tool binary not found: omt-x".to_string()));
}

#[test]
fn launch_arguments() {
    assert_eq!(launch_args("ja", "dark"), vec!["--language", "ja", "--theme", "dark"]);
}
