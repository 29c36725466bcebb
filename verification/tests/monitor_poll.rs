use omt_tools::monitor_poll::{
    find_source, group_by_host, ingest_log_entries, should_auto_refresh, source_label,
    stall_label, usable_frame_len,
    DiscoveryOutcome,
    DiscoveryPoll, LogEntry, StallState,
};

#[test]
fn refresh_runs_one_pass_at_a_time() {
    let mut p = DiscoveryPoll::new();
    let mut status = String::from("idle");
    assert!(p.request_refresh(false, &mut status, "Refreshing…"));
    assert_eq!(status, "Refreshing…");
    assert!(!p.request_refresh(true, &mut status, "again"));
    assert_eq!(status, "Refreshing…");
    p.take_result(DiscoveryOutcome::Pending, &mut status, "No sources");
    assert!(p.discovering);
    p.take_result(DiscoveryOutcome::Found(3), &mut status, "No sources");
    assert!(!p.discovering);
    assert_eq!(status, "3 source(s)");
    assert!(p.request_refresh(false, &mut status, "Refreshing…"));
    p.take_result(DiscoveryOutcome::Found(0), &mut status, "No sources");
    assert_eq!(status, "No sources");
}

#[test]
fn silent_passes_keep_the_status() {
    let mut p = DiscoveryPoll::new();
    let mut status = String::from("3 source(s)");
    assert!(p.request_refresh(true, &mut status, "Refreshing…"));
    assert_eq!(status, "3 source(s)");
    p.take_result(DiscoveryOutcome::Failed("boom".into()), &mut status, "No sources");
    assert_eq!(status, "3 source(s)");
    assert!(!p.discovering);
    assert!(p.request_refresh(false, &mut status, "Refreshing…"));
    p.take_result(DiscoveryOutcome::Ended, &mut status, "No sources");
    assert_eq!(status, "discovery task ended");
    p.take_result(DiscoveryOutcome::Failed("late".into()), &mut status, "No sources");
    assert_eq!(status, "discovery task ended");
}

#[test]
fn background_refresh_every_three_seconds() {
    assert!(should_auto_refresh(false, 3001));
    assert!(!should_auto_refresh(false, 3000));
    assert!(!should_auto_refresh(true, 10_000));
}

#[test]
fn sources_are_found_by_url() {
    let urls = vec!["omt://a:1".to_string(), "omt://b:2".to_string(), "omt://b:2".to_string()];
    assert_eq!(find_source(&urls, "omt://b:2"), Some(1));
    assert_eq!(find_source(&urls, "omt://c:3"), None);
}

#[test]
fn log_keeps_the_newest_line() {
    let mut last = 5u64;
    let mut lines = vec!["old".to_string()];
    ingest_log_entries(&mut last, &mut lines, &Vec::new());
    assert_eq!((last, lines.clone()), (5, vec!["old".to_string()]));
    let entries = vec![
        LogEntry { unix_ms: 1_700_000_200_000, kind: "Tally".into(), text: "on".into() },
        LogEntry { unix_ms: 1_700_000_100_001, kind: "Caption".into(), text: "hi".into() },
    ];
    ingest_log_entries(&mut last, &mut lines, &entries);
    assert_eq!(last, 1_700_000_200_000);
    assert_eq!(lines, vec!["[1] Caption: hi".to_string()]);
}

#[test]
fn stall_labels() {
    assert_eq!(stall_label(StallState::Live, "Waiting", "Stalled"), "LIVE");
    assert_eq!(stall_label(StallState::Waiting, "Waiting", "Stalled"), "Waiting");
    assert_eq!(stall_label(StallState::Stalled, "Waiting", "Stalled"), "Stalled");
}

#[test]
fn frames_need_their_full_picture() {
    assert_eq!(usable_frame_len(2, 2, 16), Some(16));
    assert_eq!(usable_frame_len(2, 2, 20), Some(16));
    assert_eq!(usable_frame_len(2, 2, 15), None);
    assert_eq!(usable_frame_len(0, 2, 100), None);
    assert_eq!(usable_frame_len(1920, 1080, 1920 * 1080 * 4), Some(8_294_400));
}

#[test]
fn sources_are_grouped_by_host_in_first_seen_order() {
    let hosts: Vec<String> = ["b", "a", "b", "c", "a"].iter().map(|s| s.to_string()).collect();
    assert_eq!(
        group_by_host(&hosts),
        vec![
            ("b".to_string(), vec![0, 2]),
            ("a".to_string(), vec![1, 4]),
            ("c".to_string(), vec![3]),
        ]
    );
    assert!(group_by_host(&Vec::new()).is_empty());
    assert_eq!(source_label("", "HOST (Cam)"), "HOST (Cam)");
    assert_eq!(source_label("Cam", "HOST (Cam)"), "Cam");
}
