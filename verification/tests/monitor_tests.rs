use dots_family::activity::{ActivityType, NIL_ID};
use dots_family::monitor::{
    active_profile_id, attach_profile, ProfileIdError, ProfileReply, default_idle_threshold, default_polling_interval, detect_compositor,
    duration_seconds_of, find_focused_node, sway_window_info, ActivityTracker, CompositorType,
    HeartbeatCounter, MonitorConfig, WaylandMonitor, WindowInfo, WindowTreeNode,
    HEARTBEAT_INTERVAL,
};
use std::time::{Duration, Instant};

fn wait_millis(ms: u64) {
    let start = Instant::now();
    while start.elapsed() < Duration::from_millis(ms) {}
}

#[test]
fn test_bdd_given_new_tracker_when_window_focused_then_no_activity_reported() {
    let mut tracker = ActivityTracker::new();

    let window = WindowInfo {
        app_id: Some("firefox".to_string()),
        title: Some("GitHub".to_string()),
        _pid: None,
    };

    let activity = tracker.update_focus(Some(window));

    assert!(activity.is_none());
}

#[test]
fn test_bdd_given_focused_window_when_window_changes_then_activity_reported() {
    let mut tracker = ActivityTracker::new();

    let window1 = WindowInfo {
        app_id: Some("firefox".to_string()),
        title: Some("GitHub".to_string()),
        _pid: None,
    };
    tracker.update_focus(Some(window1));

    wait_millis(100);

    let window2 = WindowInfo {
        app_id: Some("code".to_string()),
        title: Some("main.rs".to_string()),
        _pid: None,
    };

    let activity = tracker.update_focus(Some(window2));

    assert!(activity.is_some());
    let report = activity.unwrap();
    assert_eq!(report.application, Some("firefox".to_string()));
    assert_eq!(report.window_title, Some("GitHub".to_string()));
    assert!(report.duration_seconds > 0);
}

#[test]
fn test_bdd_given_focused_window_when_same_window_then_no_activity_reported() {
    let mut tracker = ActivityTracker::new();

    let window1 = WindowInfo {
        app_id: Some("firefox".to_string()),
        title: Some("GitHub".to_string()),
        _pid: None,
    };
    tracker.update_focus(Some(window1.clone()));

    let window2 = WindowInfo {
        app_id: Some("firefox".to_string()),
        title: Some("GitHub".to_string()),
        _pid: None,
    };

    let activity = tracker.update_focus(Some(window2));

    assert!(activity.is_none());
}

#[test]
fn test_bdd_given_focused_window_when_loses_focus_then_activity_reported() {
    let mut tracker = ActivityTracker::new();

    let window = WindowInfo {
        app_id: Some("firefox".to_string()),
        title: Some("GitHub".to_string()),
        _pid: None,
    };
    tracker.update_focus(Some(window));

    wait_millis(100);

    let activity = tracker.update_focus(None);

    assert!(activity.is_some());
    let report = activity.unwrap();
    assert_eq!(report.application, Some("firefox".to_string()));
    assert!(report.duration_seconds > 0);
}

fn window(app: &str, title: &str) -> WindowInfo {
    WindowInfo { app_id: Some(app.to_string()), title: Some(title.to_string()), _pid: None }
}

#[test]
fn apply_focus_change_reports_given_values() {
    let mut tracker = ActivityTracker::new();
    assert!(tracker.apply_focus_change(Some(window("firefox", "GitHub")), 500, 1, 10).is_none());
    let report = tracker.apply_focus_change(Some(window("code", "main.rs")), 3000, 7, 1234).unwrap();
    assert_eq!(report.id, 7);
    assert_eq!(report.profile_id, NIL_ID);
    assert_eq!(report.timestamp_ms, 1234);
    assert!(matches!(report.activity_type, ActivityType::ApplicationUsage));
    assert_eq!(report.application, Some("firefox".to_string()));
    assert_eq!(report.window_title, Some("GitHub".to_string()));
    assert_eq!(report.duration_seconds, 3);
    let report = tracker.apply_focus_change(None, 4000, 8, 0).unwrap();
    assert_eq!(report.application, Some("code".to_string()));
    assert_eq!(report.duration_seconds, 1);
    assert!(tracker.apply_focus_change(None, 5000, 9, 0).is_none());
    // A clock reading earlier than the focus start counts as no time.
    tracker.apply_focus_change(Some(window("a", "b")), 9000, 10, 0);
    let report = tracker.apply_focus_change(None, 8000, 11, 0).unwrap();
    assert_eq!(report.duration_seconds, 0);
}

#[test]
fn same_app_other_title_is_another_window() {
    let mut tracker = ActivityTracker::new();
    tracker.apply_focus_change(Some(window("firefox", "GitHub")), 0, 1, 0);
    let r = tracker.apply_focus_change(Some(window("firefox", "Docs")), 0, 2, 0);
    assert!(r.is_some());
}

#[test]
fn durations_round_up_to_whole_seconds() {
    assert_eq!(duration_seconds_of(0), 0);
    assert_eq!(duration_seconds_of(1), 1);
    assert_eq!(duration_seconds_of(999), 1);
    assert_eq!(duration_seconds_of(1000), 1);
    assert_eq!(duration_seconds_of(1001), 2);
    assert_eq!(duration_seconds_of(60_000), 60);
}

#[test]
fn monitor_defaults() {
    assert_eq!(default_polling_interval(), 1000);
    assert_eq!(default_idle_threshold(), 60);
    let c = MonitorConfig::load().unwrap();
    assert_eq!(c.polling_interval_ms, 1000);
    assert_eq!(c.report_idle_threshold_seconds, 60);
    let d = MonitorConfig::default();
    assert_eq!(d.polling_interval_ms, 1000);
}

#[test]
fn compositor_detection_order() {
    assert_eq!(detect_compositor(true, true, true), CompositorType::Niri);
    assert_eq!(detect_compositor(false, true, true), CompositorType::Sway);
    assert_eq!(detect_compositor(false, false, true), CompositorType::Hyprland);
    assert_eq!(detect_compositor(false, false, false), CompositorType::Unknown);
    let m = WaylandMonitor::new(false, true, false).unwrap();
    assert_eq!(m.compositor(), CompositorType::Sway);
}

fn leaf(focused: bool, app: &str) -> WindowTreeNode {
    WindowTreeNode {
        focused,
        app_id: Some(app.to_string()),
        name: Some(format!("{} window", app)),
        pid: Some(0x1_0000_0005),
        nodes: Vec::new(),
        floating_nodes: Vec::new(),
    }
}

#[test]
fn focused_node_is_found_in_tree() {
    let root = WindowTreeNode {
        focused: false,
        app_id: None,
        name: Some("root".to_string()),
        pid: None,
        nodes: vec![leaf(false, "a"), leaf(false, "b")],
        floating_nodes: vec![leaf(true, "c")],
    };
    let found = find_focused_node(&root).unwrap();
    assert_eq!(found.app_id, Some("c".to_string()));
    let info = sway_window_info(found);
    assert_eq!(info.title, Some("c window".to_string()));
    assert_eq!(info._pid, Some(5));

    let tiled_first = WindowTreeNode {
        focused: false,
        app_id: None,
        name: None,
        pid: None,
        nodes: vec![leaf(false, "a"), leaf(true, "b")],
        floating_nodes: vec![leaf(true, "c")],
    };
    assert_eq!(find_focused_node(&tiled_first).unwrap().app_id, Some("b".to_string()));

    let none = WindowTreeNode {
        focused: false,
        app_id: None,
        name: None,
        pid: None,
        nodes: vec![leaf(false, "a")],
        floating_nodes: Vec::new(),
    };
    assert!(find_focused_node(&none).is_none());
}

#[test]
fn heartbeat_every_hundred_polls() {
    let mut c = HeartbeatCounter::new();
    let mut beats = 0;
    for i in 1..=250u32 {
        if c.poll_done() {
            beats += 1;
            assert_eq!(i % HEARTBEAT_INTERVAL, 0);
        }
    }
    assert_eq!(beats, 2);
    assert_eq!(c.polls_since_heartbeat(), 50);
}

#[test]
fn profile_is_attached_or_nil() {
    let mut tracker = ActivityTracker::new();
    tracker.apply_focus_change(Some(window("firefox", "GitHub")), 0, 1, 0);
    let mut a = tracker.apply_focus_change(None, 5000, 2, 0).unwrap();
    let before = a.clone();
    attach_profile(&mut a, Some(42));
    assert_eq!(a.profile_id, 42);
    assert_eq!(a.duration_seconds, 5);
    assert_eq!(a.id, before.id);
    assert!(matches!(a.activity_type, ActivityType::ApplicationUsage));
    assert_eq!(a.application, before.application);
    attach_profile(&mut a, None);
    assert_eq!(a.profile_id, NIL_ID);
}

#[test]
fn active_profile_id_from_reply() {
    let ok = ProfileReply { error: None, id: Some("67e55044-10b1-426f-9247-bb680e5fe0c8".to_string()) };
    assert_eq!(active_profile_id(&ok).unwrap(), 0x67e55044_10b1_426f_9247_bb680e5fe0c8);
    let err = ProfileReply { error: Some("\"no active profile\"".to_string()), id: Some("x".to_string()) };
    assert!(matches!(active_profile_id(&err), Err(ProfileIdError::Daemon(e)) if e == "\"no active profile\""));
    let missing = ProfileReply { error: None, id: None };
    assert!(matches!(active_profile_id(&missing), Err(ProfileIdError::MissingId)));
    let bad = ProfileReply { error: None, id: Some("not-a-uuid".to_string()) };
    assert!(matches!(active_profile_id(&bad), Err(ProfileIdError::InvalidId(t)) if t == "not-a-uuid"));
}
