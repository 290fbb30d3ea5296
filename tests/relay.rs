use wakatime_relay::json::encode_heartbeat;
use wakatime_relay::{
    ancestors, classify_status, get_language_name, get_project_name, heartbeat_for, marker_paths,
    plan_dispatch, project_name_given, step, DeliveryOutcome, Dispatch, DocumentInfo, Handler,
    Timestamp, WakaTimeCategory, WakaTimeConfig, WakaTimeEntityType, WakaTimeEvent, WorkerPhase,
    WorkerSignal,
};

fn config() -> WakaTimeConfig {
    WakaTimeConfig {
        enabled: true,
        api_key: Some("key123".to_string()),
        api_url: "https://api.example.com/heartbeats".to_string(),
        timeout: 7,
        project: None,
        hide_file_names: false,
        hide_project_names: false,
    }
}

fn doc() -> DocumentInfo {
    DocumentInfo {
        path: Some("/repo/src/pkg/file.rs".to_string()),
        language: Some("rust".to_string()),
        lines: 120,
        cursor: 345,
        cursor_line: 9,
    }
}

fn time() -> Timestamp {
    Timestamp { secs: 1700000000, nanos: 5_000_000 }
}

fn sample_event() -> WakaTimeEvent {
    WakaTimeEvent::Heartbeat {
        entity: "/a/b.rs".to_string(),
        type_: WakaTimeEntityType::File,
        category: WakaTimeCategory::Coding,
        time: time(),
        project: Some("p".to_string()),
        language: None,
        is_write: false,
        lines: Some(120),
        lineno: Some(10),
        cursorpos: Some(345),
    }
}

#[test]
fn entity_type_names() {
    assert_eq!(WakaTimeEntityType::File.name(), "file");
    assert_eq!(WakaTimeEntityType::Domain.name(), "domain");
    assert_eq!(WakaTimeEntityType::App.name(), "app");
}

#[test]
fn category_names() {
    assert_eq!(WakaTimeCategory::Coding.name(), "coding");
    assert_eq!(WakaTimeCategory::Building.name(), "building");
    assert_eq!(WakaTimeCategory::Indexing.name(), "indexing");
    assert_eq!(WakaTimeCategory::Debugging.name(), "debugging");
    assert_eq!(WakaTimeCategory::Running.name(), "running");
    assert_eq!(WakaTimeCategory::Testing.name(), "testing");
    assert_eq!(WakaTimeCategory::Manual.name(), "manual");
    assert_eq!(WakaTimeCategory::Writing.name(), "writing");
    assert_eq!(WakaTimeCategory::Designing.name(), "designing");
    assert_eq!(WakaTimeCategory::Researching.name(), "researching");
}

#[test]
fn encodes_every_field_with_nulls() {
    assert_eq!(
        encode_heartbeat(&sample_event()),
        "{\"entity\":\"/a/b.rs\",\"type\":\"file\",\"category\":\"coding\",\
         \"time\":1700000000.005000000,\"project\":\"p\",\"language\":null,\
         \"is_write\":false,\"lines\":120,\"lineno\":10,\"cursorpos\":345}"
    );
}

#[test]
fn encodes_absent_counts_and_escapes_text() {
    let ev = WakaTimeEvent::Heartbeat {
        entity: "a\"b\\c\n".to_string(),
        type_: WakaTimeEntityType::App,
        category: WakaTimeCategory::Testing,
        time: Timestamp { secs: 0, nanos: 999_999_999 },
        project: None,
        language: Some("rust".to_string()),
        is_write: true,
        lines: None,
        lineno: None,
        cursorpos: Some(0),
    };
    let body = encode_heartbeat(&ev);
    assert_eq!(
        body,
        "{\"entity\":\"a\\\"b\\\\c\\n\",\"type\":\"app\",\"category\":\"testing\",\
         \"time\":0.999999999,\"project\":null,\"language\":\"rust\",\
         \"is_write\":true,\"lines\":null,\"lineno\":null,\"cursorpos\":0}"
    );
    let parsed: serde_json::Value = serde_json::from_str(&body).unwrap();
    assert_eq!(parsed["entity"], "a\"b\\c\n");
    assert!(parsed["project"].is_null());
}

#[test]
fn encodes_largest_counts() {
    let ev = WakaTimeEvent::Heartbeat {
        entity: String::new(),
        type_: WakaTimeEntityType::Domain,
        category: WakaTimeCategory::Manual,
        time: Timestamp { secs: u64::MAX, nanos: 0 },
        project: None,
        language: None,
        is_write: false,
        lines: Some(u32::MAX),
        lineno: Some(1),
        cursorpos: Some(9),
    };
    let body = encode_heartbeat(&ev);
    assert!(body.contains("\"time\":18446744073709551615.000000000,"));
    assert!(body.contains("\"lines\":4294967295,"));
    assert!(body.contains("\"entity\":\"\","));
}

#[test]
fn no_config_drops() {
    assert!(matches!(plan_dispatch(&None, &sample_event()), Dispatch::NoConfig));
}

#[test]
fn disabled_config_never_sends() {
    let mut c = config();
    c.enabled = false;
    assert!(matches!(plan_dispatch(&Some(c), &sample_event()), Dispatch::Disabled));
}

#[test]
fn missing_api_key_drops() {
    let mut c = config();
    c.api_key = None;
    assert!(matches!(plan_dispatch(&Some(c), &sample_event()), Dispatch::MissingApiKey));
}

#[test]
fn delivery_request_shape() {
    match plan_dispatch(&Some(config()), &sample_event()) {
        Dispatch::Deliver(req) => {
            assert_eq!(req.url, "https://api.example.com/heartbeats");
            assert_eq!(req.authorization, "Bearer key123");
            assert_eq!(req.content_type, "application/json");
            assert_eq!(req.user_agent, "helix-editor");
            assert_eq!(req.timeout_secs, 7);
            assert_eq!(req.body, encode_heartbeat(&sample_event()));
        }
        other => panic!("expected a delivery, got {:?}", other),
    }
}

#[test]
fn status_classes() {
    assert_eq!(classify_status(200), DeliveryOutcome::Delivered);
    assert_eq!(classify_status(201), DeliveryOutcome::Delivered);
    assert_eq!(classify_status(299), DeliveryOutcome::Delivered);
    assert_eq!(classify_status(199), DeliveryOutcome::Rejected(199));
    assert_eq!(classify_status(300), DeliveryOutcome::Rejected(300));
    assert_eq!(classify_status(401), DeliveryOutcome::Rejected(401));
}

#[test]
fn heartbeat_positions() {
    let ev = heartbeat_for(&doc(), false, &config(), Some("repo".to_string()), time()).unwrap();
    let WakaTimeEvent::Heartbeat {
        entity,
        type_,
        category,
        time: t,
        project,
        language,
        is_write,
        lines,
        lineno,
        cursorpos,
    } = ev;
    assert_eq!(entity, "/repo/src/pkg/file.rs");
    assert_eq!(type_, WakaTimeEntityType::File);
    assert_eq!(category, WakaTimeCategory::Coding);
    assert_eq!(t, time());
    assert_eq!(project, Some("repo".to_string()));
    assert_eq!(language, Some("rust".to_string()));
    assert!(!is_write);
    assert_eq!(lines, Some(120));
    assert_eq!(lineno, Some(10));
    assert_eq!(cursorpos, Some(345));
}

#[test]
fn heartbeat_without_path_is_none() {
    let mut d = doc();
    d.path = None;
    assert!(heartbeat_for(&d, false, &config(), None, time()).is_none());
}

#[test]
fn heartbeat_when_disabled_is_none() {
    let mut c = config();
    c.enabled = false;
    assert!(heartbeat_for(&doc(), true, &c, None, time()).is_none());
}

#[test]
fn hidden_file_names_use_sentinel() {
    let mut c = config();
    c.hide_file_names = true;
    let WakaTimeEvent::Heartbeat { entity, .. } =
        heartbeat_for(&doc(), false, &c, None, time()).unwrap();
    assert_eq!(entity, "HIDDEN");
}

#[test]
fn hidden_project_names_drop_project() {
    let mut c = config();
    c.hide_project_names = true;
    c.project = Some("override".to_string());
    let WakaTimeEvent::Heartbeat { project, .. } =
        heartbeat_for(&doc(), false, &c, Some("repo".to_string()), time()).unwrap();
    assert_eq!(project, None);
}

#[test]
fn configured_project_wins_over_inferred() {
    let mut c = config();
    c.project = Some("override".to_string());
    let WakaTimeEvent::Heartbeat { project, is_write, .. } =
        heartbeat_for(&doc(), true, &c, Some("repo".to_string()), time()).unwrap();
    assert_eq!(project, Some("override".to_string()));
    assert!(is_write);
}

#[test]
fn ancestors_walk_to_root() {
    assert_eq!(
        ancestors("/repo/src/pkg/file.rs"),
        vec!["/repo/src/pkg", "/repo/src", "/repo", "/"]
    );
    assert_eq!(ancestors("/"), Vec::<String>::new());
}

#[test]
fn project_named_after_marked_directory() {
    let dirs = ancestors("/repo/src/pkg/file.rs");
    let marked = vec![false, false, true, false];
    assert_eq!(project_name_given(&dirs, &marked), Some("repo".to_string()));
}

#[test]
fn nearest_marked_directory_wins() {
    let dirs = ancestors("/repo/src/pkg/file.rs");
    assert_eq!(
        project_name_given(&dirs, &vec![false, true, true, false]),
        Some("src".to_string())
    );
}

#[test]
fn no_marker_no_project() {
    let dirs = ancestors("/repo/src/pkg/file.rs");
    assert_eq!(project_name_given(&dirs, &vec![false, false, false, false]), None);
    assert_eq!(project_name_given(&dirs, &vec![false, false, false, true]), None);
}

#[test]
fn project_of_unknown_tree_is_none() {
    assert_eq!(get_project_name("/no-such-root-dir-for-tests/deeper/file.rs"), None);
}

#[test]
fn worker_takes_one_at_a_time() {
    assert_eq!(step(WorkerPhase::Idle, WorkerSignal::Dequeued), Some(WorkerPhase::Dispatching));
    assert_eq!(step(WorkerPhase::Dispatching, WorkerSignal::Dequeued), None);
    assert_eq!(
        step(WorkerPhase::Idle, WorkerSignal::Completed(DeliveryOutcome::Delivered)),
        None
    );
}

#[test]
fn failed_attempt_frees_the_worker() {
    let after = step(WorkerPhase::Dispatching, WorkerSignal::Completed(DeliveryOutcome::Failed));
    assert_eq!(after, Some(WorkerPhase::Idle));
    assert_eq!(step(after.unwrap(), WorkerSignal::Dequeued), Some(WorkerPhase::Dispatching));
    let after = step(
        WorkerPhase::Dispatching,
        WorkerSignal::Completed(DeliveryOutcome::Rejected(500)),
    );
    assert_eq!(after, Some(WorkerPhase::Idle));
}

#[test]
fn worker_handed_out_once() {
    let mut h = Handler::new();
    assert!(h.take_worker().is_some());
    assert!(h.take_worker().is_none());
}

#[test]
fn queue_is_first_in_first_out() {
    let mut h = Handler::new();
    let mut w = h.take_worker().unwrap();
    let mut first = sample_event();
    if let WakaTimeEvent::Heartbeat { lineno, .. } = &mut first {
        *lineno = Some(1);
    }
    let mut second = sample_event();
    if let WakaTimeEvent::Heartbeat { lineno, .. } = &mut second {
        *lineno = Some(2);
    }
    assert!(h.send_heartbeat(first));
    assert!(h.send_heartbeat(second));
    let WakaTimeEvent::Heartbeat { lineno: a, .. } = w.receiver.try_recv().unwrap();
    let WakaTimeEvent::Heartbeat { lineno: b, .. } = w.receiver.try_recv().unwrap();
    assert_eq!((a, b), (Some(1), Some(2)));
}

#[test]
fn send_fails_once_worker_gone() {
    let mut h = Handler::new();
    drop(h.take_worker());
    assert!(!h.send_heartbeat(sample_event()));
}

#[test]
fn worker_without_config_drops() {
    let mut h = Handler::new();
    let w = h.take_worker().unwrap();
    assert!(matches!(w.process_event(&sample_event()), Dispatch::NoConfig));
}

#[test]
fn update_keeps_planned_request() {
    let mut h = Handler::new();
    let w = h.take_worker().unwrap();
    h.update_config(config());
    let planned = w.process_event(&sample_event());
    let mut next = config();
    next.api_url = "https://other.example.com".to_string();
    next.enabled = false;
    h.update_config(next);
    match planned {
        Dispatch::Deliver(req) => assert_eq!(req.url, "https://api.example.com/heartbeats"),
        other => panic!("expected a delivery, got {:?}", other),
    }
    assert!(matches!(w.process_event(&sample_event()), Dispatch::Disabled));
}

#[test]
fn untitled_document_queues_nothing() {
    let mut h = Handler::new();
    let mut w = h.take_worker().unwrap();
    let mut d = doc();
    d.path = None;
    assert!(!h.record_activity(&d, false, &config()));
    assert!(w.receiver.try_recv().is_err());
}

#[test]
fn disabled_tracking_queues_nothing() {
    let mut h = Handler::new();
    let mut w = h.take_worker().unwrap();
    let mut c = config();
    c.enabled = false;
    assert!(!h.record_activity(&doc(), false, &c));
    assert!(w.receiver.try_recv().is_err());
}

#[test]
fn tracked_document_is_queued() {
    let mut h = Handler::new();
    let mut w = h.take_worker().unwrap();
    let mut c = config();
    c.hide_file_names = true;
    c.hide_project_names = true;
    assert!(h.record_activity(&doc(), false, &c));
    let WakaTimeEvent::Heartbeat { entity, project, lines, lineno, cursorpos, time, .. } =
        w.receiver.try_recv().unwrap();
    assert_eq!(entity, "HIDDEN");
    assert_eq!(project, None);
    assert_eq!((lines, lineno, cursorpos), (Some(120), Some(10), Some(345)));
    assert!(time.secs > 0 && time.nanos < 1_000_000_000);
}

#[test]
fn language_name_from_document() {
    assert_eq!(get_language_name(&doc()), Some("rust".to_string()));
    let mut d = doc();
    d.language = None;
    assert_eq!(get_language_name(&d), None);
}

#[test]
fn marker_paths_in_probe_order() {
    assert_eq!(
        marker_paths("/repo"),
        vec![
            "/repo/.git",
            "/repo/.hg",
            "/repo/.svn",
            "/repo/Cargo.toml",
            "/repo/package.json",
            "/repo/pyproject.toml"
        ]
    );
    assert_eq!(marker_paths("/")[0], "/.git");
}
