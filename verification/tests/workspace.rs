use std::sync::Arc;

use clawhip::codec::parse_json;
use clawhip::components::{are_same_path, comes_first, components_of, strip_dir};
use clawhip::config::{AppConfig, WorkspaceMonitor};
use clawhip::events::MessageFormat;
use clawhip::json::Json;
use clawhip::workspace::default_workspace_watch_dirs;
use clawhip::workspace_diff::{
    diff_hud_state, diff_session, diff_skill_state, diff_workspace_state, monitor_allows_event,
};
use clawhip::workspace_watch::{
    build_topology, classify_path, debounce_for_path, discover_workspace_roots,
    global_poll_interval, infer_state_family, inotify_roots, workspace_name, FileSignature,
    FoundWorkspace, MonitorTopology, WatchDir, WorkspaceSource, WorkspaceState,
};

fn json(text: &str) -> Json {
    parse_json(text).unwrap()
}

fn workspace_monitor(root: &str) -> WorkspaceMonitor {
    WorkspaceMonitor {
        path: root.into(),
        watch_dirs: default_workspace_watch_dirs(),
        discover_worktrees: true,
        channel: Some("alerts".into()),
        mention: Some("<@1>".into()),
        format: Some(MessageFormat::Compact),
        events: Vec::new(),
        poll_interval_secs: Some(3),
        debounce_ms: 2_000,
    }
}

fn topology(monitor: &WorkspaceMonitor) -> Vec<MonitorTopology<'_>> {
    vec![MonitorTopology {
        workspace_root: "/tmp/repo".into(),
        workspace_name: "repo".into(),
        watch_dirs: vec![WatchDir {
            path: "/tmp/repo/.omx/state".into(),
            state_family: "omx".into(),
        }],
        monitor,
    }]
}

#[test]
fn discovery_finds_configured_roots_and_worktrees() {
    let worktrees = vec!["/tmp/repo/.worktrees/feat-84".to_string()];
    let roots = discover_workspace_roots(&workspace_monitor("/tmp/repo"), &worktrees);
    assert!(roots.contains(&"/tmp/repo".to_string()));
    assert!(roots.contains(&"/tmp/repo/.worktrees/feat-84".to_string()));
    let mut monitor = workspace_monitor("/tmp/repo");
    monitor.discover_worktrees = false;
    assert_eq!(discover_workspace_roots(&monitor, &worktrees), vec!["/tmp/repo"]);
}

#[test]
fn session_diff_emits_started_and_ended() {
    let monitor = workspace_monitor("/tmp/repo");
    let binding = topology(&monitor);
    let matched = classify_path(&binding, "/tmp/repo/.omx/state/session.json").unwrap();

    let started = diff_session(
        &matched,
        None,
        Some(&json(r#"{"session_id":"abc","pid":1,"cwd":"/tmp"}"#)),
    )
    .unwrap();
    assert_eq!(started[0].canonical_kind(), "workspace.session.started");
    let ended =
        diff_session(&matched, Some(&json(r#"{"session_id":"abc","pid":1}"#)), None).unwrap();
    assert_eq!(ended[0].canonical_kind(), "workspace.session.ended");
}

#[test]
fn hud_diff_emits_turn_completion() {
    let monitor = workspace_monitor("/tmp/repo");
    let binding = topology(&monitor);
    let matched = classify_path(&binding, "/tmp/repo/.omx/state/hud-state.json").unwrap();

    let events = diff_hud_state(
        &matched,
        Some(&json(r#"{"turn_count":1,"last_turn_at":"t1"}"#)),
        Some(&json(r#"{"turn_count":2,"last_turn_at":"t2","last_agent_output":"done"}"#)),
    )
    .unwrap();
    assert_eq!(events[0].canonical_kind(), "workspace.turn.complete");
    assert_eq!(events[0].payload.count("turn_delta"), Some(1));
}

#[test]
fn skill_diff_emits_activation() {
    let monitor = workspace_monitor("/tmp/repo");
    let binding = topology(&monitor);
    let matched = classify_path(&binding, "/tmp/repo/.omx/state/skill-active-state.json").unwrap();

    let events = diff_skill_state(
        &matched,
        Some(&json(r#"{"active":false}"#)),
        Some(&json(r#"{"active":true,"skill":"ralph","phase":"exec"}"#)),
    )
    .unwrap();
    assert_eq!(events[0].canonical_kind(), "workspace.skill.activated");
    assert_eq!(events[0].payload.raw_field("skill"), Some("ralph"));
}

#[test]
fn debounce_replaces_pending_deadline_for_same_file() {
    let mut state = WorkspaceState::new();
    let path = "/tmp/state.json";
    let now = 10_000;
    state.note_change(path, 2_000, now);
    let first_due = state.pending[0].1;
    state.note_change(path, 2_000, now + 1_000);
    assert_eq!(state.pending.len(), 1);
    assert!(state.pending[0].1 > first_due);
    assert!(state.take_due(now + 2_000).is_empty());
    assert_eq!(state.take_due(now + 3_000), vec![path.to_string()]);
    assert!(state.pending.is_empty());
}

#[test]
fn event_filter_honors_globs() {
    let mut monitor = workspace_monitor("/tmp/repo");
    monitor.events = vec!["workspace.skill.*".into()];
    assert!(monitor_allows_event(&monitor, "workspace.skill.activated"));
    assert!(!monitor_allows_event(&monitor, "workspace.turn.complete"));
}

#[test]
fn each_state_file_has_its_own_event() {
    let monitor = workspace_monitor("/tmp/repo");
    let binding = topology(&monitor);
    let kind_of = |file: &str| {
        let path = format!("/tmp/repo/.omx/state/{file}");
        let matched = classify_path(&binding, &path).unwrap();
        diff_workspace_state(&matched, None, Some(&json(r#"{"a":1}"#)))
            .map(|events| events[0].kind.clone())
    };
    assert_eq!(kind_of("team-state.json").as_deref(), Some("workspace.team.updated"));
    assert_eq!(kind_of("subagent-tracking.json").as_deref(), Some("workspace.team.updated"));
    assert_eq!(
        kind_of("x-idle-notif-cooldown.json").as_deref(),
        Some("workspace.session.blocked")
    );
    assert!(classify_path(&binding, "/elsewhere/session.json").is_none());
}

#[test]
fn changed_files_are_processed_once() {
    let mut config = AppConfig::default();
    config.monitors.workspace.push(workspace_monitor("/tmp/repo"));
    let found = vec![FoundWorkspace { worktrees: Vec::new(), exists: true }];
    let topology = build_topology(&config, &found);
    assert_eq!(inotify_roots(&topology), vec!["/tmp/repo".to_string()]);
    let path = "/tmp/repo/.omx/state/session.json";
    assert_eq!(debounce_for_path(&topology, path), 2_000);
    let mut state = WorkspaceState::new();
    state.prime(Vec::new(), &Vec::new());
    let signature = FileSignature { modified_ms: 1, len: 2 };
    state.reconcile(&topology, vec![(path.to_string(), signature)], 0);
    assert_eq!(state.take_due(2_000), vec![path.to_string()]);
    let events = state.process_path(&topology, path, Some(json(r#"{"session_id":"abc"}"#)));
    assert_eq!(events.len(), 1);
    assert_eq!(events[0].mention.as_deref(), Some("<@1>"));
    assert!(state
        .process_path(&topology, path, Some(json(r#"{"session_id":"abc"}"#)))
        .is_empty());
    assert_eq!(state.process_path(&topology, path, None)[0].kind, "workspace.session.ended");
}

#[test]
fn names_of_workspaces_and_families() {
    assert_eq!(workspace_name("/tmp/repo"), "repo");
    assert_eq!(infer_state_family(".omx/state"), "omx");
    assert_eq!(infer_state_family(".omc/state"), "omc");
    let mut config = AppConfig::default();
    config.monitors.workspace.push(workspace_monitor("/tmp/repo"));
    assert_eq!(global_poll_interval(&config), 3);
    assert_eq!(WorkspaceSource::new(Arc::new(config)).config.monitors.workspace.len(), 1);
}

#[test]
fn paths_are_compared_by_their_components() {
    assert!(are_same_path("/a//b/", "/a/b"));
    assert!(!are_same_path("a/b", "/a/b"));
    assert_eq!(strip_dir("/a/b/c", "/a").as_deref(), Some("b/c"));
    assert_eq!(strip_dir("/ab/c", "/a"), None);
    assert_eq!(components_of("/a/./b"), vec!["/", "a", "b"]);
    assert!(comes_first("/a/b", "/a/c"));
    assert!(!comes_first("/a/b", "/a/b"));
}
