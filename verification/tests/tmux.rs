use clawhip::compat::{from_incoming_event, EventBody};
use clawhip::config::{AppConfig, TmuxSessionMonitor};
use clawhip::events::{MessageFormat, RoutingMetadata};
use clawhip::json::Json;
use clawhip::keywords::{
    collect_gained_hits, count_new_lines, last_nonempty_line, KeywordHit, PendingKeywordHits,
};
use clawhip::registry::{
    merge_active_config_registrations, resolve_monitored_sessions, sorted_registry_snapshot,
    sync_active_config_registrations, MonitorSpecificity, ParentProcessInfo,
    RegisteredTmuxSession, RegistrationSource,
};
use clawhip::tmux::{
    flush_pending_keyword_hits, parse_pane_line, parse_session_names, poll_tmux,
    push_pending_keyword_hits, sessions_to_poll, should_emit_stale, should_summarize_now,
    tmux_keyword_event, tmux_stale_event, SessionProbe, SessionWatch, TmuxAction,
    TmuxMonitorState, TmuxPaneSnapshot, TmuxPaneState,
};

fn registration(keywords: Vec<&str>) -> RegisteredTmuxSession {
    RegisteredTmuxSession {
        session: "issue-24".into(),
        channel: Some("alerts".into()),
        mention: Some("<@123>".into()),
        routing: RoutingMetadata::default(),
        keywords: keywords.into_iter().map(str::to_string).collect(),
        keyword_window_secs: 30,
        stale_minutes: 15,
        format: Some(MessageFormat::Compact),
        registered_at: "2026-04-02T00:00:00Z".into(),
        registration_source: RegistrationSource::ConfigMonitor,
        parent_process: None,
        active_wrapper_monitor: false,
        ..Default::default()
    }
}

fn hit(keyword: &str, line: &str) -> KeywordHit {
    KeywordHit { keyword: keyword.into(), line: line.into() }
}

fn text_at<'a>(payload: &'a Json, key: &str) -> Option<&'a str> {
    payload.get(key).and_then(Json::as_str)
}

fn has(table: &[(String, RegisteredTmuxSession)], key: &str) -> bool {
    table.iter().any(|(name, _)| name == key)
}

fn entry<'a>(table: &'a [(String, RegisteredTmuxSession)], key: &str) -> &'a RegisteredTmuxSession {
    &table.iter().find(|(name, _)| name == key).unwrap().1
}

#[test]
fn tmux_keyword_hits_only_emit_for_new_lines() {
    let hits = collect_gained_hits(
        "done
all good",
        "done
all good
error: failed
PR created #7",
        &vec!["error".to_string(), "PR created".to_string()],
    );
    assert_eq!(hits.len(), 2);
    assert_eq!(hits[0].keyword, "error");
    assert_eq!(hits[1].keyword, "PR created");
}

#[test]
fn tmux_keyword_event_inherits_channel_format_and_mention() {
    let mut registration = registration(vec!["error"]);
    registration.format = Some(MessageFormat::Alert);

    let event = tmux_keyword_event(
        &registration,
        "issue-24",
        &vec![hit("error", "boom")],
    );

    assert_eq!(event.channel.as_deref(), Some("alerts"));
    assert_eq!(event.mention.as_deref(), Some("<@123>"));
    assert!(matches!(event.format, Some(MessageFormat::Alert)));
    assert_eq!(text_at(&event.payload, "session"), Some("issue-24"));
    assert_eq!(text_at(&event.payload, "keyword"), Some("error"));
    assert_eq!(text_at(&event.payload, "line"), Some("boom"));
    assert!(event.payload.get("hit_count").is_none());
}

#[test]
fn tmux_keyword_event_carries_registered_routing_metadata() {
    let mut registration = registration(vec!["error"]);
    registration.routing = RoutingMetadata {
        project: Some("clawhip".into()),
        repo_name: Some("clawhip".into()),
        worktree_path: Some("/repo/clawhip.worktrees/issue-152".into()),
        ..RoutingMetadata::default()
    };

    let event = tmux_keyword_event(
        &registration,
        "clawhip-issue-152",
        &vec![hit("error", "boom")],
    );

    assert_eq!(text_at(&event.payload, "project"), Some("clawhip"));
    assert_eq!(text_at(&event.payload, "repo_name"), Some("clawhip"));
    assert_eq!(
        text_at(&event.payload, "worktree_path"), Some("/repo/clawhip.worktrees/issue-152"));
}

#[test]
fn tmux_keyword_event_uses_aggregated_body_for_multi_hit_windows() {
    let mut registration = registration(vec!["error", "complete"]);
    registration.format = Some(MessageFormat::Alert);

    let event = tmux_keyword_event(
        &registration,
        "issue-24",
        &vec![hit("error", "boom"), hit("complete", "done")],
    );

    match from_incoming_event(&event).unwrap().body {
        EventBody::TmuxKeywordAggregated(body) => {
            assert_eq!(body.session, "issue-24");
            assert_eq!(body.hit_count, 2);
            assert_eq!(body.hits.len(), 2);
        }
        other => panic!("expected aggregated tmux keyword body, got {other:?}"),
    }
}

#[test]
fn tmux_stale_event_inherits_channel_format_and_mention() {
    let mut registration = registration(vec!["error"]);
    registration.format = Some(MessageFormat::Inline);

    let event = tmux_stale_event(
        &registration,
        "issue-24",
        "0.0",
        "waiting",
    );

    assert_eq!(event.channel.as_deref(), Some("alerts"));
    assert_eq!(event.mention.as_deref(), Some("<@123>"));
    assert!(matches!(event.format, Some(MessageFormat::Inline)));
    assert_eq!(text_at(&event.payload, "session"), Some("issue-24"));
    assert_eq!(text_at(&event.payload, "pane"), Some("0.0"));
    assert_eq!(event.payload.count("minutes"), Some(15));
    assert_eq!(text_at(&event.payload, "last_line"), Some("waiting"));
}

#[test]
fn config_monitor_registration_sets_audit_defaults() {
    let monitor = TmuxSessionMonitor {
        session: "issue-*".into(),
        channel: Some("alerts".into()),
        mention: None,
        keywords: vec!["panic".into()],
        keyword_window_secs: 30,
        stale_minutes: 10,
        format: None,
        ..Default::default()
    };

    let registration = RegisteredTmuxSession::from(&monitor);

    assert!(matches!(
        registration.registration_source,
        RegistrationSource::ConfigMonitor
    ));
    assert!(!registration.registered_at.is_empty());
    assert!(registration.parent_process.is_none());
}

#[test]
fn merge_active_config_registrations_preserves_existing_timestamps_and_prunes_inactive_ones() {
    let mut registry = vec![
        (
            "issue-105".to_string(),
            RegisteredTmuxSession {
                session: "issue-105".into(),
                channel: Some("alerts".into()),
                mention: None,
                routing: RoutingMetadata::default(),
                keywords: vec!["error".into()],
                keyword_window_secs: 30,
                stale_minutes: 10,
                format: None,
                registered_at: "2026-04-02T00:00:00Z".into(),
                registration_source: RegistrationSource::ConfigMonitor,
                parent_process: None,
                active_wrapper_monitor: false,
                ..Default::default()
            },
        ),
        (
            "wrapper".to_string(),
            RegisteredTmuxSession {
                session: "wrapper".into(),
                channel: Some("alerts".into()),
                mention: None,
                routing: RoutingMetadata::default(),
                keywords: vec!["panic".into()],
                keyword_window_secs: 30,
                stale_minutes: 10,
                format: None,
                registered_at: "2026-04-02T01:00:00Z".into(),
                registration_source: RegistrationSource::CliWatch,
                parent_process: Some(ParentProcessInfo {
                    pid: 42,
                    name: Some("codex".into()),
                }),
                active_wrapper_monitor: true,
                ..Default::default()
            },
        ),
        (
            "stale-config".to_string(),
            RegisteredTmuxSession {
                session: "stale-config".into(),
                channel: Some("alerts".into()),
                mention: None,
                routing: RoutingMetadata::default(),
                keywords: vec!["panic".into()],
                keyword_window_secs: 30,
                stale_minutes: 10,
                format: None,
                registered_at: "2026-04-02T02:00:00Z".into(),
                registration_source: RegistrationSource::ConfigMonitor,
                parent_process: None,
                active_wrapper_monitor: false,
                ..Default::default()
            },
        ),
    ];

    merge_active_config_registrations(
        &mut registry,
        &vec![(
            "issue-105".to_string(),
            RegisteredTmuxSession {
                session: "issue-105".into(),
                channel: Some("alerts".into()),
                mention: None,
                routing: RoutingMetadata::default(),
                keywords: vec!["error".into(), "complete".into()],
                keyword_window_secs: 30,
                stale_minutes: 10,
                format: None,
                registered_at: "2026-04-02T09:00:00Z".into(),
                registration_source: RegistrationSource::ConfigMonitor,
                parent_process: None,
                active_wrapper_monitor: false,
                ..Default::default()
            },
        )],
    );

    assert_eq!(registry.len(), 2);
    assert_eq!(entry(&registry, "issue-105").registered_at, "2026-04-02T00:00:00Z");
    assert_eq!(entry(&registry, "issue-105").keywords, vec!["error", "complete"]);
    assert!(has(&registry, "wrapper"));
    assert!(!has(&registry, "stale-config"));
}

#[test]
fn flush_pending_keyword_hits_aggregates_unique_hits() {
    let registration = RegisteredTmuxSession {
        format: Some(MessageFormat::Compact),
        mention: None,
        routing: RoutingMetadata::default(),
        ..registration(vec!["error", "complete"])
    };
    let start = 1_000;
    let mut pending_keyword_hits = Some({
        let mut pending = PendingKeywordHits::new(start);
        pending.push(vec![
            hit("error", "error: failed"),
            hit("error", "error: failed"),
            hit("complete", "complete"),
        ]);
        pending
    });

    let event = flush_pending_keyword_hits(
        &mut pending_keyword_hits,
        &registration,
        &registration.session,
        start + 30_000,
        false,
    )
    .unwrap();

    assert!(pending_keyword_hits.is_none());
    assert_eq!(event.canonical_kind(), "tmux.keyword");
    assert_eq!(event.payload.count("hit_count"), Some(2));
}

#[test]
fn identical_keyword_lines_can_emit_again_after_window_flush() {
    let registration = RegisteredTmuxSession {
        format: Some(MessageFormat::Compact),
        mention: None,
        routing: RoutingMetadata::default(),
        ..registration(vec!["error"])
    };
    let start = 1_000;
    let mut pending_keyword_hits = None;

    let first_snapshot = "done\nerror: failed";
    let first_hits = collect_gained_hits("done", first_snapshot, &registration.keywords);
    push_pending_keyword_hits(&mut pending_keyword_hits, start, first_hits);

    let first_event = flush_pending_keyword_hits(
        &mut pending_keyword_hits,
        &registration,
        &registration.session,
        start + 30_000,
        false,
    )
    .unwrap();
    assert!(first_event.payload.get("hit_count").is_none());
    assert_eq!(text_at(&first_event.payload, "keyword"), Some("error"));
    assert_eq!(text_at(&first_event.payload, "line"), Some("error: failed"));

    let second_snapshot = "done\nerror: failed\nerror: failed";
    let second_hits = collect_gained_hits(first_snapshot, second_snapshot, &registration.keywords);
    push_pending_keyword_hits(&mut pending_keyword_hits, start + 31_000, second_hits);

    let second_event = flush_pending_keyword_hits(
        &mut pending_keyword_hits,
        &registration,
        &registration.session,
        start + 61_000,
        false,
    )
    .unwrap();
    assert!(second_event.payload.get("hit_count").is_none());
    assert_eq!(text_at(&second_event.payload, "keyword"), Some("error"));
    assert_eq!(text_at(&second_event.payload, "line"), Some("error: failed"));
}

#[test]
fn session_keyword_hits_aggregate_across_panes_and_dedup_within_window() {
    let registration = RegisteredTmuxSession {
        format: Some(MessageFormat::Compact),
        mention: None,
        routing: RoutingMetadata::default(),
        ..registration(vec!["error", "complete"])
    };
    let start = 1_000;
    let mut pending_keyword_hits = None;

    push_pending_keyword_hits(
        &mut pending_keyword_hits,
        start,
        vec![hit("error", "error: failed")],
    );
    push_pending_keyword_hits(
        &mut pending_keyword_hits,
        start + 5_000,
        vec![hit("error", "error: failed"), hit("complete", "build complete")],
    );

    let event = flush_pending_keyword_hits(
        &mut pending_keyword_hits,
        &registration,
        &registration.session,
        start + 30_000,
        false,
    )
    .unwrap();

    assert!(pending_keyword_hits.is_none());
    match from_incoming_event(&event).unwrap().body {
        EventBody::TmuxKeywordAggregated(body) => {
            assert_eq!(body.hit_count, 2);
            assert_eq!(body.hits.len(), 2);
        }
        other => panic!("expected aggregated tmux keyword body, got {other:?}"),
    }
}

#[test]
fn session_keyword_hits_flush_when_window_expires() {
    let registration = RegisteredTmuxSession {
        format: Some(MessageFormat::Compact),
        mention: None,
        routing: RoutingMetadata::default(),
        ..registration(vec!["error"])
    };
    let start = 1_000;
    let mut pending_keyword_hits = None;
    push_pending_keyword_hits(
        &mut pending_keyword_hits,
        start,
        vec![hit("error", "error: failed")],
    );

    let early = flush_pending_keyword_hits(
        &mut pending_keyword_hits,
        &registration,
        &registration.session,
        start + 29_000,
        false,
    );
    assert!(early.is_none());
    assert!(pending_keyword_hits.is_some());

    let event = flush_pending_keyword_hits(
        &mut pending_keyword_hits,
        &registration,
        &registration.session,
        start + 30_000,
        false,
    )
    .unwrap();

    assert!(pending_keyword_hits.is_none());
    assert_eq!(text_at(&event.payload, "keyword"), Some("error"));
    assert_eq!(text_at(&event.payload, "line"), Some("error: failed"));
}

#[test]
fn resolve_monitored_sessions_expands_glob_patterns_to_actual_sessions() {
    let available_sessions = vec![
        "rcc-api".to_string(),
        "rcc-web".to_string(),
        "other".to_string(),
    ];
    let resolved = resolve_monitored_sessions(
        &vec![RegisteredTmuxSession {
            session: "rcc-*".into(),
            channel: Some("alerts".into()),
            mention: None,
            routing: RoutingMetadata::default(),
            keywords: vec!["panic".into()],
            keyword_window_secs: 30,
            stale_minutes: 10,
            format: None,
            registered_at: "2026-04-02T00:00:00Z".into(),
            registration_source: RegistrationSource::ConfigMonitor,
            parent_process: None,
            active_wrapper_monitor: false,
            ..Default::default()
        }],
        Some(&available_sessions),
    );

    assert_eq!(resolved.len(), 2);
    assert_eq!(entry(&resolved, "rcc-api").session, "rcc-api");
    assert_eq!(entry(&resolved, "rcc-api").channel.as_deref(), Some("alerts"));
    assert_eq!(entry(&resolved, "rcc-api").keywords, vec!["panic"]);
    assert_eq!(entry(&resolved, "rcc-web").session, "rcc-web");
    assert_eq!(entry(&resolved, "rcc-web").channel.as_deref(), Some("alerts"));
}

#[test]
fn resolve_monitored_sessions_keeps_keywords_isolated_per_actual_session() {
    let available_sessions = vec!["rcc-prod".to_string(), "omx-prod".to_string()];
    let resolved = resolve_monitored_sessions(
        &vec![
            RegisteredTmuxSession {
                session: "rcc-*".into(),
                channel: Some("rcc-alerts".into()),
                mention: None,
                routing: RoutingMetadata::default(),
                keywords: vec!["panic".into()],
                keyword_window_secs: 30,
                stale_minutes: 10,
                format: None,
                registered_at: "2026-04-02T00:00:00Z".into(),
                registration_source: RegistrationSource::ConfigMonitor,
                parent_process: None,
                active_wrapper_monitor: false,
                ..Default::default()
            },
            RegisteredTmuxSession {
                session: "omx-*".into(),
                channel: Some("omx-alerts".into()),
                mention: None,
                routing: RoutingMetadata::default(),
                keywords: vec!["error".into()],
                keyword_window_secs: 30,
                stale_minutes: 10,
                format: None,
                registered_at: "2026-04-02T00:00:00Z".into(),
                registration_source: RegistrationSource::ConfigMonitor,
                parent_process: None,
                active_wrapper_monitor: false,
                ..Default::default()
            },
        ],
        Some(&available_sessions),
    );

    assert_eq!(entry(&resolved, "rcc-prod").keywords, vec!["panic"]);
    assert_eq!(entry(&resolved, "rcc-prod").channel.as_deref(), Some("rcc-alerts"));
    assert_eq!(entry(&resolved, "omx-prod").keywords, vec!["error"]);
    assert_eq!(entry(&resolved, "omx-prod").channel.as_deref(), Some("omx-alerts"));
}

#[test]
fn resolve_monitored_sessions_keeps_exact_sessions_when_listing_is_unavailable() {
    let resolved = resolve_monitored_sessions(
        &vec![
            RegisteredTmuxSession {
                session: "exact-session".into(),
                channel: Some("alerts".into()),
                mention: None,
                routing: RoutingMetadata::default(),
                keywords: vec!["panic".into()],
                keyword_window_secs: 30,
                stale_minutes: 10,
                format: None,
                registered_at: "2026-04-02T00:00:00Z".into(),
                registration_source: RegistrationSource::ConfigMonitor,
                parent_process: None,
                active_wrapper_monitor: false,
                ..Default::default()
            },
            RegisteredTmuxSession {
                session: "rcc-*".into(),
                channel: Some("alerts".into()),
                mention: None,
                routing: RoutingMetadata::default(),
                keywords: vec!["panic".into()],
                keyword_window_secs: 30,
                stale_minutes: 10,
                format: None,
                registered_at: "2026-04-02T00:00:00Z".into(),
                registration_source: RegistrationSource::ConfigMonitor,
                parent_process: None,
                active_wrapper_monitor: false,
                ..Default::default()
            },
        ],
        None,
    );

    assert_eq!(resolved.len(), 1);
    assert_eq!(entry(&resolved, "exact-session").session, "exact-session");
}

#[test]
fn resolve_monitored_sessions_prefers_exact_match_over_glob_overlap() {
    let available_sessions = vec!["rcc-api".to_string()];
    let resolved = resolve_monitored_sessions(
        &vec![
            RegisteredTmuxSession {
                session: "*".into(),
                channel: Some("default-alerts".into()),
                mention: None,
                routing: RoutingMetadata::default(),
                keywords: vec!["error".into()],
                keyword_window_secs: 30,
                stale_minutes: 10,
                format: None,
                registered_at: "2026-04-02T00:00:00Z".into(),
                registration_source: RegistrationSource::ConfigMonitor,
                parent_process: None,
                active_wrapper_monitor: false,
                ..Default::default()
            },
            RegisteredTmuxSession {
                session: "rcc-api".into(),
                channel: Some("rcc-alerts".into()),
                mention: None,
                routing: RoutingMetadata::default(),
                keywords: vec!["panic".into()],
                keyword_window_secs: 30,
                stale_minutes: 10,
                format: None,
                registered_at: "2026-04-02T00:00:00Z".into(),
                registration_source: RegistrationSource::ConfigMonitor,
                parent_process: None,
                active_wrapper_monitor: false,
                ..Default::default()
            },
        ],
        Some(&available_sessions),
    );

    assert_eq!(entry(&resolved, "rcc-api").channel.as_deref(), Some("rcc-alerts"));
    assert_eq!(entry(&resolved, "rcc-api").keywords, vec!["panic"]);
}

#[test]
fn resolve_monitored_sessions_prefers_more_specific_glob_over_broader_glob() {
    let available_sessions = vec!["rcc-api".to_string(), "omx-api".to_string()];
    let resolved = resolve_monitored_sessions(
        &vec![
            RegisteredTmuxSession {
                session: "*".into(),
                channel: Some("default-alerts".into()),
                mention: None,
                routing: RoutingMetadata::default(),
                keywords: vec!["error".into()],
                keyword_window_secs: 30,
                stale_minutes: 10,
                format: None,
                registered_at: "2026-04-02T00:00:00Z".into(),
                registration_source: RegistrationSource::ConfigMonitor,
                parent_process: None,
                active_wrapper_monitor: false,
                ..Default::default()
            },
            RegisteredTmuxSession {
                session: "rcc-*".into(),
                channel: Some("rcc-alerts".into()),
                mention: None,
                routing: RoutingMetadata::default(),
                keywords: vec!["panic".into()],
                keyword_window_secs: 30,
                stale_minutes: 10,
                format: None,
                registered_at: "2026-04-02T00:00:00Z".into(),
                registration_source: RegistrationSource::ConfigMonitor,
                parent_process: None,
                active_wrapper_monitor: false,
                ..Default::default()
            },
        ],
        Some(&available_sessions),
    );

    assert_eq!(entry(&resolved, "rcc-api").channel.as_deref(), Some("rcc-alerts"));
    assert_eq!(entry(&resolved, "rcc-api").keywords, vec!["panic"]);
    assert_eq!(
        entry(&resolved, "omx-api").channel.as_deref(),
        Some("default-alerts")
    );
    assert_eq!(entry(&resolved, "omx-api").keywords, vec!["error"]);
}

#[test]
fn resolve_monitored_sessions_breaks_same_literal_ties_with_fewer_wildcards() {
    let available_sessions = vec!["abc-prod".to_string()];
    let resolved = resolve_monitored_sessions(
        &vec![
            RegisteredTmuxSession {
                session: "*abc*".into(),
                channel: Some("broad-alerts".into()),
                mention: None,
                routing: RoutingMetadata::default(),
                keywords: vec!["error".into()],
                keyword_window_secs: 30,
                stale_minutes: 10,
                format: None,
                registered_at: "2026-04-02T00:00:00Z".into(),
                registration_source: RegistrationSource::ConfigMonitor,
                parent_process: None,
                active_wrapper_monitor: false,
                ..Default::default()
            },
            RegisteredTmuxSession {
                session: "abc*".into(),
                channel: Some("specific-alerts".into()),
                mention: None,
                routing: RoutingMetadata::default(),
                keywords: vec!["panic".into()],
                keyword_window_secs: 30,
                stale_minutes: 10,
                format: None,
                registered_at: "2026-04-02T00:00:00Z".into(),
                registration_source: RegistrationSource::ConfigMonitor,
                parent_process: None,
                active_wrapper_monitor: false,
                ..Default::default()
            },
        ],
        Some(&available_sessions),
    );

    assert_eq!(
        entry(&resolved, "abc-prod").channel.as_deref(),
        Some("specific-alerts")
    );
    assert_eq!(entry(&resolved, "abc-prod").keywords, vec!["panic"]);
}

#[test]
fn stale_minutes_zero_disables_stale_detection() {
    let pane = TmuxPaneState {
        session: "test".into(),
        pane_name: "0.0".into(),
        snapshot: String::new(),
        last_change: 0,
        last_stale_notification: None,
        pane_dead: false,
    };
    // stale_minutes=0 should never emit, even after 1 hour idle
    assert!(!should_emit_stale(&pane, 3_600_000, 0));
}

#[test]
fn stale_minutes_nonzero_still_emits() {
    let pane = TmuxPaneState {
        session: "test".into(),
        pane_name: "0.0".into(),
        snapshot: String::new(),
        last_change: 0,
        last_stale_notification: None,
        pane_dead: false,
    };
    // stale_minutes=1 should emit after 1 hour idle
    assert!(should_emit_stale(&pane, 3_600_000, 1));
}

#[test]
fn pane_dead_suppresses_stale_alert() {
    let pane = TmuxPaneState {
        session: "test".into(),
        pane_name: "0.0".into(),
        snapshot: String::new(),
        last_change: 0,
        last_stale_notification: None,
        pane_dead: true,
    };
    // Dead pane should never emit stale, even after 1 hour idle
    assert!(!should_emit_stale(&pane, 3_600_000, 1));
}

#[test]
fn count_new_lines_no_change_returns_zero() {
    assert_eq!(count_new_lines("a\nb\n", "a\nb\n"), 0);
}

#[test]
fn count_new_lines_fewer_lines_returns_zero() {
    assert_eq!(count_new_lines("a\nb\nc\n", "a\n"), 0);
}

#[test]
fn count_new_lines_returns_net_addition() {
    assert_eq!(count_new_lines("a\nb\n", "a\nb\nc\nd\n"), 2);
}

#[test]
fn should_summarize_now_no_filter_no_throttle() {
    assert!(should_summarize_now(None, 0, 0, "old", "new", 3_600_000));
}

#[test]
fn should_summarize_now_no_prior_summarize_always_allowed_with_throttle() {
    assert!(should_summarize_now(None, 5, 0, "old", "new", 3_600_000));
}

#[test]
fn should_summarize_now_interval_allows_when_expired() {
    let now = 3_600_000;
    let old_enough = now - 6 * 60 * 1_000;
    assert!(should_summarize_now(Some(old_enough), 5, 0, "old", "new", now));
}

#[test]
fn should_summarize_now_interval_blocks_when_too_soon() {
    let now = 3_600_000;
    let recent = now - 30 * 1_000;
    // interval_mins=5 but only 30 seconds elapsed
    assert!(!should_summarize_now(Some(recent), 5, 0, "old", "new", now));
}

#[test]
fn should_summarize_now_min_new_lines_allows_when_met() {
    let old = "a\n".repeat(10);
    let new = format!("{}{}", old, "b\n".repeat(5));
    assert!(should_summarize_now(None, 0, 5, &old, &new, 3_600_000));
}

#[test]
fn should_summarize_now_min_new_lines_blocks_when_insufficient() {
    assert!(!should_summarize_now(None, 0, 5, "a\nb\n", "a\nb\nc\n", 3_600_000));
}

fn pane(content: &str, dead: bool) -> TmuxPaneSnapshot {
    TmuxPaneSnapshot {
        pane_id: "%1".into(),
        session: "issue-24".into(),
        pane_name: "0.0".into(),
        content: content.into(),
        pane_dead: dead,
    }
}

fn kinds(actions: &[TmuxAction]) -> Vec<String> {
    actions
        .iter()
        .map(|action| match action {
            TmuxAction::Emit(event) => event.canonical_kind().to_string(),
            TmuxAction::Summarize(_) => "summarize".to_string(),
        })
        .collect()
}

#[test]
fn first_look_is_silent_and_a_new_line_is_reported_after_the_window() {
    let sessions = vec![("issue-24".to_string(), registration(vec!["error"]))];
    let state = TmuxMonitorState::default();
    let (state, poll) =
        poll_tmux(state, &sessions, &vec![SessionProbe::Panes(vec![pane("done", false)])], 0);
    assert!(poll.actions.is_empty());
    let (state, poll) = poll_tmux(
        state,
        &sessions,
        &vec![SessionProbe::Panes(vec![pane("done\nerror: failed", false)])],
        5_000,
    );
    assert!(poll.actions.is_empty());
    let (state, poll) = poll_tmux(
        state,
        &sessions,
        &vec![SessionProbe::Panes(vec![pane("done\nerror: failed", false)])],
        35_000,
    );
    assert_eq!(kinds(&poll.actions), vec!["tmux.keyword"]);
    let (_, poll) = poll_tmux(
        state,
        &sessions,
        &vec![SessionProbe::Panes(vec![pane("done\nerror: failed", false)])],
        5_000 + 15 * 60_000,
    );
    assert_eq!(kinds(&poll.actions), vec!["tmux.stale"]);
}

#[test]
fn gone_session_reports_its_hits_and_leaves_the_registry() {
    let mut registration = registration(vec!["error"]);
    registration.registration_source = RegistrationSource::CliWatch;
    let sessions = vec![("issue-24".to_string(), registration)];
    let (state, _) = poll_tmux(
        TmuxMonitorState::default(),
        &sessions,
        &vec![SessionProbe::Panes(vec![pane("done", false)])],
        0,
    );
    let (state, _) = poll_tmux(
        state,
        &sessions,
        &vec![SessionProbe::Panes(vec![pane("done\nerror", false)])],
        1_000,
    );
    let (_, poll) = poll_tmux(state, &sessions, &vec![SessionProbe::Gone], 2_000);
    assert_eq!(kinds(&poll.actions), vec!["tmux.keyword"]);
    assert_eq!(poll.unregister, vec!["issue-24".to_string()]);
}

#[test]
fn unreadable_and_watched_sessions_are_left_alone() {
    let mut registration = registration(vec!["error"]);
    let sessions = vec![("issue-24".to_string(), registration)];
    let (_, poll) = poll_tmux(
        TmuxMonitorState::default(),
        &sessions,
        &vec![SessionProbe::Unreadable],
        0,
    );
    assert!(poll.actions.is_empty());
    assert!(poll.unregister.is_empty());

    registration = self::registration(vec!["error"]);
    registration.active_wrapper_monitor = true;
    let sessions = vec![("issue-24".to_string(), registration)];
    let (state, _) = poll_tmux(
        TmuxMonitorState::default(),
        &sessions,
        &vec![SessionProbe::Panes(vec![pane("done", false)])],
        0,
    );
    let (_, poll) = poll_tmux(
        state,
        &sessions,
        &vec![SessionProbe::Panes(vec![pane("error", false)])],
        60_000,
    );
    assert!(poll.actions.is_empty());
}

#[test]
fn watched_session_tells_of_hits_and_of_its_end() {
    let registration = registration(vec!["error"]);
    let mut watch = SessionWatch::default();
    assert!(watch.observe(&registration, Some(&vec![pane("done", false)]), 0).is_empty());
    assert!(watch
        .observe(&registration, Some(&vec![pane("done\nerror: x", false)]), 1_000)
        .is_empty());
    assert_eq!(kinds(&watch.observe(&registration, None, 2_000)), vec!["tmux.keyword"]);
}

#[test]
fn heartbeats_keep_their_interval() {
    let mut registration = registration(vec![]);
    registration.heartbeat_interval = 5;
    registration.stale_minutes = 0;
    let sessions = vec![("issue-24".to_string(), registration)];
    let probe = || vec![SessionProbe::Panes(vec![pane("done", false)])];
    let (state, poll) = poll_tmux(TmuxMonitorState::default(), &sessions, &probe(), 0);
    assert!(poll.actions.is_empty());
    let (state, poll) = poll_tmux(state, &sessions, &probe(), 4 * 60_000);
    assert!(poll.actions.is_empty());
    let (state, poll) = poll_tmux(state, &sessions, &probe(), 5 * 60_000);
    assert_eq!(kinds(&poll.actions), vec!["tmux.heartbeat"]);
    let (_, poll) = poll_tmux(state, &sessions, &probe(), 6 * 60_000);
    assert!(poll.actions.is_empty());
}

#[test]
fn panes_and_sessions_of_tmux_are_read() {
    assert_eq!(parse_session_names("a\n\nb\n"), vec!["a".to_string(), "b".to_string()]);
    let pane = parse_pane_line("%3|work|1.0|0|title").unwrap();
    assert_eq!(pane.pane_id, "%3");
    assert_eq!(pane.session, "work");
    assert_eq!(pane.pane_name, "1.0");
    assert!(parse_pane_line("").is_none());
}

#[test]
fn last_line_that_is_not_blank_is_shown() {
    assert_eq!(last_nonempty_line("a\n  b \n\n"), "b");
    assert_eq!(last_nonempty_line("\n"), "<no output>");
}

#[test]
fn more_literal_patterns_outrank_others() {
    let exact = MonitorSpecificity::for_pattern("rcc-api");
    let broad = MonitorSpecificity::for_pattern("rcc-*");
    assert!(exact.outranks(broad));
    assert!(!broad.outranks(exact));
}

#[test]
fn registry_follows_the_configuration() {
    let mut config = AppConfig::default();
    config.monitors.tmux.sessions.push(TmuxSessionMonitor {
        session: "rcc-*".into(),
        ..TmuxSessionMonitor::default()
    });
    let mut registry = Vec::new();
    let available = vec!["rcc-api".to_string(), "other".to_string()];
    sync_active_config_registrations(&config, &mut registry, &available, "2026-04-02T00:00:00Z");
    assert_eq!(registry.len(), 1);
    assert_eq!(entry(&registry, "rcc-api").registered_at, "2026-04-02T00:00:00Z");
    sync_active_config_registrations(&config, &mut registry, &available, "2026-04-03T00:00:00Z");
    assert_eq!(entry(&registry, "rcc-api").registered_at, "2026-04-02T00:00:00Z");
    assert_eq!(sorted_registry_snapshot(&registry).len(), 1);
    let polled = sessions_to_poll(&config, &registry, Some(&available), "2026-04-03T00:00:00Z");
    assert_eq!(polled.len(), 1);
    sync_active_config_registrations(&config, &mut registry, &Vec::new(), "2026-04-04T00:00:00Z");
    assert!(registry.is_empty());
}

#[test]
fn snapshot_of_the_registry_is_sorted() {
    let named = |session: &str| {
        let mut registration = RegisteredTmuxSession::default();
        registration.session = session.into();
        (session.to_string(), registration)
    };
    let names = |registry: Vec<(String, RegisteredTmuxSession)>| {
        sorted_registry_snapshot(&registry)
            .into_iter()
            .map(|registration| registration.session)
            .collect::<Vec<_>>()
    };
    assert_eq!(names(vec![named("c"), named("a"), named("b")]), vec!["a", "b", "c"]);
    assert_eq!(names(vec![named("b"), named("c"), named("a")]), vec!["a", "b", "c"]);
}
