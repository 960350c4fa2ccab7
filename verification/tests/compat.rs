use clawhip::codec::parse_json;
use clawhip::compat::{
    body_for, envelope_with, from_incoming_event, from_omx_hook_envelope_json,
    incoming_event_from_omx_hook_envelope_json, priority_for, AgentEvent, EventBody,
    EventPriority,
};
use clawhip::events::IncomingEvent;
use clawhip::json::Json;
use clawhip::normalize::{normalize_event, normalize_event_with};

fn json(text: &str) -> Json {
    parse_json(text).unwrap()
}

fn sample_agent_payload(normalized_event: &str) -> Json {
    json(
        r#"{
            "agent_name": "omx",
            "session_name": "issue-65",
            "session_id": "sess-65",
            "project": "clawhip",
            "repo_path": "/repo/clawhip",
            "branch": "feat/issue-65",
            "issue_number": 65,
            "pr_number": 72,
            "pr_url": "https://github.com/Yeachan-Heo/clawhip/pull/72",
            "command": "cargo test",
            "tool_name": "Bash",
            "elapsed_secs": 42,
            "summary": "summary",
            "error_summary": "error summary",
            "mention": "@ops"
        }"#,
    )
    .with_text("status", normalized_event)
    .with_text("normalized_event", normalized_event)
}

fn sample_agent_event(normalized_event: &str) -> AgentEvent {
    AgentEvent {
        agent_name: "omx".into(),
        session_name: Some("issue-65".into()),
        status: normalized_event.into(),
        normalized_event: Some(normalized_event.into()),
        session_id: Some("sess-65".into()),
        project: Some("clawhip".into()),
        repo_path: Some("/repo/clawhip".into()),
        branch: Some("feat/issue-65".into()),
        issue_number: Some(65),
        pr_number: Some(72),
        pr_url: Some("https://github.com/Yeachan-Heo/clawhip/pull/72".into()),
        command: Some("cargo test".into()),
        tool_name: Some("Bash".into()),
        elapsed_secs: Some(42),
        summary: Some("summary".into()),
        error_summary: Some("error summary".into()),
        error_message: Some("error summary".into()),
        mention: Some("@ops".into()),
    }
}

fn expected_normalized_event(body: &EventBody) -> &'static str {
    match body {
        EventBody::AgentStarted(_) => "started",
        EventBody::AgentBlocked(_) => "blocked",
        EventBody::AgentFinished(_) => "finished",
        EventBody::AgentFailed(_) => "failed",
        EventBody::AgentRetryNeeded(_) => "retry-needed",
        EventBody::AgentPRCreated(_) => "pr-created",
        EventBody::AgentTestStarted(_) => "test-started",
        EventBody::AgentTestFinished(_) => "test-finished",
        EventBody::AgentTestFailed(_) => "test-failed",
        EventBody::AgentHandoffNeeded(_) => "handoff-needed",
        _ => unreachable!(),
    }
}

#[test]
fn converts_aggregated_git_commits() {
    let event = IncomingEvent::git_commit_events(
        "clawhip".into(),
        "main".into(),
        vec![
            ("abcdef123456".into(), "first".into()),
            ("123456abcdef".into(), "second".into()),
        ],
        Some("ops".into()),
    )
    .into_iter()
    .next()
    .unwrap();

    let envelope = from_incoming_event(&event).unwrap();
    assert_eq!(envelope.source, "git");
    assert_eq!(envelope.metadata.channel_hint.as_deref(), Some("ops"));
    match envelope.body {
        EventBody::GitCommitAggregated(body) => {
            assert_eq!(body.commit_count, 2);
            assert_eq!(body.commits.len(), 2);
            assert_eq!(body.commits[0].summary, "first");
        }
        other => panic!("expected aggregated git commit, got {other:?}"),
    }
}

#[test]
fn converts_tmux_keyword_hits() {
    let event = IncomingEvent::tmux_keywords(
        "issue-48".into(),
        vec![
            ("panic".into(), "boom".into()),
            ("error".into(), "bad".into()),
        ],
        None,
    );

    let envelope = from_incoming_event(&event).unwrap();
    match envelope.body {
        EventBody::TmuxKeywordAggregated(body) => {
            assert_eq!(body.session, "issue-48");
            assert_eq!(body.hit_count, 2);
        }
        other => panic!("expected aggregated tmux keyword, got {other:?}"),
    }
}

#[test]
fn maps_pr_open_and_merge_statuses() {
    let opened = IncomingEvent::github_pr_status_changed(
        "clawhip".into(),
        48,
        "Phase 1".into(),
        "<new>".into(),
        "open".into(),
        "https://example.test/pr/48".into(),
        None,
    );
    let merged = IncomingEvent::github_pr_status_changed(
        "clawhip".into(),
        48,
        "Phase 1".into(),
        "open".into(),
        "merged".into(),
        "https://example.test/pr/48".into(),
        None,
    );

    assert!(matches!(
        from_incoming_event(&opened).unwrap().body,
        EventBody::GitHubPROpened(_)
    ));
    assert!(matches!(
        from_incoming_event(&merged).unwrap().body,
        EventBody::GitHubPRMerged(_)
    ));
}

#[test]
fn keeps_unknown_events_as_custom() {
    let event = IncomingEvent {
        kind: "plugin.custom".into(),
        channel: None,
        mention: None,
        format: None,
        template: None,
        payload: json(r##"{"message": "hello", "extra": true}"##),
    };

    let envelope = from_incoming_event(&event).unwrap();
    match envelope.body {
        EventBody::Custom(body) => {
            assert_eq!(body.kind, "plugin.custom");
            assert_eq!(body.message, "hello");
            assert_eq!(body.payload.unwrap().flag("extra"), Some(true));
        }
        other => panic!("expected custom body, got {other:?}"),
    }
}

#[test]
fn keeps_github_ci_failed_route_compatibility_fields() {
    let event = IncomingEvent::github_ci(
        "github.ci-failed",
        "clawhip".into(),
        Some(58),
        "CI / test".into(),
        "completed".into(),
        Some("failure".into()),
        "abcdef1234567890".into(),
        "https://github.com/Yeachan-Heo/clawhip/actions/runs/1".into(),
        Some("feat/branch".into()),
        Some("alerts".into()),
    );

    let envelope = from_incoming_event(&event).unwrap();
    assert_eq!(envelope.metadata.channel_hint.as_deref(), Some("alerts"));
    match envelope.body {
        EventBody::GitHubCIFailed(body) => {
            assert_eq!(body.repo, "clawhip");
            assert_eq!(body.number, Some(58));
            assert_eq!(body.workflow.as_deref(), Some("CI / test"));
            assert_eq!(body.status.as_deref(), Some("completed"));
            assert_eq!(body.conclusion.as_deref(), Some("failure"));
            assert_eq!(body.sha.as_deref(), Some("abcdef1234567890"));
            assert_eq!(
                body.url.as_deref(),
                Some("https://github.com/Yeachan-Heo/clawhip/actions/runs/1")
            );
        }
        other => panic!("expected GitHubCIFailed body, got {other:?}"),
    }
}

#[test]
fn maps_all_canonical_session_events_to_typed_agent_variants() {
    let cases = [
        (
            "session.started",
            EventBody::AgentStarted(sample_agent_event("started")),
        ),
        (
            "session.blocked",
            EventBody::AgentBlocked(sample_agent_event("blocked")),
        ),
        (
            "session.finished",
            EventBody::AgentFinished(sample_agent_event("finished")),
        ),
        (
            "session.failed",
            EventBody::AgentFailed(sample_agent_event("failed")),
        ),
        (
            "session.retry-needed",
            EventBody::AgentRetryNeeded(sample_agent_event("retry-needed")),
        ),
        (
            "session.pr-created",
            EventBody::AgentPRCreated(sample_agent_event("pr-created")),
        ),
        (
            "session.test-started",
            EventBody::AgentTestStarted(sample_agent_event("test-started")),
        ),
        (
            "session.test-finished",
            EventBody::AgentTestFinished(sample_agent_event("test-finished")),
        ),
        (
            "session.test-failed",
            EventBody::AgentTestFailed(sample_agent_event("test-failed")),
        ),
        (
            "session.handoff-needed",
            EventBody::AgentHandoffNeeded(sample_agent_event("handoff-needed")),
        ),
    ];

    for (kind, expected) in cases {
        let event = IncomingEvent {
            kind: kind.into(),
            channel: None,
            mention: None,
            format: None,
            template: None,
            payload: sample_agent_payload(expected_normalized_event(&expected)),
        };

        let envelope = from_incoming_event(&event).unwrap();
        assert_eq!(envelope.body, expected, "unexpected body for {kind}");
    }
}

#[test]
fn keeps_legacy_agent_variants_backward_compatible() {
    let event = IncomingEvent {
        kind: "agent.finished".into(),
        channel: None,
        mention: None,
        format: None,
        template: None,
        payload: sample_agent_payload("finished"),
    };

    let envelope = from_incoming_event(&event).unwrap();
    assert!(matches!(envelope.body, EventBody::AgentFinished(_)));
}

#[test]
fn deserializes_omx_hook_envelope_schema_v1_with_all_context_fields() {
    let envelope = from_omx_hook_envelope_json(&json(r##"{ "schema_version": "1", "event": "notify", "timestamp": "2026-03-31T09:00:00Z", "context": { "normalized_event": "test-failed", "agent_name": "omx", "session_name": "issue-65-event-contract", "session_id": "sess-65", "project": "clawhip", "repo_path": "/repo/clawhip", "branch": "feat/issue-65-event-contract", "issue_number": 65, "pr_number": 72, "pr_url": "https://github.com/Yeachan-Heo/clawhip/pull/72", "command": "cargo test", "tool_name": "Bash", "status": "failed", "summary": "tests failed", "error_summary": "1 test failed", "mention": "@ops" } }"##))
    .unwrap();

    match envelope.body {
        EventBody::AgentTestFailed(body) => {
            assert_eq!(body.agent_name, "omx");
            assert_eq!(
                body.session_name.as_deref(),
                Some("issue-65-event-contract")
            );
            assert_eq!(body.session_id.as_deref(), Some("sess-65"));
            assert_eq!(body.project.as_deref(), Some("clawhip"));
            assert_eq!(body.repo_path.as_deref(), Some("/repo/clawhip"));
            assert_eq!(body.branch.as_deref(), Some("feat/issue-65-event-contract"));
            assert_eq!(body.issue_number, Some(65));
            assert_eq!(body.pr_number, Some(72));
            assert_eq!(
                body.pr_url.as_deref(),
                Some("https://github.com/Yeachan-Heo/clawhip/pull/72")
            );
            assert_eq!(body.command.as_deref(), Some("cargo test"));
            assert_eq!(body.tool_name.as_deref(), Some("Bash"));
            assert_eq!(body.status, "failed");
            assert_eq!(body.summary.as_deref(), Some("tests failed"));
            assert_eq!(body.error_summary.as_deref(), Some("1 test failed"));
            assert_eq!(body.error_message.as_deref(), Some("1 test failed"));
            assert_eq!(body.normalized_event.as_deref(), Some("test-failed"));
            assert_eq!(body.mention.as_deref(), Some("@ops"));
        }
        other => panic!("expected AgentTestFailed body, got {other:?}"),
    }
}

#[test]
fn converts_omx_hook_envelope_into_incoming_event() {
    let event = incoming_event_from_omx_hook_envelope_json(&json(r##"{ "schema_version": "1", "event": "notify", "channel": "alerts", "mention": "@ops", "context": { "normalized_event": "pr-created", "agent_name": "omx", "status": "pr-created", "session_name": "issue-65", "pr_number": 91 } }"##))
    .unwrap();

    assert_eq!(event.kind, "notify");
    assert_eq!(event.channel.as_deref(), Some("alerts"));
    assert_eq!(event.mention.as_deref(), Some("@ops"));
    assert_eq!(
        event.payload.pointer("/context/normalized_event").and_then(Json::as_str),
        Some("pr-created")
    );
}

#[test]
fn rejects_omx_hook_envelope_without_normalized_event() {
    let error = from_omx_hook_envelope_json(&json(r##"{ "schema_version": "1", "event": "notify", "context": { "agent_name": "omx" } }"##))
    .unwrap_err();

    assert!(error.contains("context.normalized_event"));
}

#[test]
fn rejects_unsupported_omx_hook_schema_version() {
    let error = from_omx_hook_envelope_json(&json(r##"{ "schema_version": "2", "context": { "normalized_event": "started" } }"##))
    .unwrap_err();

    assert!(error.contains("unsupported schema_version"));
}

#[test]
fn reuses_normalized_event_id_when_available() {
    let event = normalize_event(IncomingEvent::custom(None, "hello".into()));
    let envelope = from_incoming_event(&event).unwrap();

    assert_eq!(
        Some(envelope.id.as_str()),
        event.payload.raw_field("event_id")
    );
}

#[test]
fn workspace_blocked_events_are_high_priority() {
    let event = IncomingEvent::workspace(
        "workspace.session.blocked".into(),
        json(r##"{"workspace_name": "repo", "workspace_root": "/tmp/repo", "state_file": "notify-fallback-state.json", "summary": "waiting"}"##),
        None,
    );

    let envelope = from_incoming_event(&event).unwrap();
    assert_eq!(envelope.metadata.priority, EventPriority::High);
}

#[test]
fn identifier_and_moment_are_taken_where_there_are_none() {
    let event = IncomingEvent::custom(None, "hello".into());
    let id = "6f1ed002-ab5d-4f2f-9d3f-7c0b6f1d2a3b";
    let envelope = envelope_with(&event, id.into(), "2026-04-02T00:00:00Z".into()).unwrap();
    assert_eq!(envelope.id, id);
    assert_eq!(envelope.timestamp, "2026-04-02T00:00:00Z");
    let normal = normalize_event_with(event, id.into(), "2026-04-02T00:00:00Z".into());
    assert_eq!(normal.payload.raw_field("event_id"), Some(id));
    let again = normalize_event_with(normal, "other".into(), "2027-01-01T00:00:00Z".into());
    assert_eq!(again.payload.raw_field("event_id"), Some(id));
    assert_eq!(again.payload.raw_field("first_seen_at"), Some("2026-04-02T00:00:00Z"));
}

#[test]
fn fields_that_a_kind_needs_are_missed() {
    let error = body_for("github.issue-opened", &json("{}")).unwrap_err();
    assert!(error.contains("missing"));
    assert_eq!(priority_for("custom", &json("{}")), EventPriority::Low);
}
