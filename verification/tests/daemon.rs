use std::sync::Arc;

use clawhip::codec::parse_json;
use clawhip::config::AppConfig;
use clawhip::daemon::{
    approve_update, dismiss_update, health_payload, listen_address, post_event, post_github,
    post_omx_hook, queue_unavailable, register_tmux, source_failure_alert_event, update_status,
    Intake, PendingUpdate, VERSION,
};
use clawhip::events::{IncomingEvent, MessageFormat};
use clawhip::json::Json;
use clawhip::registry::{
    sorted_registry_snapshot, ParentProcessInfo, RegisteredTmuxSession, RegistrationSource,
};
use clawhip::router::{Router, SinkTarget};
use clawhip::wire::{event_from_json, event_to_json};

fn json(text: &str) -> Json {
    parse_json(text).unwrap()
}

fn text_at<'a>(payload: &'a Json, key: &str) -> Option<&'a str> {
    payload.get(key).and_then(Json::as_str)
}

#[test]
fn health_payload_includes_version_and_token_source() {
    let mut config = AppConfig::default();
    config.providers.discord.bot_token = Some("config-token".into());
    config.monitors.git.repos.push(Default::default());
    config.monitors.tmux.sessions.push(Default::default());
    config.monitors.workspace.push(Default::default());

    let payload = health_payload(&config, 25294, 3, &None);

    assert_eq!(payload.flag("ok"), Some(true));
    assert_eq!(text_at(&payload, "version"), Some(VERSION));
    assert_eq!(text_at(&payload, "token_source"), Some("config"));
    assert_eq!(payload.count("port"), Some(25294));
    assert_eq!(payload.count("configured_git_monitors"), Some(1));
    assert_eq!(payload.count("configured_tmux_monitors"), Some(1));
    assert_eq!(payload.count("configured_workspace_monitors"), Some(1));
    assert_eq!(payload.count("registered_tmux_sessions"), Some(3));
}

#[test]
fn source_failure_alert_defaults_to_alert_format_and_default_channel_routing() {
    let event = source_failure_alert_event("cron", "EOF while parsing a value at line 1 column 0");

    assert_eq!(event.kind, "custom");
    assert_eq!(event.channel, None);
    assert_eq!(event.format, Some(MessageFormat::Alert));
    assert_eq!(text_at(&event.payload, "source_name"), Some("cron"));
    assert_eq!(text_at(&event.payload, "health_status"), Some("degraded"));
    assert!(text_at(&event.payload, "message")
        .is_some_and(|message| message.contains("source 'cron' stopped")));

    let mut config = AppConfig::default();
    config.defaults.channel = Some("default-alerts".into());
    let router = Router::new(Arc::new(config));
    let deliveries = router.resolve(&event).expect("deliveries");

    assert_eq!(deliveries.len(), 1);
    assert_eq!(
        deliveries[0].target,
        SinkTarget::DiscordChannel("default-alerts".into())
    );
}

#[test]
fn post_event_returns_event_id_and_preserves_normalized_metadata() {
    let event = IncomingEvent::agent_started(
        "worker-1".into(),
        Some("sess-123".into()),
        Some("my-repo".into()),
        None,
        Some("booted".into()),
        None,
        None,
    );

    let Intake::Queue { event: queued, reply } = post_event(&event_to_json(&event)) else {
        panic!("expected a queued event");
    };
    assert_eq!(reply.status, 202);
    let event_id = text_at(&reply.body, "event_id").unwrap();
    assert!(!event_id.is_empty());
    assert_eq!(text_at(&reply.body, "type"), Some("agent.started"));

    assert_eq!(text_at(&queued.payload, "event_id"), Some(event_id));
    assert_eq!(text_at(&queued.payload, "correlation_id"), Some("sess-123"));
    assert!(text_at(&queued.payload, "first_seen_at").is_some_and(|value| !value.is_empty()));
}

#[test]
fn post_omx_hook_accepts_native_hook_envelope_and_queues_normalized_event() {
    let payload = json(
        r#"{
            "schema_version": "1",
            "event": "session-start",
            "timestamp": "2026-04-01T22:00:00Z",
            "context": {
                "normalized_event": "started",
                "agent_name": "omx",
                "session_name": "issue-65-native-sdk",
                "status": "started",
                "repo_path": "/repo/clawhip",
                "branch": "feat/issue-65-native-sdk"
            }
        }"#,
    );

    let Intake::Queue { event: queued, reply } = post_omx_hook(&payload) else {
        panic!("expected a queued event");
    };
    assert_eq!(reply.status, 202);
    let event_id = text_at(&reply.body, "event_id").unwrap();
    assert!(!event_id.is_empty());
    assert_eq!(text_at(&reply.body, "type"), Some("session.started"));

    assert_eq!(queued.kind, "session.started");
    assert_eq!(text_at(&queued.payload, "tool"), Some("omx"));
    assert_eq!(text_at(&queued.payload, "session_name"), Some("issue-65-native-sdk"));
    assert_eq!(text_at(&queued.payload, "event_id"), Some(event_id));
}

#[test]
fn post_omx_hook_rejects_missing_normalized_event() {
    let payload = json(
        r#"{
            "schema_version": "1",
            "event": "session-start",
            "context": { "agent_name": "omx", "status": "started" }
        }"#,
    );

    let Intake::Reply(reply) = post_omx_hook(&payload) else {
        panic!("expected a refusal");
    };
    assert_eq!(reply.status, 400);
    assert!(text_at(&reply.body, "error")
        .is_some_and(|error| error.contains("context.normalized_event")));
}

#[test]
fn list_tmux_returns_registered_sessions_with_metadata() {
    let mut registry = Vec::new();
    let reply = register_tmux(
        &mut registry,
        RegisteredTmuxSession {
            session: "issue-105".into(),
            channel: Some("alerts".into()),
            mention: Some("<@123>".into()),
            keywords: vec!["error".into()],
            keyword_window_secs: 30,
            stale_minutes: 15,
            format: None,
            registered_at: "2026-04-02T00:00:00Z".into(),
            registration_source: RegistrationSource::CliWatch,
            parent_process: Some(ParentProcessInfo { pid: 4242, name: Some("codex".into()) }),
            active_wrapper_monitor: true,
            ..Default::default()
        },
    );
    assert_eq!(reply.status, 202);

    let registrations = sorted_registry_snapshot(&registry);
    assert_eq!(registrations.len(), 1);
    assert_eq!(registrations[0].session, "issue-105");
    assert_eq!(registrations[0].registration_source.as_str(), "cli-watch");
    assert_eq!(registrations[0].registered_at, "2026-04-02T00:00:00Z");
    let parent = registrations[0].parent_process.as_ref().unwrap();
    assert_eq!(parent.pid, 4242);
    assert_eq!(parent.name.as_deref(), Some("codex"));
}

fn pending(url: &str) -> Option<PendingUpdate> {
    Some(PendingUpdate {
        current_version: "0.5.4".into(),
        latest_version: "0.6.0".into(),
        release_url: url.into(),
        detected_at: "2026-04-07T00:00:00Z".into(),
    })
}

#[test]
fn update_status_returns_no_pending_when_empty() {
    let reply = update_status(&None);
    assert_eq!(reply.status, 200);
    assert_eq!(reply.body.flag("pending"), Some(false));
    assert_eq!(text_at(&reply.body, "current_version"), Some(VERSION));
}

#[test]
fn update_status_returns_pending_when_set() {
    let reply = update_status(&pending(
        "https://github.com/Yeachan-Heo/clawhip/releases/tag/v0.6.0",
    ));
    assert_eq!(reply.status, 200);
    assert_eq!(reply.body.flag("pending"), Some(true));
    assert_eq!(text_at(&reply.body, "latest_version"), Some("0.6.0"));
    assert_eq!(text_at(&reply.body, "current_version"), Some("0.5.4"));
}

#[test]
fn approve_returns_error_when_no_pending_update() {
    let reply = approve_update(&None, &None);
    assert_eq!(reply.status, 400);
    assert_eq!(reply.body.flag("ok"), Some(false));
    assert!(text_at(&reply.body, "error").unwrap().contains("no pending update"));
}

#[test]
fn dismiss_clears_pending_update() {
    let mut pending = pending("https://example.com");
    let reply = dismiss_update(&mut pending);
    assert_eq!(reply.status, 200);
    assert_eq!(reply.body.flag("ok"), Some(true));
    assert_eq!(text_at(&reply.body, "dismissed_version"), Some("0.6.0"));
    assert!(pending.is_none());
}

#[test]
fn dismiss_returns_error_when_no_pending_update() {
    let reply = dismiss_update(&mut None);
    assert_eq!(reply.status, 400);
    assert_eq!(reply.body.flag("ok"), Some(false));
}

#[test]
fn event_that_cannot_be_typed_is_refused() {
    let Intake::Reply(reply) = post_event(&json(r#"{"type":"github.issue-opened"}"#)) else {
        panic!("expected a refusal");
    };
    assert_eq!(reply.status, 400);
    assert_eq!(reply.body.flag("ok"), Some(false));
    assert_eq!(queue_unavailable("closed").status, 503);
}

#[test]
fn messages_of_github_become_events() {
    let opened = json(
        r#"{"action":"opened","repository":{"name":"clawhip"},
            "issue":{"number":5,"title":"boom"}}"#,
    );
    let Intake::Queue { event, reply } = post_github("issues", &opened) else {
        panic!("expected a queued event");
    };
    assert_eq!(reply.status, 202);
    assert_eq!(event.kind, "github.issue-opened");
    assert_eq!(event.payload.count("number"), Some(5));

    let closed = json(
        r#"{"action":"closed","repository":{"full_name":"o/r"},
            "issue":{"number":5,"title":"boom"}}"#,
    );
    let Intake::Queue { event, .. } = post_github("issues", &closed) else {
        panic!("expected a queued event");
    };
    assert_eq!(event.kind, "github.issue-closed");
    assert_eq!(text_at(&event.payload, "repo"), Some("o/r"));

    let created = json(
        r#"{"action":"created","repository":{"full_name":"o/r"},
            "issue":{"number":5,"title":"boom","comments":3}}"#,
    );
    let Intake::Queue { event, .. } = post_github("issue_comment", &created) else {
        panic!("expected a queued event");
    };
    assert_eq!(event.kind, "github.issue-commented");
    assert_eq!(event.payload.count("comments"), Some(3));

    let Intake::Reply(reply) = post_github("star", &opened) else {
        panic!("expected no event");
    };
    assert_eq!(reply.status, 202);
}

#[test]
fn daemon_listens_where_it_is_told() {
    let config = AppConfig::default();
    assert_eq!(listen_address(&config, None), "0.0.0.0:25294");
    assert_eq!(listen_address(&config, Some(80)), "0.0.0.0:80");
}

#[test]
fn written_event_is_read_back() {
    let mut event = IncomingEvent::custom(Some("ops".into()), "hello".into());
    event.format = Some(MessageFormat::Alert);
    let back = event_from_json(&event_to_json(&event)).unwrap();
    assert_eq!(back.kind, "custom");
    assert_eq!(back.channel.as_deref(), Some("ops"));
    assert_eq!(back.format, Some(MessageFormat::Alert));
    assert_eq!(text_at(&back.payload, "message"), Some("hello"));
    let bare = event_from_json(&json(r#"{"kind":"agent.started","agent_name":"omx"}"#)).unwrap();
    assert_eq!(bare.kind, "agent.started");
    assert_eq!(text_at(&bare.payload, "agent_name"), Some("omx"));
    assert!(event_from_json(&json("{}")).is_err());
}

#[test]
fn value_that_describes_no_event_cannot_be_processed() {
    for text in ["[]", "{}", r#"{"type":1}"#, r#"{"type":"custom","format":{"loud":null}}"#] {
        let Intake::Reply(reply) = post_event(&json(text)) else {
            panic!("expected a refusal");
        };
        assert_eq!(reply.status, 422, "{text}");
        assert_eq!(reply.body.flag("ok"), Some(false));
    }
}

#[test]
fn format_of_an_event_is_a_name() {
    let read = |text: &str| event_from_json(&json(text)).map(|event| event.format);
    assert_eq!(read(r#"{"type":"custom"}"#), Ok(None));
    assert_eq!(read(r#"{"type":"custom","format":null}"#), Ok(None));
    assert_eq!(read(r#"{"type":"custom","format":"alert"}"#), Ok(Some(MessageFormat::Alert)));
    assert_eq!(
        read(r#"{"type":"custom","format":{"inline":null}}"#),
        Ok(Some(MessageFormat::Inline))
    );
    assert!(read(r#"{"type":"custom","format":{"inline":1}}"#).is_err());
    assert!(read(r#"{"type":"custom","format":{"inline":null,"raw":null}}"#).is_err());
    assert!(read(r#"{"type":"custom","format":7}"#).is_err());
    assert!(read(r#"{"type":"custom","format":"loud"}"#).is_err());
}
