use std::time::Duration;

use clawhip::codec::{parse_json, to_text};
use clawhip::discord::{
    broken_request, discord_request, dlq_line, is_infrastructure_failure, jitter_for_attempt, DiscordSendError,
    missing_bot, parse_retry_after, refused_request, target_rate_limit_key, webhook_url_with_wait,
    CircuitBreaker, DiscordState, RateLimiter, SendStep, SinkMessage,
};
use clawhip::events::MessageFormat;
use clawhip::router::SinkTarget;

fn message(kind: &str, content: &str, payload: &str) -> SinkMessage {
    SinkMessage {
        event_kind: kind.into(),
        format: MessageFormat::Alert,
        content: content.into(),
        payload: parse_json(payload).unwrap(),
    }
}

#[test]
fn webhook_urls_gain_wait_true_by_default() {
    assert_eq!(
        webhook_url_with_wait("https://discord.com/api/webhooks/1/abc"),
        "https://discord.com/api/webhooks/1/abc?wait=true"
    );
    assert_eq!(
        webhook_url_with_wait("https://discord.com/api/webhooks/1/abc?thread_id=7"),
        "https://discord.com/api/webhooks/1/abc?thread_id=7&wait=true"
    );
    assert_eq!(
        webhook_url_with_wait("https://discord.com/api/webhooks/1/abc?wait=false"),
        "https://discord.com/api/webhooks/1/abc?wait=false"
    );
}

#[test]
fn parses_retry_after_for_429() {
    assert_eq!(
        parse_retry_after(429, r#"{"retry_after":0.25}"#),
        Some(Duration::from_millis(250).as_nanos())
    );
    assert_eq!(parse_retry_after(400, "{}"), None);
}

#[test]
fn retries_429_then_succeeds() {
    let target = SinkTarget::DiscordWebhook("http://127.0.0.1:1/webhook".into());
    let message = message("tmux.keyword", "hello", r#"{"session":"ops"}"#);
    let mut state = DiscordState::new();
    state.begin(&target, &message, 0).unwrap();
    let error = refused_request(
        "Discord webhook",
        429,
        "429 Too Many Requests",
        r#"{"retry_after":0.01}"#,
    );
    let step = state.failed(&target, &message, 1, error, 0);
    assert!(matches!(step, SendStep::Retry { pause_nanos } if pause_nanos
        == 10_000_000 + jitter_for_attempt(1)));
    assert!(matches!(state.delivered(&target), SendStep::Delivered));
    assert!(state.dlq.is_empty());
}

#[test]
fn exhausted_failures_land_in_dlq() {
    let target = SinkTarget::DiscordWebhook("http://127.0.0.1:1/webhook".into());
    let message = message("github.ci-failed", "boom", r#"{"repo":"clawhip"}"#);
    let mut state = DiscordState::new();
    state.begin(&target, &message, 0).unwrap();
    let mut last = None;
    for attempt in 1..4 {
        let error = refused_request(
            "Discord webhook",
            429,
            "429 Too Many Requests",
            r#"{"retry_after":0.0}"#,
        );
        last = Some(state.failed(&target, &message, attempt, error, 0));
    }
    let Some(SendStep::Failed(error)) = last else {
        panic!("expected the last attempt to fail");
    };
    assert!(error.contains("429"));
    assert_eq!(state.dlq.len(), 1);
    assert_eq!(
        state.dlq[0].payload.raw_field("repo"),
        Some("clawhip")
    );
    assert_eq!(state.dlq[0].retry_count, 3);
    assert_eq!(
        dlq_line(&state.dlq[0]),
        r#"clawhip dlq bury: {"original_topic":"github.ci-failed","retry_count":3,"last_error":"Discord webhook failed with 429 Too Many Requests: {\"retry_after\":0.0}","target":"discord:webhook:http://127.0.0.1:1/webhook","event_kind":"github.ci-failed","format":"alert","content":"boom","payload":{"repo":"clawhip"}}"#
    );
}

#[test]
fn requests_to_channels_and_webhooks() {
    let request = discord_request(
        &SinkTarget::DiscordChannel("12".into()),
        "https://discord.com/api/v10",
        "hello",
    )
    .unwrap();
    assert_eq!(request.url, "https://discord.com/api/v10/channels/12/messages");
    assert!(request.with_bot);
    assert_eq!(to_text(&request.body), r#"{"content":"hello"}"#);
    let request =
        discord_request(&SinkTarget::DiscordWebhook("http://h/w".into()), "", "hello").unwrap();
    assert_eq!(request.url, "http://h/w?wait=true");
    assert!(!request.with_bot);
    assert!(discord_request(&SinkTarget::SlackWebhook("http://h/w".into()), "", "x").is_err());
}

#[test]
fn failures_of_the_network_open_the_circuit() {
    assert!(is_infrastructure_failure(&broken_request("Discord webhook", "timed out")));
    assert!(!is_infrastructure_failure(&refused_request(
        "Discord webhook",
        400,
        "400 Bad Request",
        "bad"
    )));
    let judged = |message: &str| {
        is_infrastructure_failure(&DiscordSendError { message: message.into(), retry_after: None })
    };
    assert!(!judged("Discord API request failed with 404 Not Found: limit is 500 items"));
    assert!(!judged("Discord API request failed with 400 Bad Request: job failed with 503 "));
    assert!(!judged("Discord API request failed with 429 Too Many Requests: it failed: wait"));
    assert!(judged("Discord API request failed with 500 Internal Server Error: oops"));
    assert!(judged("Discord API request failed with 501 Not Implemented: oops"));
    assert!(judged("Discord webhook request failed with 505 HTTP Version Not Supported: "));
    assert!(judged("Discord API request failed: peer failed with 404"));
    assert!(!is_infrastructure_failure(&missing_bot()));
    let mut circuit = CircuitBreaker::new();
    assert!(circuit.allow_request(0));
    circuit.record_failure(0);
    circuit.record_failure(0);
    assert!(circuit.allow_request(0));
    circuit.record_failure(0);
    assert!(!circuit.allow_request(1));
    assert!(circuit.allow_request(5_000));
    circuit.record_success();
    assert!(circuit.allow_request(1));
}

#[test]
fn bursts_are_spread() {
    let mut limiter = RateLimiter::new();
    for _ in 0..5 {
        assert_eq!(limiter.delay_for("a", 1_000), 0);
    }
    assert_eq!(limiter.delay_for("a", 1_000), 200);
    assert_eq!(limiter.delay_for("b", 1_000), 0);
}

#[test]
fn targets_have_keys_of_their_own() {
    let channel = target_rate_limit_key(&SinkTarget::DiscordChannel("1".into()));
    let webhook = target_rate_limit_key(&SinkTarget::DiscordWebhook("1".into()));
    assert_ne!(channel, webhook);
}
