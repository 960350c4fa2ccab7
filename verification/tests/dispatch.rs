use std::sync::Arc;
use std::time::Duration;

use clawhip::codec::parse_json;
use clawhip::config::{AppConfig, DispatchConfig, RouteRule};
use clawhip::dispatch::{ci_batch_key, extract_run_id, GitHubCiBatcher};
use clawhip::dispatcher::{sink_message, DeliveryStep, DispatchInput, Dispatcher};
use clawhip::events::IncomingEvent;
use clawhip::json::Json;
use clawhip::render::DefaultRenderer;
use clawhip::router::Router;

fn ci(kind: &str, workflow: &str, status: &str, conclusion: Option<&str>, done: bool) -> IncomingEvent {
    let mut event = IncomingEvent::github_ci(
        kind,
        "clawhip".into(),
        Some(86),
        workflow.into(),
        status.into(),
        conclusion.map(str::to_string),
        "abc".into(),
        format!("https://github.com/org/repo/actions/runs/123/jobs/{workflow}"),
        Some("feat/batch".into()),
        None,
    );
    event.payload.insert("run_job_count", Json::unsigned(2));
    event.payload.insert("run_all_terminal", Json::Bool(done));
    event
}

fn dispatcher(config: AppConfig) -> Dispatcher {
    Dispatcher::new(
        Router::new(Arc::new(config)),
        vec!["discord".into(), "slack".into()],
        Duration::from_secs(30),
    )
}

#[test]
fn batch_key_prefers_workflow_run_id() {
    let payload = parse_json(
        r#"{
            "repo": "clawhip",
            "number": 86,
            "sha": "abc",
            "url": "https://github.com/org/repo/actions/runs/123456789/jobs/42"
        }"#,
    )
    .unwrap();
    assert_eq!(ci_batch_key(&payload), "clawhip:86:abc:123456789");
}

#[test]
fn dispatcher_uses_provided_ci_batch_window() {
    let router = Router::new(Arc::new(AppConfig::default()));
    let dispatcher = Dispatcher::new(router, Vec::new(), Duration::from_secs(90));

    assert_eq!(dispatcher.ci_batcher.window, Duration::from_secs(90));
}

#[test]
fn batcher_flushes_when_all_jobs_for_run_are_terminal() {
    let mut batcher = GitHubCiBatcher::new(Duration::from_secs(30));
    let now_ms = 1_775_000_000_000;

    let mut first = IncomingEvent::github_ci(
        "github.ci-started",
        "clawhip".into(),
        Some(86),
        "Build".into(),
        "in_progress".into(),
        None,
        "abc".into(),
        "https://github.com/org/repo/actions/runs/123/jobs/1".into(),
        Some("feat/batch".into()),
        None,
    );
    first.payload.insert("run_job_count", Json::unsigned(2));
    first.payload.insert("run_all_terminal", Json::Bool(false));
    assert!(batcher.observe(&first, now_ms).is_empty());

    let mut second = IncomingEvent::github_ci(
        "github.ci-passed",
        "clawhip".into(),
        Some(86),
        "Build".into(),
        "completed".into(),
        Some("success".into()),
        "abc".into(),
        "https://github.com/org/repo/actions/runs/123/jobs/1".into(),
        Some("feat/batch".into()),
        None,
    );
    second.payload.insert("run_job_count", Json::unsigned(2));
    second.payload.insert("run_all_terminal", Json::Bool(true));
    assert!(batcher.observe(&second, now_ms).is_empty());

    let mut third = IncomingEvent::github_ci(
        "github.ci-failed",
        "clawhip".into(),
        Some(86),
        "Test".into(),
        "completed".into(),
        Some("failure".into()),
        "abc".into(),
        "https://github.com/org/repo/actions/runs/123/jobs/2".into(),
        Some("feat/batch".into()),
        None,
    );
    third.payload.insert("run_job_count", Json::unsigned(2));
    third.payload.insert("run_all_terminal", Json::Bool(true));
    let flushed = batcher.observe(&third, now_ms);
    assert_eq!(flushed.len(), 1);
    assert_eq!(flushed[0].canonical_kind(), "github.ci-failed");
    assert_eq!(flushed[0].payload.count("total_count"), Some(2));
}

#[test]
fn dispatcher_uses_configured_ci_batch_window_from_app_config() {
    let config = AppConfig {
        dispatch: DispatchConfig { ci_batch_window_secs: 90, ..DispatchConfig::default() },
        ..AppConfig::default()
    };

    let dispatcher = Dispatcher::new(
        Router::new(Arc::new(AppConfig::default())),
        vec!["discord".into(), "slack".into()],
        Duration::from_secs(config.dispatch.ci_batch_window_secs),
    );

    assert_eq!(
        dispatcher.ci_batcher.window,
        Duration::from_secs(config.dispatch.ci_batch_window_secs)
    );
}

#[test]
fn dispatcher_stops_cleanly_when_channel_closes() {
    let mut dispatcher = dispatcher(AppConfig::default());
    assert!(dispatcher.handle(DispatchInput::Closed, 0).is_empty());
}

#[test]
fn dispatcher_batches_ci_events_into_single_delivery() {
    let mut dispatcher = dispatcher(AppConfig::default());
    let now_ms = 1_000;
    assert!(dispatcher.window_fits(now_ms));
    for workflow in ["Build", "Test"] {
        let event = ci("github.ci-passed", workflow, "completed", Some("success"), true);
        assert!(dispatcher.handle(DispatchInput::Event(event), now_ms).is_empty());
    }
    assert!(dispatcher.handle(DispatchInput::Tick, now_ms + 29_999).is_empty());
    let events = dispatcher.handle(DispatchInput::Tick, now_ms + 30_000);
    assert_eq!(events.len(), 1);

    let config = AppConfig {
        routes: vec![RouteRule {
            event: "github.ci-*".into(),
            sink: "discord".into(),
            webhook: Some("http://127.0.0.1:1/webhook".into()),
            ..RouteRule::default()
        }],
        ..AppConfig::default()
    };
    dispatcher.router = Router::new(Arc::new(config));
    let steps = dispatcher.plan_deliveries(&events[0], &DefaultRenderer).unwrap();
    assert_eq!(steps.len(), 1);
    let DeliveryStep::Send(delivery, body) = steps.into_iter().next().unwrap() else {
        panic!("expected a message");
    };
    let message = sink_message(&events[0], &delivery, body.text);
    assert_eq!(message.event_kind, "github.ci-passed");
    assert!(message.content.contains("2/2 passed"));
    assert!(message.content.contains("Build, Test"));
}

#[test]
fn dispatcher_plans_every_delivery() {
    let route = |template: &str, sink: &str| RouteRule {
        event: "tmux.keyword".into(),
        sink: sink.into(),
        webhook: Some("http://127.0.0.1:1/webhook".into()),
        template: Some(template.into()),
        ..RouteRule::default()
    };
    let config = AppConfig {
        routes: vec![route("first", "discord"), route("second", "slack")],
        ..AppConfig::default()
    };
    let mut dispatcher = dispatcher(config);
    dispatcher.sinks = vec!["slack".into()];
    let event =
        IncomingEvent::tmux_keyword("issue-24".into(), "error".into(), "boom".into(), None);
    let events = dispatcher.handle(DispatchInput::Event(event), 0);
    assert_eq!(events.len(), 1);
    let steps = dispatcher.plan_deliveries(&events[0], &DefaultRenderer).unwrap();
    assert_eq!(steps.len(), 2);
    assert!(matches!(&steps[0], DeliveryStep::MissingSink(delivery) if delivery.sink == "discord"));
    assert!(matches!(&steps[1], DeliveryStep::Send(_, body) if body.text == "second"));
}

#[test]
fn closing_lets_every_batch_out() {
    let mut batcher = GitHubCiBatcher::new(Duration::from_secs(30));
    let event = ci("github.ci-started", "Build", "in_progress", None, false);
    assert!(batcher.observe(&event, 0).is_empty());
    let events = batcher.flush_all();
    assert_eq!(events.len(), 1);
    assert_eq!(events[0].kind, "github.ci-started");
    assert!(batcher.flush_all().is_empty());
    assert!(batcher.flush_due(30_000).is_empty());
}

#[test]
fn cancelled_and_skipped_jobs_are_counted_apart() {
    let mut batcher = GitHubCiBatcher::new(Duration::from_secs(1));
    batcher.observe(&ci("github.ci-cancelled", "Build", "completed", Some("cancelled"), true), 0);
    batcher.observe(&ci("github.ci-passed", "Test", "completed", Some("skipped"), true), 0);
    let events = batcher.flush_due(1_000);
    assert_eq!(events.len(), 1);
    assert_eq!(events[0].kind, "github.ci-passed");
    assert_eq!(events[0].payload.count("cancelled_count"), Some(1));
    assert_eq!(events[0].payload.count("skipped_count"), Some(1));
    assert_eq!(events[0].payload.count("passed_count"), Some(0));
}

#[test]
fn number_of_a_run_in_an_address() {
    assert_eq!(extract_run_id("https://h/actions/runs/7/jobs/1").as_deref(), Some("7"));
    assert_eq!(extract_run_id("https://h/actions/runs/"), None);
    assert_eq!(extract_run_id("https://h/"), None);
}

#[test]
fn run_without_an_unfinished_job_waits_and_lists_its_jobs_in_order() {
    let mut batcher = GitHubCiBatcher::new(Duration::from_secs(30));
    let now_ms = 1_775_000_000_000;
    for workflow in ["Test", "Build", "Lint"] {
        let job = ci("github.ci-passed", workflow, "completed", Some("success"), true);
        assert!(batcher.observe(&job, now_ms).is_empty());
    }
    assert!(batcher.flush_due(now_ms + 29_999).is_empty());
    let events = batcher.flush_due(now_ms + 30_000);
    assert_eq!(events.len(), 1);
    let workflows: Vec<_> = events[0]
        .payload
        .items("jobs")
        .unwrap()
        .iter()
        .map(|job| job.raw_field("workflow").unwrap())
        .collect();
    assert_eq!(workflows, vec!["Build", "Lint", "Test"]);
}
