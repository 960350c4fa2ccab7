use std::sync::Arc;

use clawhip::config::{AppConfig, ProvidersConfig, RouteRule, WorkspaceMonitor};
use clawhip::discord::discord_request;
use clawhip::events::IncomingEvent;
use clawhip::hook_install::{claude_settings_text, install_root, NativeInstallScope};
use clawhip::lifecycle::check_repo_root;
use clawhip::router::{Router, SinkTarget};
use clawhip::schedule::{CronField, CronSchedule};
use clawhip::summarize::{build_summarizer, gemini_summary, ServiceEnv};
use clawhip::toml_text::codex_config_text;

fn route(sink: &str) -> RouteRule {
    RouteRule { event: "git.*".into(), sink: sink.into(), ..RouteRule::default() }
}

fn fault_of(route: RouteRule) -> String {
    let mut config = AppConfig::default();
    config.providers.discord.bot_token = Some("token".into());
    config.routes.push(route);
    config.validate(&None).unwrap_err()
}

#[test]
fn faults_of_routes() {
    assert_eq!(fault_of(route(" ")), "route #1 (git.*) must set a sink");
    assert_eq!(fault_of(route("irc")), "route #1 (git.*) uses unsupported sink 'irc'");
    assert_eq!(
        fault_of(route("slack")),
        "route #1 (git.*) must set webhook or slack_webhook when sink = \"slack\""
    );
    let url = Some("https://hooks.slack.com/services/T/B/abc".to_string());
    assert_eq!(
        fault_of(RouteRule { webhook: url.clone(), slack_webhook: url.clone(), ..route("slack") }),
        "route #1 (git.*) cannot set both webhook and slack_webhook for Slack delivery"
    );
    assert_eq!(
        fault_of(RouteRule { webhook: url.clone(), channel: Some("1".into()), ..route("slack") }),
        "route #1 (git.*) cannot set channel when sink = \"slack\""
    );
    assert_eq!(
        fault_of(RouteRule { webhook: url, channel: Some("1".into()), ..route("discord") }),
        "route #1 (git.*) cannot set both channel and webhook"
    );
}

#[test]
fn faults_of_workspaces() {
    let fault = |monitor: WorkspaceMonitor| {
        let mut config = AppConfig::default();
        config.providers.discord.bot_token = Some("token".into());
        config.monitors.workspace.push(monitor);
        config.validate(&None).unwrap_err()
    };
    let named = |path: &str| WorkspaceMonitor { path: path.into(), ..WorkspaceMonitor::default() };
    assert_eq!(fault(named(" ")), "workspace monitor #1 must set path");
    assert_eq!(
        fault(WorkspaceMonitor { watch_dirs: Vec::new(), ..named("/repo") }),
        "workspace monitor #1 must set at least one watch_dirs entry"
    );
    assert_eq!(
        fault(named("/repo")),
        "workspace monitor #1 has no channel and no default Discord destination"
    );
}

#[test]
fn events_that_lead_nowhere() {
    let resolve = |routes: Vec<RouteRule>| {
        let config = AppConfig { routes, ..AppConfig::default() };
        let event = IncomingEvent::git_commit(
            "repo".into(),
            "main".into(),
            "0123456789".into(),
            "summary".into(),
            None,
        );
        Router::new(Arc::new(config)).resolve(&event).unwrap_err()
    };
    assert_eq!(resolve(Vec::new()), "no channel configured for event git.commit");
    assert_eq!(
        resolve(vec![route("slack")]),
        "no Slack webhook configured for event git.commit"
    );
    assert_eq!(resolve(vec![route("irc")]), "unsupported sink 'irc' for event git.commit");
}

#[test]
fn faults_of_schedules() {
    let fault = |text: &str| CronSchedule::parse(text).unwrap_err();
    assert_eq!(
        fault("* * * *"),
        "cron schedule '* * * *' must have exactly 5 fields (minute hour day-of-month month day-of-week)"
    );
    assert_eq!(fault("60 * * * *"), "cron value '60' is outside 0..=59");
    assert_eq!(fault("x * * * *"), "invalid cron value 'x'");
    assert_eq!(fault("*/x * * * *"), "invalid cron step 'x'");
    assert_eq!(fault("*/0 * * * *"), "cron step must be at least 1 in '*/0'");
    assert_eq!(fault("5-1 * * * *"), "invalid descending cron range '5-1'");
    assert_eq!(CronField::parse(" ", 0, 59, false).unwrap_err(), "empty cron field");
}

#[test]
fn faults_of_installations() {
    assert_eq!(
        install_root(NativeInstallScope::Global, &None, "/here", &None).unwrap_err(),
        "HOME environment variable not set"
    );
    assert_eq!(
        claude_settings_text("settings.json", Some("[]"), "run").unwrap_err(),
        "settings.json must contain a JSON object"
    );
    assert!(claude_settings_text("settings.json", Some("{"), "run").is_err());
    assert_eq!(
        codex_config_text(Some("features = 1")).unwrap_err(),
        "codex [features] must be a TOML table"
    );
    assert_eq!(
        check_repo_root(true, false).unwrap_err(),
        "run this command from the clawhip git clone root"
    );
}

#[test]
fn faults_of_services() {
    let env = ServiceEnv { openrouter_api_key: None, openai_api_key: None, openai_base_url: None };
    let fault = |name: &str| match build_summarizer(name, &ProvidersConfig::default(), &env) {
        Ok(_) => String::new(),
        Err(error) => error,
    };
    assert_eq!(fault("other:model"), "unsupported summarizer backend 'other:model'");
    assert_eq!(
        fault("openrouter:model"),
        "OPENROUTER_API_KEY is required for openrouter summarizer; set it via [providers.openrouter].api_key in config.toml or as an environment variable"
    );
    let failed = gemini_summary("content", false, "exit status: 1", "", " broken ");
    assert_eq!(
        failed.err().as_deref(),
        Some("gemini CLI exited with status exit status: 1: broken")
    );
    let empty = gemini_summary("content", true, "exit status: 0", " ", "");
    assert_eq!(empty.err().as_deref(), Some("gemini returned an empty summary"));
    let target = SinkTarget::SlackWebhook("https://hooks.slack.com/services/T/B/abc".into());
    assert_eq!(
        discord_request(&target, "https://discord.com/api/v10", "hi").err().as_deref(),
        Some("cannot send Slack webhook via Discord client")
    );
}
