use std::time::Duration;

use clawhip::config::{
    default_sink_name, AppConfig, CronConfig, CronJob, CronJobKind, DiscordConfig,
    ProvidersConfig, RouteRule, SlackConfig, TmuxSessionMonitor, WorkspaceMonitor,
};
use clawhip::config_rules::{default_config_path, has_legacy_discord};
use clawhip::editor::{editor_choice, EditorChoice};
use clawhip::events::MessageFormat;
use clawhip::workspace::{default_workspace_debounce_ms, default_workspace_watch_dirs};

#[test]
fn discord_token_source_prefers_env_over_config() {
    let mut config = AppConfig::default();
    config.providers.discord.bot_token = Some("config-token".into());

    assert_eq!(config.discord_token_source_with(|_| None), "config");
    assert_eq!(
        config.effective_token_with(|_| None).as_deref(),
        Some("config-token")
    );

    let token = config.effective_token_with(|name| {
        (name == "DISCORD_TOKEN").then_some("env-token".to_string())
    });
    assert_eq!(token.as_deref(), Some("env-token"));
    assert_eq!(
        config.discord_token_source_with(|name| {
            (name == "DISCORD_TOKEN").then_some("env-token".to_string())
        }),
        "env"
    );
}

#[test]
fn discord_token_source_reports_missing_when_unset() {
    let config = AppConfig::default();

    assert_eq!(config.discord_token_source_with(|_| None), "missing");
    assert_eq!(config.effective_token_with(|_| None), None);
}

#[test]
fn legacy_env_token_is_still_supported() {
    let config = AppConfig::default();

    let token = config.effective_token_with(|name| {
        (name == "CLAWHIP_DISCORD_BOT_TOKEN").then_some("legacy-token".to_string())
    });

    assert_eq!(token.as_deref(), Some("legacy-token"));
    assert_eq!(
        config.discord_token_source_with(|name| {
            (name == "CLAWHIP_DISCORD_BOT_TOKEN").then_some("legacy-token".to_string())
        }),
        "env"
    );
}

#[test]
fn provider_discord_token_is_used_when_present() {
    let mut config = AppConfig::default();
    config.providers.discord.bot_token = Some("config-token".into());

    assert_eq!(config.discord_token_source_with(|_| None), "config");
    assert_eq!(
        config.effective_token_with(|_| None).as_deref(),
        Some("config-token")
    );
}

#[test]
fn webhook_route_satisfies_delivery_validation_without_bot_token() {
    let config = AppConfig {
        routes: vec![RouteRule {
            event: "tmux.keyword".into(),
            webhook: Some("https://discord.com/api/webhooks/123/abc".into()),
            ..RouteRule::default()
        }],
        ..AppConfig::default()
    };

    assert!(config.validate(&None).is_ok());
}

#[test]
fn slack_webhook_route_satisfies_delivery_validation_without_bot_token() {
    let config = AppConfig {
        routes: vec![RouteRule {
            event: "tmux.keyword".into(),
            slack_webhook: Some("https://hooks.slack.com/services/T/B/abc".into()),
            ..RouteRule::default()
        }],
        ..AppConfig::default()
    };

    assert!(config.validate(&None).is_ok());
    assert_eq!(config.webhook_route_count(), 1);
}

#[test]
fn route_cannot_set_channel_and_webhook() {
    let config = AppConfig {
        providers: ProvidersConfig {
            discord: DiscordConfig {
                bot_token: Some("token".into()),
                legacy_default_channel: None,
            },
            slack: SlackConfig::default(),
            ..Default::default()
        },
        routes: vec![RouteRule {
            event: "tmux.keyword".into(),
            sink: default_sink_name(),
            channel: Some("123".into()),
            webhook: Some("https://discord.com/api/webhooks/123/abc".into()),
            slack_webhook: None,
            ..RouteRule::default()
        }],
        ..AppConfig::default()
    };

    let error = config.validate(&None).unwrap_err();
    assert!(error.contains("cannot set both channel and webhook"));
}

#[test]
fn slack_route_cannot_set_channel() {
    let config = AppConfig {
        routes: vec![RouteRule {
            event: "tmux.keyword".into(),
            sink: "slack".into(),
            channel: Some("123".into()),
            webhook: Some("https://hooks.slack.com/services/T/B/abc".into()),
            ..RouteRule::default()
        }],
        ..AppConfig::default()
    };

    let error = config.validate(&None).unwrap_err();
    assert!(error.contains("cannot set channel when sink = \"slack\""));
}

#[test]
fn slack_route_can_use_generic_webhook_field() {
    let config = AppConfig {
        routes: vec![RouteRule {
            event: "tmux.keyword".into(),
            sink: "slack".into(),
            webhook: Some("https://hooks.slack.com/services/T/B/abc".into()),
            ..RouteRule::default()
        }],
        ..AppConfig::default()
    };

    assert!(config.validate(&None).is_ok());
    assert_eq!(config.webhook_route_count(), 1);
}

#[test]
fn setup_scaffold_adds_tmux_keyword_webhook_route() {
    let mut config = AppConfig::default();
    config.scaffold_webhook_quickstart(" https://discord.com/api/webhooks/123/abc ".into());

    assert_eq!(config.routes.len(), 1);
    assert_eq!(config.routes[0].event, "*");
    assert_eq!(
        config.routes[0].webhook.as_deref(),
        Some("https://discord.com/api/webhooks/123/abc")
    );
    assert_eq!(config.routes[0].sink, "discord");
    assert_eq!(config.routes[0].channel, None);
}

#[test]
fn tmux_session_monitor_defaults_keyword_window_to_thirty_seconds() {
    let session = TmuxSessionMonitor::default();
    assert_eq!(session.keyword_window_secs, 30);
}

#[test]
fn dispatch_config_defaults_ci_batch_window_to_thirty_seconds() {
    let config = AppConfig::default();
    assert_eq!(config.dispatch.ci_batch_window_secs, 30);
}

#[test]
fn dispatch_config_defaults_routine_batch_window_to_five_seconds() {
    let config = AppConfig::default();
    assert_eq!(config.dispatch.routine_batch_window_secs, 5);
    assert_eq!(
        config.dispatch.routine_batch_window(),
        Some(Duration::from_secs(5))
    );
}

#[test]
fn cron_config_defaults_are_backward_compatible() {
    let config = AppConfig::default();
    assert_eq!(config.cron.poll_interval_secs, 30);
    assert!(config.cron.jobs.is_empty());
}

#[test]
fn cron_validation_rejects_duplicate_ids() {
    let config = AppConfig {
        providers: ProvidersConfig {
            discord: DiscordConfig {
                bot_token: Some("token".into()),
                legacy_default_channel: None,
            },
            slack: SlackConfig::default(),
            ..Default::default()
        },
        cron: CronConfig {
            poll_interval_secs: 30,
            jobs: vec![
                CronJob {
                    id: "dup".into(),
                    schedule: "*/5 * * * *".into(),
                    timezone: "UTC".into(),
                    enabled: true,
                    channel: Some("ops".into()),
                    mention: None,
                    format: None,
                    kind: CronJobKind::CustomMessage {
                        message: "first".into(),
                    },
                },
                CronJob {
                    id: "dup".into(),
                    schedule: "0 * * * *".into(),
                    timezone: "UTC".into(),
                    enabled: true,
                    channel: Some("ops".into()),
                    mention: None,
                    format: None,
                    kind: CronJobKind::CustomMessage {
                        message: "second".into(),
                    },
                },
            ],
        },
        ..AppConfig::default()
    };

    let error = config.validate(&None).unwrap_err();
    assert!(error.contains("duplicate cron job id 'dup'"));
}

#[test]
fn normalize_trims_workspace_monitor_fields() {
    let mut config = AppConfig::default();
    config.monitors.workspace.push(WorkspaceMonitor {
        path: " /tmp/repo ".into(),
        watch_dirs: vec![" .omx/state ".into(), "".into(), " .omc/state ".into()],
        discover_worktrees: true,
        channel: Some(" 123 ".into()),
        mention: Some(" <@1> ".into()),
        format: Some(MessageFormat::Compact),
        events: vec!["workspace.*".into()],
        poll_interval_secs: Some(5),
        debounce_ms: 2000,
    });

    config.normalize();
    let monitor = &config.monitors.workspace[0];
    assert_eq!(monitor.path, "/tmp/repo");
    assert_eq!(monitor.watch_dirs, vec![".omx/state", ".omc/state"]);
    assert_eq!(monitor.channel.as_deref(), Some("123"));
    assert_eq!(monitor.mention.as_deref(), Some("<@1>"));
}

#[test]
fn workspace_monitor_defaults_are_backward_compatible() {
    let mut config = AppConfig::default();
    config.providers.discord.bot_token = Some("discord-token".into());
    config.monitors.workspace.push(WorkspaceMonitor {
        path: "/tmp/repo".into(),
        ..WorkspaceMonitor::default()
    });

    assert_eq!(config.monitors.workspace.len(), 1);
    let monitor = &config.monitors.workspace[0];
    assert_eq!(monitor.watch_dirs, default_workspace_watch_dirs());
    assert_eq!(monitor.debounce_ms, default_workspace_debounce_ms());
    assert_eq!(monitor.poll_interval_secs, None);
    assert!(!monitor.discover_worktrees);
}

fn with_token() -> AppConfig {
    let mut config = AppConfig::default();
    config.providers.discord.bot_token = Some("abc".into());
    config
}

#[test]
fn legacy_discord_settings_move_to_the_providers() {
    let mut config = AppConfig::default();
    config.discord.bot_token = Some("legacy-token".into());
    config.discord.legacy_default_channel = Some("123".into());

    let config = config.finish_loading(true).unwrap();

    assert_eq!(config.providers.discord.bot_token.as_deref(), Some("legacy-token"));
    assert_eq!(
        config.providers.discord.legacy_default_channel.as_deref(),
        Some("123")
    );
    assert_eq!(config.discord.bot_token, None);
    assert_eq!(config.discord.legacy_default_channel, None);
    assert_eq!(config.defaults.channel.as_deref(), Some("123"));
}

#[test]
fn conflicting_legacy_token_is_refused() {
    let mut config = AppConfig::default();
    config.discord.bot_token = Some("legacy-token".into());
    config.providers.discord.bot_token = Some("provider-token".into());

    let error = config.finish_loading(true).unwrap_err();
    assert!(error.contains("conflicting legacy [discord].token"));
}

#[test]
fn zero_windows_are_judged_when_validated() {
    let mut config = with_token();
    config.dispatch.ci_batch_window_secs = 0;
    let config = config.finish_loading(false).unwrap();
    assert_eq!(config.dispatch.ci_batch_window_secs, 0);
    assert!(config
        .validate(&None)
        .unwrap_err()
        .contains("dispatch.ci_batch_window_secs must be at least 1"));
    assert_eq!(config.dispatch.ci_batch_window(), Duration::from_secs(1));

    let mut config = with_token();
    config.dispatch.routine_batch_window_secs = 0;
    assert_eq!(config.dispatch.routine_batch_window(), None);
    assert!(config.validate(&None).is_ok());
    config.dispatch.ci_batch_window_secs = 90;
    assert_eq!(config.dispatch.ci_batch_window(), Duration::from_secs(90));
    assert!(config.validate(&None).is_ok());
}

#[test]
fn normalizing_jobs_fills_in_the_time_zone() {
    let mut config = with_token();
    config.cron.jobs.push(CronJob {
        id: "dev-followup".into(),
        schedule: "*/30 * * * *".into(),
        timezone: " ".into(),
        enabled: true,
        channel: Some("ops".into()),
        mention: Some(" <@1> ".into()),
        format: None,
        kind: CronJobKind::CustomMessage { message: " ping ".into() },
    });
    let config = config.finish_loading(false).unwrap();
    let job = &config.cron.jobs[0];
    assert_eq!(job.mention.as_deref(), Some("<@1>"));
    assert_eq!(job.timezone, "UTC");
    match &job.kind {
        CronJobKind::CustomMessage { message } => assert_eq!(message, "ping"),
    }
    assert!(config.validate(&None).is_ok());
}

#[test]
fn normalizing_twice_changes_nothing() {
    let mut config = with_token();
    config.defaults.channel = Some("  ops ".into());
    config.normalize();
    assert_eq!(config.defaults.channel.as_deref(), Some("ops"));
    config.normalize();
    assert_eq!(config.defaults.channel.as_deref(), Some("ops"));
}

#[test]
fn config_without_delivery_is_refused() {
    assert!(AppConfig::default().validate(&None).is_err());
    assert!(AppConfig::default().validate(&Some("token".into())).is_ok());
}

#[test]
fn config_path_follows_what_is_asked_for() {
    assert_eq!(
        default_config_path(&Some("/etc/clawhip.toml".into()), &Some("/home/me".into())),
        "/etc/clawhip.toml"
    );
    assert_eq!(
        default_config_path(&None, &Some("/home/me".into())),
        "/home/me/.clawhip/config.toml"
    );
    assert_eq!(default_config_path(&None, &None), "./.clawhip/config.toml");
}

#[test]
fn addresses_and_tokens_of_the_environment_come_first() {
    let mut config = AppConfig::default();
    assert_eq!(config.daemon_base_url(&None), "http://127.0.0.1:25294");
    assert_eq!(
        config.daemon_base_url(&Some("http://other:1".into())),
        "http://other:1"
    );
    config.monitors.github_token = Some("config".into());
    assert_eq!(config.monitor_github_token(&None).as_deref(), Some("config"));
    assert_eq!(
        config.monitor_github_token(&Some("env".into())).as_deref(),
        Some("env")
    );
}

#[test]
fn choices_of_the_dialogue() {
    assert_eq!(editor_choice(" 1 \n"), EditorChoice::BotToken);
    assert_eq!(editor_choice("2\n"), EditorChoice::BaseUrl);
    assert_eq!(editor_choice("3"), EditorChoice::DefaultChannel);
    assert_eq!(editor_choice("4"), EditorChoice::DefaultFormat);
    assert_eq!(editor_choice("5"), EditorChoice::Save);
    assert_eq!(editor_choice("6"), EditorChoice::Discard);
    assert_eq!(editor_choice("7"), EditorChoice::Hint);
    assert_eq!(editor_choice("8"), EditorChoice::Unknown);
}

#[test]
fn answers_of_the_dialogue_are_taken_in() {
    let mut config = AppConfig::default();
    config.edit(EditorChoice::BotToken, " secret \n").unwrap();
    assert_eq!(config.providers.discord.bot_token.as_deref(), Some("secret"));
    config.edit(EditorChoice::BotToken, "\n").unwrap();
    assert_eq!(config.providers.discord.bot_token, None);
    assert_eq!(
        config.editor_question(EditorChoice::BaseUrl).as_deref(),
        Some("Daemon base URL [http://127.0.0.1:25294]")
    );
    config.edit(EditorChoice::BaseUrl, "http://h:1\n").unwrap();
    assert_eq!(config.daemon.base_url, "http://h:1");
    config.edit(EditorChoice::DefaultFormat, "raw\n").unwrap();
    assert_eq!(config.defaults.format, MessageFormat::Raw);
    config.edit(EditorChoice::DefaultFormat, "\n").unwrap();
    assert_eq!(config.defaults.format, MessageFormat::Raw);
    assert_eq!(
        config.edit(EditorChoice::DefaultFormat, "loud\n").unwrap_err(),
        "unsupported message format: loud"
    );
    assert_eq!(config.editor_question(EditorChoice::Save), None);
}

#[test]
fn summary_of_a_configuration() {
    let mut config = AppConfig::default();
    config.dispatch.routine_batch_window_secs = 0;
    let lines = config.summary_lines(&None);
    assert_eq!(lines.len(), 14);
    assert_eq!(lines[0], "Current config summary:");
    assert_eq!(lines[1], "  Discord token source: missing");
    assert_eq!(lines[3], "  Bind host/port: 0.0.0.0:25294");
    assert_eq!(lines[4], "  CI batch window: 30s");
    assert_eq!(lines[5], "  Routine batch window: disabled");
    assert_eq!(lines[6], "  Default channel: <unset>");
    assert_eq!(lines[13], "  Cron jobs: 0");
}

#[test]
fn legacy_section_is_found_in_the_text() {
    assert_eq!(has_legacy_discord("[discord]\ntoken = \"legacy-token\"\n"), Some(true));
    assert_eq!(has_legacy_discord("[providers.discord]\ntoken = \"abc\"\n"), Some(false));
    assert_eq!(has_legacy_discord(""), Some(false));
    assert_eq!(has_legacy_discord("[discord"), None);
}
