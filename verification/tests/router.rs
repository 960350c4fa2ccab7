use std::sync::Arc;

use clawhip::codec::parse_json;
use clawhip::config::{default_sink_name, AppConfig, DefaultsConfig, RouteRule};
use clawhip::events::{IncomingEvent, MessageFormat, RoutingMetadata};
use clawhip::json::Json;
use clawhip::normalize::normalize_event;
use clawhip::render::DefaultRenderer;
use clawhip::router::{
    resolve_tmux_session_channel, resolve_tmux_session_channel_with_metadata, ResolvedDelivery,
    Router, SinkTarget,
};

fn json(text: &str) -> Json {
    parse_json(text).unwrap()
}

fn preview_delivery(router: &Router, event: &IncomingEvent) -> Result<ResolvedDelivery, String> {
    let mut deliveries = router.resolve(event)?;
    if deliveries.len() != 1 {
        return Err(format!("expected exactly one delivery, got {}", deliveries.len()));
    }
    Ok(deliveries.remove(0))
}

fn preview(
    router: &Router,
    event: &IncomingEvent,
) -> Result<(String, MessageFormat, String), String> {
    let delivery = preview_delivery(router, event)?;
    assert!(!delivery.allow_dynamic_tokens);
    let content = router.render_delivery(event, &delivery, &DefaultRenderer)?;
    match delivery.target {
        SinkTarget::DiscordChannel(channel) => Ok((channel, delivery.format, content)),
        SinkTarget::DiscordWebhook(_) | SinkTarget::SlackWebhook(_) => {
            Err("matched route uses a webhook instead of a channel".into())
        }
    }
}

#[test]
fn resolve_returns_all_matching_deliveries_in_route_order() {
    let config = AppConfig {
        defaults: DefaultsConfig {
            channel: Some("default".into()),
            format: MessageFormat::Compact,
        },
        routes: vec![
            RouteRule {
                event: "tmux.keyword".into(),
                sink: "discord".into(),
                filter: Default::default(),
                channel: Some("ops".into()),
                webhook: None,
                slack_webhook: None,
                mention: Some("@ops".into()),
                allow_dynamic_tokens: false,
                format: Some(MessageFormat::Alert),
                template: None,
            },
            RouteRule {
                event: "tmux.*".into(),
                sink: "discord".into(),
                filter: Default::default(),
                channel: Some("eng".into()),
                webhook: None,
                slack_webhook: None,
                mention: Some("@eng".into()),
                allow_dynamic_tokens: false,
                format: Some(MessageFormat::Compact),
                template: Some("duplicate: {line}".into()),
            },
        ],
        ..AppConfig::default()
    };
    let router = Router::new(Arc::new(config));
    let event =
        IncomingEvent::tmux_keyword("issue-24".into(), "error".into(), "boom".into(), None);

    let deliveries = router.resolve(&event).unwrap();

    assert_eq!(deliveries.len(), 2);
    assert_eq!(
        deliveries[0].target,
        SinkTarget::DiscordChannel("ops".into())
    );
    assert_eq!(deliveries[0].format, MessageFormat::Alert);
    let first = router
        .render_delivery(&event, &deliveries[0], &DefaultRenderer)
        
        .unwrap();
    assert!(first.starts_with("@ops "));
    assert!(first.contains("boom"));
    assert_eq!(
        deliveries[1].target,
        SinkTarget::DiscordChannel("eng".into())
    );
    assert_eq!(deliveries[1].format, MessageFormat::Compact);
    let second = router
        .render_delivery(&event, &deliveries[1], &DefaultRenderer)
        
        .unwrap();
    assert_eq!(second, "@eng duplicate: boom");
}

#[test]
fn resolve_uses_defaults_when_no_routes_match() {
    let config = AppConfig {
        defaults: DefaultsConfig {
            channel: Some("fallback".into()),
            format: MessageFormat::Alert,
        },
        routes: vec![RouteRule {
            event: "github.*".into(),
            sink: "discord".into(),
            filter: Default::default(),
            channel: Some("github".into()),
            webhook: None,
            slack_webhook: None,
            mention: None,
            allow_dynamic_tokens: false,
            format: Some(MessageFormat::Compact),
            template: None,
        }],
        ..AppConfig::default()
    };
    let router = Router::new(Arc::new(config));
    let event = IncomingEvent::custom(None, "wake up".into());

    let deliveries = router.resolve(&event).unwrap();

    assert_eq!(deliveries.len(), 1);
    assert_eq!(deliveries[0].sink, default_sink_name());
    assert_eq!(
        deliveries[0].target,
        SinkTarget::DiscordChannel("fallback".into())
    );
    assert_eq!(deliveries[0].format, MessageFormat::Alert);
    assert_eq!(
        router
            .render_delivery(&event, &deliveries[0], &DefaultRenderer)
            
            .unwrap(),
        "🚨 wake up"
    );
}

#[test]
fn preview_uses_filtered_route_overrides() {
    let config = AppConfig {
        defaults: DefaultsConfig {
            channel: Some("default".into()),
            format: MessageFormat::Compact,
        },
        routes: vec![RouteRule {
            event: "tmux.*".into(),
            sink: "discord".into(),
            filter: [("session".to_string(), "issue-*".to_string())]
                .into_iter()
                .collect(),
            channel: Some("route".into()),
            webhook: None,
            slack_webhook: None,
            mention: None,
            allow_dynamic_tokens: false,
            format: Some(MessageFormat::Alert),
            template: None,
        }],
        ..AppConfig::default()
    };
    let router = Router::new(Arc::new(config));
    let event =
        IncomingEvent::tmux_keyword("issue-1440".into(), "error".into(), "boom".into(), None);

    let (channel, format, content) = preview(&router, &event).unwrap();
    assert_eq!(channel, "route");
    assert_eq!(format, MessageFormat::Alert);
    assert_eq!(
        content,
        "🚨 tmux session issue-1440 hit keyword 'error': boom"
    );
}

#[test]
fn preview_matches_git_routes_on_worktree_path() {
    let config = AppConfig {
        defaults: DefaultsConfig {
            channel: Some("default".into()),
            format: MessageFormat::Compact,
        },
        routes: vec![RouteRule {
            event: "git.commit".into(),
            sink: "discord".into(),
            filter: [("worktree_path".to_string(), "*/issue-115".to_string())]
                .into_iter()
                .collect(),
            channel: Some("worktrees".into()),
            webhook: None,
            slack_webhook: None,
            mention: None,
            allow_dynamic_tokens: false,
            format: Some(MessageFormat::Compact),
            template: None,
        }],
        ..AppConfig::default()
    };
    let router = Router::new(Arc::new(config));
    let event = IncomingEvent::git_commit(
        "clawhip".into(),
        "feat/issue-115".into(),
        "1234567890abcdef".into(),
        "ship it".into(),
        None,
    )
    .with_repo_context(
        Some("/repo/clawhip".into()),
        Some("/repo/.worktrees/issue-115".into()),
    );

    let (channel, format, content) = preview(&router, &event).unwrap();
    assert_eq!(channel, "worktrees");
    assert_eq!(format, MessageFormat::Compact);
    assert_eq!(
        content,
        "git:clawhip[wt:issue-115]@feat/issue-115 1234567 ship it"
    );
}

#[test]
fn route_level_mention_is_prepended_for_custom() {
    let config = AppConfig {
        defaults: DefaultsConfig {
            channel: Some("default".into()),
            format: MessageFormat::Compact,
        },
        routes: vec![RouteRule {
            event: "custom".into(),
            sink: "discord".into(),
            filter: Default::default(),
            channel: Some("route".into()),
            webhook: None,
            slack_webhook: None,
            mention: Some("<@1465264645320474637>".into()),
            allow_dynamic_tokens: false,
            format: Some(MessageFormat::Compact),
            template: None,
        }],
        ..AppConfig::default()
    };
    let router = Router::new(Arc::new(config));
    let event = IncomingEvent::custom(None, "wake up".into());
    let (channel, _, content) = preview(&router, &event).unwrap();
    assert_eq!(channel, "route");
    assert_eq!(content, "<@1465264645320474637> wake up");
}

#[test]
fn route_level_mention_is_prepended_for_github_and_tmux() {
    let config = AppConfig {
        defaults: DefaultsConfig {
            channel: Some("default".into()),
            format: MessageFormat::Compact,
        },
        routes: vec![
            RouteRule {
                event: "github.*".into(),
                sink: "discord".into(),
                filter: [("repo".to_string(), "clawhip".to_string())]
                    .into_iter()
                    .collect(),
                channel: Some("gh-route".into()),
                webhook: None,
                slack_webhook: None,
                mention: Some("<@botid>".into()),
                allow_dynamic_tokens: false,
                format: Some(MessageFormat::Alert),
                template: None,
            },
            RouteRule {
                event: "tmux.*".into(),
                sink: "discord".into(),
                filter: [("session".to_string(), "issue-*".to_string())]
                    .into_iter()
                    .collect(),
                channel: Some("tmux-route".into()),
                webhook: None,
                slack_webhook: None,
                mention: Some("<@botid>".into()),
                allow_dynamic_tokens: false,
                format: Some(MessageFormat::Alert),
                template: None,
            },
        ],
        ..AppConfig::default()
    };
    let router = Router::new(Arc::new(config));

    let github_event =
        IncomingEvent::github_issue_opened("clawhip".into(), 5, "boom".into(), None);
    let (_, _, github_content) = preview(&router, &github_event).unwrap();
    assert!(github_content.starts_with("<@botid> "));
    assert!(github_content.contains("boom"));

    let tmux_event =
        IncomingEvent::tmux_keyword("issue-1440".into(), "error".into(), "failed".into(), None);
    let (_, _, tmux_content) = preview(&router, &tmux_event).unwrap();
    assert!(tmux_content.starts_with("<@botid> "));
    assert!(tmux_content.contains("failed"));
}

#[test]
fn custom_send_can_inherit_dynamic_token_opt_in_from_channel_route() {
    let config = AppConfig {
        defaults: DefaultsConfig {
            channel: Some("default".into()),
            format: MessageFormat::Compact,
        },
        routes: vec![RouteRule {
            event: "tmux.*".into(),
            sink: "discord".into(),
            filter: Default::default(),
            channel: Some("dynamic-route".into()),
            webhook: None,
            slack_webhook: None,
            mention: None,
            allow_dynamic_tokens: true,
            format: None,
            template: None,
        }],
        ..AppConfig::default()
    };
    let router = Router::new(Arc::new(config));
    let event = IncomingEvent::custom(Some("dynamic-route".into()), "{now}".into());
    let delivery = preview_delivery(&router, &event).unwrap();
    assert!(delivery.allow_dynamic_tokens);
    let body = router.render_delivery_body(&event, &delivery, &DefaultRenderer).unwrap();
    assert!(body.dynamic);
    assert_eq!(body.text, "{now}");
}

#[test]
fn custom_send_does_not_inherit_dynamic_tokens_without_channel_match() {
    let config = AppConfig {
        defaults: DefaultsConfig {
            channel: Some("default".into()),
            format: MessageFormat::Compact,
        },
        routes: vec![RouteRule {
            event: "tmux.*".into(),
            sink: "discord".into(),
            filter: Default::default(),
            channel: Some("dynamic-route".into()),
            webhook: None,
            slack_webhook: None,
            mention: None,
            allow_dynamic_tokens: true,
            format: None,
            template: None,
        }],
        ..AppConfig::default()
    };
    let router = Router::new(Arc::new(config));
    let event = IncomingEvent::custom(None, "ignored".into());
    let (_, _, content) = preview(&router, &event).unwrap();
    assert_eq!(content, "ignored");
}

#[test]
fn event_level_mention_is_used_when_route_mention_is_not_set() {
    let config = AppConfig {
        defaults: DefaultsConfig {
            channel: Some("default".into()),
            format: MessageFormat::Compact,
        },
        routes: vec![RouteRule {
            event: "tmux.*".into(),
            sink: "discord".into(),
            filter: [("session".to_string(), "issue-*".to_string())]
                .into_iter()
                .collect(),
            channel: Some("tmux-route".into()),
            webhook: None,
            slack_webhook: None,
            mention: None,
            allow_dynamic_tokens: false,
            format: Some(MessageFormat::Alert),
            template: None,
        }],
        ..AppConfig::default()
    };
    let router = Router::new(Arc::new(config));
    let mut event =
        IncomingEvent::tmux_keyword("issue-1440".into(), "error".into(), "failed".into(), None);
    event.mention = Some("<@event>".into());

    let (channel, format, content) = preview(&router, &event).unwrap();
    assert_eq!(channel, "tmux-route");
    assert_eq!(format, MessageFormat::Alert);
    assert!(content.starts_with("<@event> "));
    assert!(content.contains("failed"));
}

#[test]
fn route_mention_takes_precedence_over_event_mention() {
    let config = AppConfig {
        defaults: DefaultsConfig {
            channel: Some("default".into()),
            format: MessageFormat::Compact,
        },
        routes: vec![RouteRule {
            event: "tmux.*".into(),
            sink: "discord".into(),
            filter: Default::default(),
            channel: Some("tmux-route".into()),
            webhook: None,
            slack_webhook: None,
            mention: Some("<@route>".into()),
            allow_dynamic_tokens: false,
            format: Some(MessageFormat::Compact),
            template: None,
        }],
        ..AppConfig::default()
    };
    let router = Router::new(Arc::new(config));
    let mut event =
        IncomingEvent::tmux_keyword("issue-1440".into(), "error".into(), "failed".into(), None);
    event.mention = Some("<@event>".into());

    let (_, _, content) = preview(&router, &event).unwrap();
    assert!(content.starts_with("<@route> "));
    assert!(!content.starts_with("<@event> "));
}

#[test]
fn git_commit_can_use_github_route_family_and_mention() {
    let config = AppConfig {
        defaults: DefaultsConfig {
            channel: Some("default".into()),
            format: MessageFormat::Compact,
        },
        routes: vec![RouteRule {
            event: "github.*".into(),
            sink: "discord".into(),
            filter: [("repo".to_string(), "clawhip".to_string())]
                .into_iter()
                .collect(),
            channel: Some("route-channel".into()),
            webhook: None,
            slack_webhook: None,
            mention: Some("<@route>".into()),
            allow_dynamic_tokens: false,
            format: Some(MessageFormat::Compact),
            template: None,
        }],
        ..AppConfig::default()
    };
    let router = Router::new(Arc::new(config));
    let event = IncomingEvent::git_commit(
        "clawhip".into(),
        "main".into(),
        "1234567890abcdef".into(),
        "ship it".into(),
        None,
    );
    let (channel, _, content) = preview(&router, &event).unwrap();
    assert_eq!(channel, "route-channel");
    assert!(content.starts_with("<@route> "));
    assert!(content.contains("ship it"));
}

#[test]
fn aggregated_git_commit_can_use_github_route_family_and_mention() {
    let config = AppConfig {
        defaults: DefaultsConfig {
            channel: Some("default".into()),
            format: MessageFormat::Compact,
        },
        routes: vec![RouteRule {
            event: "github.*".into(),
            sink: "discord".into(),
            filter: [("repo".to_string(), "clawhip".to_string())]
                .into_iter()
                .collect(),
            channel: Some("route-channel".into()),
            webhook: None,
            slack_webhook: None,
            mention: Some("<@route>".into()),
            allow_dynamic_tokens: false,
            format: Some(MessageFormat::Compact),
            template: None,
        }],
        ..AppConfig::default()
    };
    let router = Router::new(Arc::new(config));
    let event = IncomingEvent::git_commit_events(
        "clawhip".into(),
        "main".into(),
        vec![
            ("1234567890abcdef".into(), "ship it".into()),
            ("234567890abcdef1".into(), "follow up".into()),
        ],
        None,
    )
    .into_iter()
    .next()
    .unwrap();

    let (channel, _, content) = preview(&router, &event).unwrap();
    assert_eq!(channel, "route-channel");
    assert!(content.starts_with("<@route> "));
    assert!(content.contains("pushed 2 commits"));
    assert!(content.contains("- ship it"));
    assert!(content.contains("- follow up"));
}

#[test]
fn agent_family_route_matches_all_agent_events() {
    let config = AppConfig {
        defaults: DefaultsConfig {
            channel: Some("default".into()),
            format: MessageFormat::Compact,
        },
        routes: vec![RouteRule {
            event: "agent.*".into(),
            sink: "discord".into(),
            filter: [("project".to_string(), "clawhip".to_string())]
                .into_iter()
                .collect(),
            channel: Some("agent-route".into()),
            webhook: None,
            slack_webhook: None,
            mention: None,
            allow_dynamic_tokens: false,
            format: Some(MessageFormat::Alert),
            template: None,
        }],
        ..AppConfig::default()
    };
    let router = Router::new(Arc::new(config));

    let started = IncomingEvent::agent_started(
        "worker-1".into(),
        Some("sess-123".into()),
        Some("clawhip".into()),
        None,
        Some("booted".into()),
        None,
        None,
    );
    let finished = IncomingEvent::agent_finished(
        "worker-1".into(),
        Some("sess-123".into()),
        Some("clawhip".into()),
        Some(300),
        Some("PR created".into()),
        None,
        None,
    );

    let (started_channel, started_format, started_content) =
        preview(&router, &started).unwrap();
    let (finished_channel, finished_format, finished_content) =
        preview(&router, &finished).unwrap();

    assert_eq!(started_channel, "agent-route");
    assert_eq!(finished_channel, "agent-route");
    assert_eq!(started_format, MessageFormat::Alert);
    assert_eq!(finished_format, MessageFormat::Alert);
    assert!(started_content.contains("worker-1"));
    assert!(started_content.contains("started"));
    assert!(finished_content.contains("worker-1"));
    assert!(finished_content.contains("finished"));
}

#[test]
fn legacy_agent_events_match_session_routes() {
    let config = AppConfig {
        defaults: DefaultsConfig {
            channel: Some("default".into()),
            format: MessageFormat::Compact,
        },
        routes: vec![RouteRule {
            event: "session.*".into(),
            sink: "discord".into(),
            filter: [
                ("tool".to_string(), "omx".to_string()),
                ("project".to_string(), "clawhip".to_string()),
            ]
            .into_iter()
            .collect(),
            channel: Some("session-route".into()),
            webhook: None,
            slack_webhook: None,
            mention: None,
            allow_dynamic_tokens: false,
            format: Some(MessageFormat::Compact),
            template: None,
        }],
        ..AppConfig::default()
    };
    let router = Router::new(Arc::new(config));
    let event = normalize_event(IncomingEvent::agent_finished(
        "omx".into(),
        Some("issue-65".into()),
        Some("clawhip".into()),
        Some(42),
        Some("PR created".into()),
        None,
        None,
    ));

    let (channel, format, content) = preview(&router, &event).unwrap();

    assert_eq!(channel, "session-route");
    assert_eq!(format, MessageFormat::Compact);
    assert!(content.contains("agent omx"));
    assert!(content.contains("finished"));
}

#[test]
fn native_omc_session_events_match_session_routes() {
    let config = AppConfig {
        defaults: DefaultsConfig {
            channel: Some("default".into()),
            format: MessageFormat::Compact,
        },
        routes: vec![RouteRule {
            event: "session.*".into(),
            sink: "discord".into(),
            filter: [
                ("tool".to_string(), "omc".to_string()),
                ("repo_name".to_string(), "clawhip".to_string()),
            ]
            .into_iter()
            .collect(),
            channel: Some("session-route".into()),
            webhook: None,
            slack_webhook: None,
            mention: None,
            allow_dynamic_tokens: false,
            format: Some(MessageFormat::Compact),
            template: None,
        }],
        ..AppConfig::default()
    };
    let router = Router::new(Arc::new(config));
    let event = normalize_event(IncomingEvent {
        kind: "post-tool-use".into(),
        channel: None,
        mention: None,
        format: None,
        template: None,
        payload: json(r##"{ "timestamp": "2026-03-09T18:01:58.000Z", "signal": { "routeKey": "pull-request.created", "phase": "finished", "summary": "https://github.com/Yeachan-Heo/clawhip/pull/67" }, "context": { "sessionId": "issue-65", "projectPath": "/repo/clawhip-worktrees/issue-65", "projectName": "clawhip" } }"##),
    });

    let (channel, format, content) = preview(&router, &event).unwrap();

    assert_eq!(channel, "session-route");
    assert_eq!(format, MessageFormat::Compact);
    assert!(content.contains("omc issue-65 pr-created"));
    assert!(content.contains("repo=clawhip"));
    assert!(content.contains("pr=#67"));
}

#[test]
fn session_lifecycle_events_match_existing_agent_routes() {
    let config = AppConfig {
        defaults: DefaultsConfig {
            channel: Some("default".into()),
            format: MessageFormat::Compact,
        },
        routes: vec![RouteRule {
            event: "agent.*".into(),
            sink: "discord".into(),
            filter: [
                ("tool".to_string(), "omx".to_string()),
                ("repo_name".to_string(), "clawhip".to_string()),
            ]
            .into_iter()
            .collect(),
            channel: Some("agent-route".into()),
            webhook: None,
            slack_webhook: None,
            mention: None,
            allow_dynamic_tokens: false,
            format: Some(MessageFormat::Compact),
            template: None,
        }],
        ..AppConfig::default()
    };
    let router = Router::new(Arc::new(config));
    let event = normalize_event(IncomingEvent {
        kind: "finished".into(),
        channel: None,
        mention: None,
        format: None,
        template: None,
        payload: json(r##"{ "context": { "normalized_event": "finished", "session_name": "issue-65", "repo_name": "clawhip" } }"##),
    });

    let (channel, format, content) = preview(&router, &event).unwrap();

    assert_eq!(channel, "agent-route");
    assert_eq!(format, MessageFormat::Compact);
    assert!(content.contains("omx issue-65 finished"));
}

#[test]
fn filter_can_route_same_event_type_by_repo() {
    let config = AppConfig {
        defaults: DefaultsConfig {
            channel: Some("default".into()),
            format: MessageFormat::Compact,
        },
        routes: vec![
            RouteRule {
                event: "github.*".into(),
                sink: "discord".into(),
                filter: [("repo".to_string(), "oh-my-claudecode".to_string())]
                    .into_iter()
                    .collect(),
                channel: Some("repo-a".into()),
                webhook: None,
                slack_webhook: None,
                mention: None,
                allow_dynamic_tokens: false,
                format: None,
                template: None,
            },
            RouteRule {
                event: "github.*".into(),
                sink: "discord".into(),
                filter: [("repo".to_string(), "clawhip".to_string())]
                    .into_iter()
                    .collect(),
                channel: Some("repo-b".into()),
                webhook: None,
                slack_webhook: None,
                mention: None,
                allow_dynamic_tokens: false,
                format: None,
                template: None,
            },
        ],
        ..AppConfig::default()
    };
    let router = Router::new(Arc::new(config));
    let event = IncomingEvent::github_issue_opened("clawhip".into(), 7, "bug".into(), None);
    let (channel, _, _) = preview(&router, &event).unwrap();
    assert_eq!(channel, "repo-b");
}

#[test]
fn git_and_github_routes_can_filter_on_repo_name_alias() {
    let config = AppConfig {
        defaults: DefaultsConfig {
            channel: Some("default".into()),
            format: MessageFormat::Compact,
        },
        routes: vec![RouteRule {
            event: "git.commit".into(),
            sink: "discord".into(),
            filter: [("repo_name".to_string(), "clawhip".to_string())]
                .into_iter()
                .collect(),
            channel: Some("repo-name-route".into()),
            webhook: None,
            slack_webhook: None,
            mention: None,
            allow_dynamic_tokens: false,
            format: None,
            template: None,
        }],
        ..AppConfig::default()
    };
    let router = Router::new(Arc::new(config));
    let event = IncomingEvent::git_commit(
        "clawhip".into(),
        "main".into(),
        "1234567890abcdef".into(),
        "ship it".into(),
        None,
    );

    let (channel, _, _) = preview(&router, &event).unwrap();
    assert_eq!(channel, "repo-name-route");
}

#[test]
fn tmux_and_session_routes_share_session_alias_filters() {
    let tmux_config = AppConfig {
        defaults: DefaultsConfig {
            channel: Some("default".into()),
            format: MessageFormat::Compact,
        },
        routes: vec![RouteRule {
            event: "tmux.keyword".into(),
            sink: "discord".into(),
            filter: [("session_name".to_string(), "issue-*".to_string())]
                .into_iter()
                .collect(),
            channel: Some("tmux-session-name".into()),
            webhook: None,
            slack_webhook: None,
            mention: None,
            allow_dynamic_tokens: false,
            format: None,
            template: None,
        }],
        ..AppConfig::default()
    };
    let tmux_router = Router::new(Arc::new(tmux_config));
    let tmux_event =
        IncomingEvent::tmux_keyword("issue-132".into(), "error".into(), "boom".into(), None);
    let (tmux_channel, _, _) = preview(&tmux_router, &tmux_event).unwrap();
    assert_eq!(tmux_channel, "tmux-session-name");

    let session_config = AppConfig {
        defaults: DefaultsConfig {
            channel: Some("default".into()),
            format: MessageFormat::Compact,
        },
        routes: vec![RouteRule {
            event: "session.started".into(),
            sink: "discord".into(),
            filter: [("session".to_string(), "issue-*".to_string())]
                .into_iter()
                .collect(),
            channel: Some("session-alias-route".into()),
            webhook: None,
            slack_webhook: None,
            mention: None,
            allow_dynamic_tokens: false,
            format: None,
            template: None,
        }],
        ..AppConfig::default()
    };
    let session_router = Router::new(Arc::new(session_config));
    let session_event = IncomingEvent {
        kind: "session.started".into(),
        channel: None,
        mention: None,
        format: None,
        template: None,
        payload: json(r##"{ "session_name": "issue-132", "tool": "omx" }"##),
    };

    let (session_channel, _, _) = preview(&session_router, &session_event).unwrap();
    assert_eq!(session_channel, "session-alias-route");
}

#[test]
fn tmux_routes_prefer_repo_metadata_over_session_prefix_heuristics() {
    let config = AppConfig {
        defaults: DefaultsConfig {
            channel: Some("default".into()),
            format: MessageFormat::Compact,
        },
        routes: vec![
            RouteRule {
                event: "tmux.*".into(),
                sink: "discord".into(),
                filter: [("session_name".to_string(), "clawhip-*".to_string())]
                    .into_iter()
                    .collect(),
                channel: Some("heuristic-route".into()),
                ..RouteRule::default()
            },
            RouteRule {
                event: "tmux.*".into(),
                sink: "discord".into(),
                filter: [("repo_name".to_string(), "clawhip".to_string())]
                    .into_iter()
                    .collect(),
                channel: Some("metadata-route".into()),
                ..RouteRule::default()
            },
        ],
        ..AppConfig::default()
    };
    let router = Router::new(Arc::new(config));
    let event = IncomingEvent::tmux_keyword(
        "clawhip-issue-152".into(),
        "error".into(),
        "boom".into(),
        None,
    )
    .with_routing_metadata(&RoutingMetadata {
        repo_name: Some("clawhip".into()),
        project: Some("clawhip".into()),
        worktree_path: Some("/repo/clawhip.worktrees/issue-152".into()),
        ..RoutingMetadata::default()
    });

    let deliveries = router.resolve(&event).unwrap();
    assert_eq!(
        deliveries.first().map(|delivery| &delivery.target),
        Some(&SinkTarget::DiscordChannel("metadata-route".into()))
    );
}

#[test]
fn session_routes_prefer_repo_metadata_over_session_prefix_heuristics() {
    let config = AppConfig {
        defaults: DefaultsConfig {
            channel: Some("default".into()),
            format: MessageFormat::Compact,
        },
        routes: vec![
            RouteRule {
                event: "session.*".into(),
                sink: "discord".into(),
                filter: [("session_name".to_string(), "clawhip-*".to_string())]
                    .into_iter()
                    .collect(),
                channel: Some("heuristic-route".into()),
                ..RouteRule::default()
            },
            RouteRule {
                event: "session.*".into(),
                sink: "discord".into(),
                filter: [("repo_name".to_string(), "clawhip".to_string())]
                    .into_iter()
                    .collect(),
                channel: Some("metadata-route".into()),
                ..RouteRule::default()
            },
        ],
        ..AppConfig::default()
    };
    let router = Router::new(Arc::new(config));
    let event = normalize_event(IncomingEvent {
        kind: "session.started".into(),
        channel: None,
        mention: None,
        format: None,
        template: None,
        payload: json(r##"{ "session_name": "clawhip-issue-152", "repo_name": "clawhip", "worktree_path": "/repo/clawhip.worktrees/issue-152" }"##),
    });

    let deliveries = router.resolve(&event).unwrap();
    assert_eq!(
        deliveries.first().map(|delivery| &delivery.target),
        Some(&SinkTarget::DiscordChannel("metadata-route".into()))
    );
}

#[test]
fn webhook_route_is_used_as_delivery_target() {
    let config = AppConfig {
        defaults: DefaultsConfig {
            channel: Some("default".into()),
            format: MessageFormat::Compact,
        },
        routes: vec![RouteRule {
            event: "tmux.keyword".into(),
            sink: "discord".into(),
            filter: Default::default(),
            channel: None,
            webhook: Some("https://discord.com/api/webhooks/123/abc".into()),
            slack_webhook: None,
            mention: None,
            allow_dynamic_tokens: false,
            format: None,
            template: None,
        }],
        ..AppConfig::default()
    };
    let router = Router::new(Arc::new(config));
    let event =
        IncomingEvent::tmux_keyword("issue-25".into(), "error".into(), "boom".into(), None);

    let delivery = preview_delivery(&router, &event).unwrap();
    assert_eq!(
        delivery.target,
        SinkTarget::DiscordWebhook("https://discord.com/api/webhooks/123/abc".into())
    );
    assert_eq!(
        router
            .render_delivery(&event, &delivery, &DefaultRenderer)
            
            .unwrap(),
        "tmux:issue-25 matched 'error' => boom"
    );
}

#[test]
fn webhook_route_takes_precedence_over_event_channel() {
    let config = AppConfig {
        defaults: DefaultsConfig {
            channel: Some("default".into()),
            format: MessageFormat::Compact,
        },
        routes: vec![RouteRule {
            event: "tmux.keyword".into(),
            sink: "discord".into(),
            filter: Default::default(),
            channel: None,
            webhook: Some("https://discord.com/api/webhooks/123/abc".into()),
            slack_webhook: None,
            mention: None,
            allow_dynamic_tokens: false,
            format: None,
            template: None,
        }],
        ..AppConfig::default()
    };
    let router = Router::new(Arc::new(config));
    let event = IncomingEvent::tmux_keyword(
        "issue-25".into(),
        "error".into(),
        "boom".into(),
        Some("explicit-channel".into()),
    );

    let delivery = preview_delivery(&router, &event).unwrap();
    assert_eq!(
        delivery.target,
        SinkTarget::DiscordWebhook("https://discord.com/api/webhooks/123/abc".into())
    );
}

#[test]
fn route_channel_takes_precedence_over_event_channel() {
    let config = AppConfig {
        defaults: DefaultsConfig {
            channel: Some("default".into()),
            format: MessageFormat::Compact,
        },
        routes: vec![RouteRule {
            event: "tmux.keyword".into(),
            sink: "discord".into(),
            filter: Default::default(),
            channel: Some("route-channel".into()),
            webhook: None,
            slack_webhook: None,
            mention: None,
            allow_dynamic_tokens: false,
            format: None,
            template: None,
        }],
        ..AppConfig::default()
    };
    let router = Router::new(Arc::new(config));
    let event = IncomingEvent::tmux_keyword(
        "issue-25".into(),
        "error".into(),
        "boom".into(),
        Some("launcher-channel".into()),
    );

    let delivery = preview_delivery(&router, &event).unwrap();
    assert_eq!(
        delivery.target,
        SinkTarget::DiscordChannel("route-channel".into())
    );
}

#[test]
fn event_channel_is_used_when_matching_route_has_no_channel() {
    let config = AppConfig {
        defaults: DefaultsConfig {
            channel: Some("default".into()),
            format: MessageFormat::Compact,
        },
        routes: vec![RouteRule {
            event: "tmux.keyword".into(),
            sink: "discord".into(),
            filter: Default::default(),
            channel: None,
            webhook: None,
            slack_webhook: None,
            mention: Some("<@route>".into()),
            allow_dynamic_tokens: false,
            format: None,
            template: None,
        }],
        ..AppConfig::default()
    };
    let router = Router::new(Arc::new(config));
    let event = IncomingEvent::tmux_keyword(
        "issue-25".into(),
        "error".into(),
        "boom".into(),
        Some("monitor-channel".into()),
    );

    let delivery = preview_delivery(&router, &event).unwrap();
    assert_eq!(
        delivery.target,
        SinkTarget::DiscordChannel("monitor-channel".into())
    );
}

#[test]
fn custom_event_channel_takes_precedence_over_route_channel() {
    let config = AppConfig {
        defaults: DefaultsConfig {
            channel: Some("default-ch".into()),
            format: MessageFormat::Compact,
        },
        routes: vec![RouteRule {
            event: "custom".into(),
            sink: "discord".into(),
            filter: Default::default(),
            channel: Some("route-ch".into()),
            webhook: None,
            slack_webhook: None,
            mention: None,
            allow_dynamic_tokens: false,
            format: None,
            template: None,
        }],
        ..AppConfig::default()
    };
    let router = Router::new(Arc::new(config));

    // clawhip send --channel user-target --message "hello"
    let event = IncomingEvent::custom(Some("user-target".into()), "hello".into());
    let delivery = preview_delivery(&router, &event).unwrap();
    assert_eq!(
        delivery.target,
        SinkTarget::DiscordChannel("user-target".into()),
        "custom event channel (from --channel flag) must override route channel"
    );
}

#[test]
fn custom_event_without_channel_falls_back_to_route_then_default() {
    let config = AppConfig {
        defaults: DefaultsConfig {
            channel: Some("default-ch".into()),
            format: MessageFormat::Compact,
        },
        routes: vec![RouteRule {
            event: "custom".into(),
            sink: "discord".into(),
            filter: Default::default(),
            channel: Some("route-ch".into()),
            webhook: None,
            slack_webhook: None,
            mention: None,
            allow_dynamic_tokens: false,
            format: None,
            template: None,
        }],
        ..AppConfig::default()
    };
    let router = Router::new(Arc::new(config));

    // clawhip send --message "hello" (no --channel)
    let event = IncomingEvent::custom(None, "hello".into());
    let delivery = preview_delivery(&router, &event).unwrap();
    assert_eq!(
        delivery.target,
        SinkTarget::DiscordChannel("route-ch".into()),
        "custom event without explicit channel should fall back to route channel"
    );
}

#[test]
fn slack_webhook_route_is_used_as_delivery_target() {
    let config = AppConfig {
        defaults: DefaultsConfig {
            channel: Some("default".into()),
            format: MessageFormat::Compact,
        },
        routes: vec![RouteRule {
            event: "tmux.keyword".into(),
            slack_webhook: Some("https://hooks.slack.com/services/T/B/abc".into()),
            format: Some(MessageFormat::Alert),
            ..RouteRule::default()
        }],
        ..AppConfig::default()
    };
    let router = Router::new(Arc::new(config));
    let event =
        IncomingEvent::tmux_keyword("issue-28".into(), "error".into(), "boom".into(), None);

    let delivery = preview_delivery(&router, &event).unwrap();
    assert_eq!(delivery.sink, "slack");
    assert_eq!(
        delivery.target,
        SinkTarget::SlackWebhook("https://hooks.slack.com/services/T/B/abc".into())
    );
    assert_eq!(
        router
            .render_delivery(&event, &delivery, &DefaultRenderer)
            
            .unwrap(),
        "🚨 tmux session issue-28 hit keyword 'error': boom"
    );
}

#[test]
fn slack_sink_route_can_use_generic_webhook_field() {
    let config = AppConfig {
        routes: vec![RouteRule {
            event: "custom".into(),
            sink: "slack".into(),
            webhook: Some("https://hooks.slack.com/services/T/B/generic".into()),
            ..RouteRule::default()
        }],
        ..AppConfig::default()
    };
    let router = Router::new(Arc::new(config));
    let delivery = preview_delivery(&router, &IncomingEvent::custom(None, "hello".into()))
        
        .unwrap();

    assert_eq!(delivery.sink, "slack");
    assert_eq!(
        delivery.target,
        SinkTarget::SlackWebhook("https://hooks.slack.com/services/T/B/generic".into())
    );
}

#[test]
fn resolve_tmux_session_channel_prefers_matching_tmux_route() {
    let config = AppConfig {
        defaults: DefaultsConfig {
            channel: Some("default".into()),
            format: MessageFormat::Compact,
        },
        routes: vec![RouteRule {
            event: "tmux.*".into(),
            filter: vec![("session".into(), "xeroclaw-*".into())],
            sink: "discord".into(),
            channel: Some("xeroclaw-dev".into()),
            webhook: None,
            slack_webhook: None,
            mention: None,
            allow_dynamic_tokens: false,
            format: None,
            template: None,
        }],
        ..AppConfig::default()
    };

    assert_eq!(
        resolve_tmux_session_channel(&config, "xeroclaw-42").as_deref(),
        Some("xeroclaw-dev")
    );
}

#[test]
fn resolve_tmux_session_channel_supports_session_routes() {
    let config = AppConfig {
        defaults: DefaultsConfig {
            channel: Some("default".into()),
            format: MessageFormat::Compact,
        },
        routes: vec![RouteRule {
            event: "session.*".into(),
            filter: vec![("session_name".into(), "xeroclaw-*".into())],
            sink: "discord".into(),
            channel: Some("xeroclaw-dev".into()),
            webhook: None,
            slack_webhook: None,
            mention: None,
            allow_dynamic_tokens: false,
            format: None,
            template: None,
        }],
        ..AppConfig::default()
    };

    assert_eq!(
        resolve_tmux_session_channel(&config, "xeroclaw-42").as_deref(),
        Some("xeroclaw-dev")
    );
}

#[test]
fn resolve_tmux_session_channel_with_metadata_prefers_repo_route_over_prefix_heuristic() {
    let config = AppConfig {
        defaults: DefaultsConfig {
            channel: Some("default".into()),
            format: MessageFormat::Compact,
        },
        routes: vec![
            RouteRule {
                event: "tmux.*".into(),
                filter: vec![("session".into(), "clawhip-*".into())],
                sink: "discord".into(),
                channel: Some("heuristic-route".into()),
                ..RouteRule::default()
            },
            RouteRule {
                event: "tmux.*".into(),
                filter: vec![("repo_name".into(), "clawhip".into())],
                sink: "discord".into(),
                channel: Some("metadata-route".into()),
                ..RouteRule::default()
            },
        ],
        ..AppConfig::default()
    };

    assert_eq!(
        resolve_tmux_session_channel_with_metadata(
            &config,
            "clawhip-issue-152",
            &RoutingMetadata {
                repo_name: Some("clawhip".into()),
                project: Some("clawhip".into()),
                worktree_path: Some("/repo/clawhip.worktrees/issue-152".into()),
                ..RoutingMetadata::default()
            }
        )
        .as_deref(),
        Some("metadata-route")
    );
}

#[test]
fn resolve_tmux_session_channel_with_metadata_does_not_fallback_to_prefix_heuristics() {
    let config = AppConfig {
        defaults: DefaultsConfig {
            channel: Some("default".into()),
            format: MessageFormat::Compact,
        },
        routes: vec![RouteRule {
            event: "tmux.*".into(),
            filter: vec![("session".into(), "clawhip-*".into())],
            sink: "discord".into(),
            channel: Some("heuristic-route".into()),
            ..RouteRule::default()
        }],
        ..AppConfig::default()
    };

    assert_eq!(
        resolve_tmux_session_channel_with_metadata(
            &config,
            "clawhip-issue-152",
            &RoutingMetadata {
                repo_name: Some("clawhip".into()),
                project: Some("clawhip".into()),
                worktree_path: Some("/repo/clawhip.worktrees/issue-152".into()),
                ..RoutingMetadata::default()
            }
        )
        .as_deref(),
        Some("default")
    );
}

#[test]
fn resolve_tmux_session_channel_skips_webhooks_and_falls_back_to_defaults() {
    let config = AppConfig {
        defaults: DefaultsConfig {
            channel: Some("default".into()),
            format: MessageFormat::Compact,
        },
        routes: vec![RouteRule {
            event: "tmux.*".into(),
            filter: vec![("session".into(), "xeroclaw-*".into())],
            sink: "discord".into(),
            channel: None,
            webhook: Some("https://discord.com/api/webhooks/123/abc".into()),
            slack_webhook: None,
            mention: None,
            allow_dynamic_tokens: false,
            format: None,
            template: None,
        }],
        ..AppConfig::default()
    };

    assert_eq!(
        resolve_tmux_session_channel(&config, "xeroclaw-42").as_deref(),
        Some("default")
    );
}

#[test]
fn agents_and_sessions_share_routes_on_exact_names() {
    let takes = |pattern: &str, kind: &str| {
        let config = AppConfig {
            routes: vec![RouteRule {
                event: pattern.into(),
                channel: Some("1".into()),
                ..RouteRule::default()
            }],
            ..AppConfig::default()
        };
        let mut event = IncomingEvent::custom(None, "hello".into());
        event.kind = kind.into();
        Router::new(Arc::new(config)).resolve(&event).is_ok()
    };
    for stage in ["started", "blocked", "finished", "failed"] {
        let agent = format!("agent.{stage}");
        let session = format!("session.{stage}");
        assert!(takes(&agent, &session));
        assert!(takes(&session, &agent));
        assert!(takes(&agent, &agent));
        assert!(takes("agent.*", &session));
        assert!(takes("session.*", &agent));
    }
    assert!(!takes("agent.started", "session.blocked"));
    assert!(!takes("agent.*", "session.pr-created"));
}
