use clawhip::cli::{
    plan, prepare_event, AgentCommands, AgentEventArgs, AgentFailedArgs, Cli, Commands,
    ConfigCommand, EmitArgs, GitCommands, NativeHookArgs, OmxHookArgs, PayloadSource, Plan,
    TmuxCommands, TmuxWrapperFormat,
};
use clawhip::compat::{from_incoming_event, EventPriority};
use clawhip::events::MessageFormat;
use clawhip::json::Json;
use clawhip::normalize::normalize_event;

fn text_at<'a>(payload: &'a Json, path: &str) -> Option<&'a str> {
    payload.pointer(path).and_then(Json::as_str)
}

#[test]
fn emit_args_take_top_level_fields() {
    let args = EmitArgs {
        event_type: "agent.started".into(),
        fields: vec![
            "--channel".into(),
            "alerts".into(),
            "--mention".into(),
            "<@123>".into(),
            "--format".into(),
            "alert".into(),
            "--template".into(),
            "agent {agent_name}".into(),
            "--agent".into(),
            "omc".into(),
            "--elapsed".into(),
            "17".into(),
        ],
    };

    let event = args.into_event().expect("event");
    assert_eq!(event.kind, "agent.started");
    assert_eq!(event.channel.as_deref(), Some("alerts"));
    assert_eq!(event.mention.as_deref(), Some("<@123>"));
    assert!(matches!(event.format, Some(MessageFormat::Alert)));
    assert_eq!(event.template.as_deref(), Some("agent {agent_name}"));
    assert_eq!(text_at(&event.payload, "/agent_name"), Some("omc"));
    assert_eq!(event.payload.count("elapsed_secs"), Some(17));
}

#[test]
fn emit_args_merge_payload_json_with_extra_fields() {
    let args = EmitArgs {
        event_type: "agent.failed".into(),
        fields: vec![
            "--payload".into(),
            r#"{"session":"sess-1","ok":true}"#.into(),
            "--error".into(),
            "boom".into(),
        ],
    };

    let event = args.into_event().expect("event");
    assert_eq!(text_at(&event.payload, "/session"), Some("sess-1"));
    assert_eq!(event.payload.flag("ok"), Some(true));
    assert_eq!(text_at(&event.payload, "/error_message"), Some("boom"));
}

#[test]
fn emit_args_reject_invalid_format() {
    let args = EmitArgs {
        event_type: "agent.started".into(),
        fields: vec!["--format".into(), "loud".into()],
    };

    let error = args.into_event().expect_err("invalid format should fail");
    assert!(error.contains("unsupported message format"));
}

#[test]
fn emit_args_reject_invalid_field_shape() {
    let args = EmitArgs {
        event_type: "agent.started".into(),
        fields: vec!["agent".into(), "omc".into(), "--session".into()],
    };

    let error = args.into_event().expect_err("invalid fields should fail");
    assert!(error.contains("emit fields must be provided as --key value pairs"));
}

#[test]
fn emit_agent_lifecycle_events_normalize_for_validation() {
    let args = EmitArgs {
        event_type: "agent.started".into(),
        fields: vec![
            "--agent".into(),
            "omx".into(),
            "--session".into(),
            "issue-65".into(),
            "--project".into(),
            "clawhip".into(),
        ],
    };

    let normalized = normalize_event(args.into_event().expect("event"));
    let typed = from_incoming_event(&normalized).expect("typed envelope");

    assert_eq!(normalized.kind, "agent.started");
    assert_eq!(text_at(&normalized.payload, "/status"), Some("started"));
    assert_eq!(text_at(&normalized.payload, "/tool"), Some("omx"));
    assert_eq!(typed.metadata.priority, EventPriority::Normal);
}

#[test]
fn omx_hook_args_read_payload_from_inline_json() {
    let args = OmxHookArgs {
        payload: Some(
            r#"{"schema_version":"1","context":{"normalized_event":"started"}}"#.into(),
        ),
        file: None,
    };

    let PayloadSource::Inline(content) = args.payload_source().expect("source") else {
        panic!("expected an inline payload");
    };
    let payload = args.read_payload(&content).expect("inline json payload");

    assert_eq!(text_at(&payload, "/schema_version"), Some("1"));
    assert_eq!(text_at(&payload, "/context/normalized_event"), Some("started"));
}

#[test]
fn omx_hook_args_reject_empty_input() {
    let args = OmxHookArgs { payload: None, file: None };

    assert!(matches!(args.payload_source(), Ok(PayloadSource::Stdin)));
    let error = args.read_payload("").expect_err("empty stdin should fail");

    assert!(error.contains("clawhip omx hook expects a JSON payload"));
}

#[test]
fn hook_args_take_one_source_only() {
    let args = NativeHookArgs {
        provider: None,
        source: None,
        payload: Some("{}".into()),
        file: Some("x.json".into()),
    };
    assert!(args.payload_source().is_err());
    let args = NativeHookArgs {
        provider: Some("codex".into()),
        source: None,
        payload: None,
        file: Some("x.json".into()),
    };
    assert!(matches!(args.payload_source(), Ok(PayloadSource::File(name)) if name == "x.json"));
    let payload = args.read_payload(r#"{"event_name":"Stop"}"#).unwrap();
    assert_eq!(text_at(&payload, "/provider"), Some("codex"));
    let payload = args.read_payload(r#"{"provider":"other"}"#).unwrap();
    assert_eq!(text_at(&payload, "/provider"), Some("other"));
}

#[test]
fn program_without_a_command_runs_the_daemon() {
    assert!(matches!(plan(None), Ok(Plan::Daemon { port: None })));
    assert!(matches!(
        plan(Some(Commands::Start { port: Some(7) })),
        Ok(Plan::Daemon { port: Some(7) })
    ));
    assert!(matches!(
        plan(Some(Commands::Config { command: None })),
        Ok(Plan::EditConfig)
    ));
    assert!(matches!(
        plan(Some(Commands::Config { command: Some(ConfigCommand::Show) })),
        Ok(Plan::ShowConfig)
    ));
}

#[test]
fn commands_lead_to_events() {
    let Ok(Plan::Send(event)) = plan(Some(Commands::Git {
        command: GitCommands::BranchChanged {
            repo: "clawhip".into(),
            old_branch: "main".into(),
            new_branch: "dev".into(),
            channel: None,
        },
    })) else {
        panic!("expected an event");
    };
    assert_eq!(event.kind, "git.branch-changed");
    assert_eq!(text_at(&event.payload, "/new_branch"), Some("dev"));

    let args = AgentEventArgs {
        agent_name: "worker-1".into(),
        session_id: Some("sess-123".into()),
        project: None,
        elapsed_secs: Some(300),
        summary: None,
        mention: None,
        channel: Some("alerts".into()),
    };
    let Ok(Plan::Send(event)) = plan(Some(Commands::Agent {
        command: AgentCommands::Failed(AgentFailedArgs {
            event: args,
            error_message: "boom".into(),
        }),
    })) else {
        panic!("expected an event");
    };
    assert_eq!(event.kind, "agent.failed");
    assert_eq!(event.channel.as_deref(), Some("alerts"));
    assert_eq!(text_at(&event.payload, "/error_message"), Some("boom"));

    let Ok(Plan::Send(event)) = plan(Some(Commands::Tmux {
        command: TmuxCommands::Stale {
            session: "s".into(),
            pane: "0.0".into(),
            minutes: 5,
            last_line: "waiting".into(),
            channel: None,
        },
    })) else {
        panic!("expected an event");
    };
    assert_eq!(event.kind, "tmux.stale");
}

#[test]
fn prepared_event_has_an_identifier_and_can_be_queued() {
    let Ok(Plan::Send(event)) = plan(Some(Commands::Send {
        channel: None,
        message: "hello".into(),
    })) else {
        panic!("expected an event");
    };
    let event = prepare_event(event).expect("event");
    assert!(text_at(&event.payload, "/event_id").is_some_and(|id| id.len() == 36));

    let broken = EmitArgs { event_type: "github.issue-opened".into(), fields: vec![] };
    assert!(prepare_event(broken.into_event().unwrap()).is_err());
}

#[test]
fn configuration_path_of_the_command_line_comes_first() {
    let cli = Cli { config: Some("/tmp/c.toml".into()), command: None };
    assert_eq!(cli.config_path(&Some("/etc/x".into()), &None), "/tmp/c.toml");
    let cli = Cli { config: None, command: None };
    assert_eq!(cli.config_path(&Some("/etc/x".into()), &None), "/etc/x");
}

#[test]
fn formats_of_the_command_line() {
    assert_eq!(MessageFormat::from(TmuxWrapperFormat::Compact), MessageFormat::Compact);
    assert_eq!(MessageFormat::from(TmuxWrapperFormat::Alert), MessageFormat::Alert);
    assert_eq!(MessageFormat::from(TmuxWrapperFormat::Inline), MessageFormat::Inline);
}
