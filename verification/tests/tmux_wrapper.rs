use std::time::Duration;

use clawhip::cli::{TmuxNewArgs, TmuxWatchArgs, TmuxWrapperFormat};
use clawhip::config::AppConfig;
use clawhip::events::MessageFormat;
use clawhip::keywords::collect_keyword_hits;
use clawhip::registry::RegistrationSource;
use clawhip::tmux::TmuxPaneSnapshot;
use clawhip::tmux_wrapper::{
    backoff_enter_delays, build_command_to_send, look_at_session, new_session_args, registration_for,
    retry_enter_delays, shell_escape, shell_join, EnterStep, EnterWatch, TmuxMonitorArgs,
};

fn new_args(shell: Option<&str>, command: Vec<String>) -> TmuxNewArgs {
    TmuxNewArgs {
        session: "dev".into(),
        window_name: None,
        cwd: None,
        channel: None,
        mention: None,
        keywords: Vec::new(),
        stale_minutes: 10,
        format: None,
        attach: false,
        retry_enter: true,
        retry_enter_count: 4,
        retry_enter_delay_ms: 250,
        shell: shell.map(str::to_string),
        command,
    }
}

#[test]
fn tmux_wrapper_keyword_hits_only_emit_for_new_lines() {
    let hits = collect_keyword_hits(
        "done\nall good",
        "done\nall good\nerror: failed\nPR created #7",
        &vec!["error".into(), "PR created".into()],
    );
    assert_eq!(hits.len(), 2);
    assert_eq!(hits[0].keyword, "error");
    assert_eq!(hits[1].keyword, "PR created");
}

#[test]
fn build_command_to_send_preserves_shell_arguments_when_joining() {
    let args = new_args(
        None,
        vec!["zsh".into(), "-c".into(), "source ~/.zshrc && omx --madmax".into()],
    );

    assert_eq!(
        build_command_to_send(&args).as_deref(),
        Some("zsh -c 'source ~/.zshrc && omx --madmax'")
    );
}

#[test]
fn build_command_to_send_wraps_joined_command_with_override_shell() {
    let args = new_args(Some("/bin/zsh"), vec!["source ~/.zshrc && omx --madmax".into()]);

    assert_eq!(
        build_command_to_send(&args).as_deref(),
        Some("/bin/zsh -c 'source ~/.zshrc && omx --madmax'")
    );
}

#[test]
fn build_command_to_send_leaves_single_shell_snippet_unquoted_without_override() {
    let args = new_args(None, vec!["source ~/.zshrc && omx --madmax".into()]);

    assert_eq!(
        build_command_to_send(&args).as_deref(),
        Some("source ~/.zshrc && omx --madmax")
    );
}

fn watch_args() -> TmuxWatchArgs {
    TmuxWatchArgs {
        session: "existing".into(),
        channel: Some("alerts".into()),
        mention: Some("<@123>".into()),
        keywords: vec!["error".into(), "complete".into()],
        stale_minutes: 15,
        format: Some(TmuxWrapperFormat::Inline),
        retry_enter: true,
    }
}

#[test]
fn watch_args_convert_to_monitor_args() {
    let monitor_args = TmuxMonitorArgs::from(&watch_args());

    assert_eq!(monitor_args.session, "existing");
    assert_eq!(monitor_args.channel.as_deref(), Some("alerts"));
    assert_eq!(monitor_args.mention.as_deref(), Some("<@123>"));
    assert_eq!(monitor_args.keywords, vec!["error", "complete"]);
    assert_eq!(monitor_args.stale_minutes, 15);
    assert!(matches!(monitor_args.format, Some(TmuxWrapperFormat::Inline)));
}

#[test]
fn retry_enter_delays_respect_requested_backoff_limit() {
    assert_eq!(
        retry_enter_delays(2),
        vec![Duration::from_millis(500), Duration::from_millis(1_000)]
    );
    assert_eq!(
        retry_enter_delays(5),
        vec![
            Duration::from_millis(500),
            Duration::from_millis(1_000),
            Duration::from_millis(2_000)
        ]
    );
}

#[test]
fn words_of_a_shell() {
    assert_eq!(shell_escape("a-b_c/d.e"), "a-b_c/d.e");
    assert_eq!(shell_escape(""), "''");
    assert_eq!(shell_escape("it's"), "'it'\\''s'");
    assert_eq!(shell_join(&vec!["echo".into(), "a b".into()]), "echo 'a b'");
    assert_eq!(build_command_to_send(&new_args(None, vec![])), None);
}

#[test]
fn words_of_the_command_that_starts_a_session() {
    let mut args = new_args(None, vec![]);
    assert_eq!(new_session_args(&args), vec!["new-session", "-d", "-s", "dev"]);
    args.window_name = Some("w".into());
    args.cwd = Some("/repo".into());
    assert_eq!(
        new_session_args(&args),
        vec!["new-session", "-d", "-s", "dev", "-n", "w", "-c", "/repo"]
    );
}

#[test]
fn enter_is_pressed_again_where_nothing_happened() {
    let mut watch = EnterWatch::new("a".into());
    assert_eq!(watch.observe("a"), EnterStep::LookAgain);
    assert_eq!(watch.observe("a"), EnterStep::Press);
    assert_eq!(watch.observe("b"), EnterStep::Done);
    assert_eq!(watch.observe("a"), EnterStep::LookAgain);
    assert_eq!(watch.observe("c"), EnterStep::Done);
}

#[test]
fn registration_of_a_watched_session() {
    let args = TmuxMonitorArgs::from(&watch_args());
    let registration = registration_for(
        &args,
        RegistrationSource::CliWatch,
        "2026-04-02T00:00:00Z".into(),
        None,
    );
    assert_eq!(registration.session, "existing");
    assert_eq!(registration.format, Some(MessageFormat::Inline));
    assert!(registration.active_wrapper_monitor);
    assert_eq!(TmuxMonitorArgs::from_new(&new_args(None, vec![])).session, "dev");
}

#[test]
fn panes_of_a_watched_session_are_reported() {
    let pane = |session: &str, content: &str| TmuxPaneSnapshot {
        pane_id: "%1".into(),
        session: session.into(),
        pane_name: "0.0".into(),
        content: content.into(),
        pane_dead: false,
    };
    let mut args = TmuxMonitorArgs::from(&watch_args());
    args.keywords = vec![" error ".into(), " ".into()];
    let mut panes = Vec::new();
    assert!(look_at_session(&mut panes, &args, &vec![pane("existing", "done")], 0).is_empty());
    let events =
        look_at_session(&mut panes, &args, &vec![pane("renamed", "done\nerror: x")], 1_000);
    assert_eq!(events.len(), 1);
    assert_eq!(events[0].kind, "tmux.keyword");
    assert_eq!(events[0].payload.raw_field("keyword"), Some("error"));
    assert_eq!(events[0].mention.as_deref(), Some("<@123>"));
    assert_eq!(events[0].format, Some(MessageFormat::Inline));
    assert_eq!(panes[0].1.session, "renamed");
    let events = look_at_session(
        &mut panes,
        &args,
        &vec![pane("renamed", "done\nerror: x")],
        1_000 + 15 * 60_000,
    );
    assert_eq!(events.len(), 1);
    assert_eq!(events[0].kind, "tmux.stale");
    assert!(look_at_session(&mut panes, &args, &Vec::new(), 2_000_000).is_empty());
    assert!(panes.is_empty());
}

#[test]
fn pauses_before_enter_double() {
    assert_eq!(
        backoff_enter_delays(4, 250),
        vec![
            Duration::from_millis(250),
            Duration::from_millis(500),
            Duration::from_millis(1_000),
            Duration::from_millis(2_000)
        ]
    );
    assert_eq!(
        backoff_enter_delays(2, u64::MAX),
        vec![Duration::from_millis(u64::MAX), Duration::from_millis(u64::MAX)]
    );
    assert!(backoff_enter_delays(0, 250).is_empty());
}

#[test]
fn new_session_without_a_channel_takes_the_default_one() {
    let mut config = AppConfig::default();
    config.defaults.channel = Some("default".into());
    let args = TmuxMonitorArgs::from_new(&new_args(None, Vec::new()));
    assert_eq!(args.with_routed_channel(&config).channel.as_deref(), Some("default"));

    let args = TmuxMonitorArgs::from(&watch_args());
    assert_eq!(args.with_routed_channel(&config).channel.as_deref(), Some("alerts"));
}

#[test]
fn joined_texts_are_words_of_their_own() {
    let parts: Vec<String> =
        vec!["printf".into(), "".into(), "it's  two".into(), "a\\b".into(), "x=1".into()];
    assert_eq!(shell_join(&parts), "printf '' 'it'\\''s  two' 'a\\b' x=1");
    assert_eq!(shell_join(&vec![]), "");
    assert_eq!(shell_join(&vec!["".into()]), "''");
}
