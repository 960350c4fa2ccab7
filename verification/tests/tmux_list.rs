use clawhip::registry::{RegisteredTmuxSession, RegistrationSource, SessionLiveState};
use clawhip::tmux_list::{
    format_elapsed, format_features, format_live_status, format_relative_time, format_tmux_list,
    format_tmux_list_at,
};

fn make_registration(session: &str) -> RegisteredTmuxSession {
    RegisteredTmuxSession {
        session: session.into(),
        channel: Some("alerts".into()),
        stale_minutes: 10,
        registered_at: "2026-04-02T00:00:00Z".into(),
        registration_source: RegistrationSource::CliWatch,
        ..Default::default()
    }
}

fn now_rfc3339() -> String {
    time::OffsetDateTime::now_utc()
        .format(&time::format_description::well_known::Rfc3339)
        .unwrap()
}

#[test]
fn format_tmux_list_renders_new_columns() {
    let mut reg = make_registration("issue-105");
    reg.keywords = vec!["error".into()];
    reg.summarize = true;
    reg.heartbeat_interval = 5;
    reg.detect_waiting = true;
    reg.live_state = Some(SessionLiveState {
        is_waiting: false,
        pane_dead: false,
        last_activity: Some(now_rfc3339()),
        last_poll: None,
    });
    let output = format_tmux_list(&vec![reg], false);

    assert!(output.contains("SESSION"));
    assert!(output.contains("STATUS"));
    assert!(output.contains("CHANNEL"));
    assert!(output.contains("FEATURES"));
    assert!(output.contains("REGISTERED"));
    assert!(output.contains("issue-105"));
    assert!(output.contains("active"));
    assert!(output.contains("alerts"));
    assert!(output.contains("sum"));
    assert!(output.contains("wait"));
    assert!(output.contains("kw"));
}

#[test]
fn format_tmux_list_handles_empty_registry() {
    assert_eq!(
        format_tmux_list(&Vec::new(), false),
        "No active tmux sessions registered.\n"
    );
}

#[test]
fn format_features_shows_dash_when_no_features() {
    let reg = RegisteredTmuxSession {
        session: "plain".into(),
        registered_at: "2026-04-02T00:00:00Z".into(),
        ..Default::default()
    };
    let output = format_tmux_list(&vec![reg], false);
    assert!(output.contains("\u{2014}"));
}

#[test]
fn format_features_shows_heartbeat_and_pins() {
    let mut reg = make_registration("feat-test");
    reg.heartbeat_mins = 5;
    reg.pin_status = true;
    reg.live_state = Some(SessionLiveState::default());
    let output = format_tmux_list(&vec![reg], false);
    assert!(output.contains("\u{2665}"));
    assert!(output.contains("pins"));
}

#[test]
fn format_relative_time_seconds() {
    let mut reg = make_registration("time-test");
    reg.registered_at = now_rfc3339();
    let output = format_tmux_list(&vec![reg], false);
    assert!(output.contains("s ago"));
}

#[test]
fn format_live_status_dead() {
    let mut reg = make_registration("dead-test");
    reg.live_state = Some(SessionLiveState {
        is_waiting: false,
        pane_dead: true,
        last_activity: None,
        last_poll: None,
    });
    let output = format_tmux_list(&vec![reg], false);
    assert!(output.contains("dead"));
}

#[test]
fn format_live_status_waiting() {
    let mut reg = make_registration("wait-test");
    reg.live_state = Some(SessionLiveState {
        is_waiting: true,
        pane_dead: false,
        last_activity: None,
        last_poll: None,
    });
    let output = format_tmux_list(&vec![reg], false);
    assert!(output.contains("waiting"));
}

#[test]
fn format_live_status_unknown() {
    let reg = make_registration("unknown-test");
    let output = format_tmux_list(&vec![reg], false);
    assert!(output.contains("unknown"));
}

const APRIL_2: i128 = 1_775_088_000_000_000_000;

#[test]
fn ages_are_counted_from_a_moment() {
    let later = |seconds: i128| APRIL_2 + seconds * 1_000_000_000;
    assert_eq!(format_relative_time("2026-04-02T00:00:00Z", later(59)), "59s ago");
    assert_eq!(format_relative_time("2026-04-02T00:00:00Z", later(600)), "10m ago");
    assert_eq!(format_relative_time("2026-04-02T00:00:00Z", later(3 * 3600)), "3h ago");
    assert_eq!(format_relative_time("2026-04-02T00:00:00Z", later(72 * 3600)), "3d ago");
    assert_eq!(format_relative_time("yesterday", later(1)), "yesterday");
    assert_eq!(format_elapsed(59), "59s ago");
}

#[test]
fn rows_of_the_list() {
    let reg = make_registration("issue-105");
    assert_eq!(format_features(&reg), "\u{2014}");
    assert!(format_live_status(&reg, APRIL_2).contains("unknown"));
    let text = format_tmux_list_at(&vec![reg], true, APRIL_2);
    assert!(text.lines().any(|line| line.contains("issue-105")));
}
