use clawhip::config::{AppConfig, GitRepoMonitor, TmuxSessionMonitor};
use clawhip::keywords::collect_keyword_hits;
use clawhip::monitor::{
    content_with_mention, monitored_sessions, needs_commit_list, observe_repo, parse_commits,
    parse_github_repo, poll_git_repo, poll_tmux, pull_request_snapshots, pull_request_url,
    snapshot_git_repo, CommitEntry, GitHubPullRequest,
};
use clawhip::registry::RegisteredTmuxSession;
use clawhip::tmux::{SessionProbe, TmuxPaneSnapshot};

#[test]
fn parses_github_repo_urls() {
    assert_eq!(
        parse_github_repo("git@github.com:bellman/clawhip.git"),
        Some("bellman/clawhip".to_string())
    );
    assert_eq!(
        parse_github_repo("https://github.com/bellman/clawhip.git"),
        Some("bellman/clawhip".to_string())
    );
}

#[test]
fn monitor_keyword_hits_only_emit_for_new_lines() {
    let hits = collect_keyword_hits(
        "done\nall good",
        "done\nall good\nerror: failed\nPR created #7",
        &vec!["error".into(), "PR created".into()],
    );
    assert_eq!(hits.len(), 2);
}

#[test]
fn other_remotes_name_no_repository() {
    assert_eq!(parse_github_repo("https://example.com/a/b.git"), None);
    assert_eq!(
        parse_github_repo("https://github.com/a/b"),
        parse_github_repo("https://github.com/a/b.git")
    );
}

fn repo() -> GitRepoMonitor {
    GitRepoMonitor {
        path: "/repo/clawhip".into(),
        name: Some("clawhip".into()),
        emit_commits: true,
        emit_branch_changes: true,
        emit_pr_status: true,
        ..GitRepoMonitor::default()
    }
}

fn commit(sha: &str, summary: &str) -> CommitEntry {
    CommitEntry { sha: sha.into(), summary: summary.into() }
}

#[test]
fn commits_are_read_line_by_line() {
    let commits = parse_commits("aaa\u{1f}first\nno separator\nbbb\u{1f}second");
    assert_eq!(commits.len(), 2);
    assert_eq!(commits[1].sha, "bbb");
    assert_eq!(commits[1].summary, "second");
}

#[test]
fn first_look_at_a_repository_is_silent_and_changes_are_reported() {
    let repo = repo();
    let remote = "git@github.com:bellman/clawhip.git";
    let first = snapshot_git_repo(&repo, "aaa".into(), "main".into(), "one".into(), remote);
    assert_eq!(first.github_repo.as_deref(), Some("bellman/clawhip"));
    assert!(!needs_commit_list(&repo, None, &first));
    let mut state = Vec::new();
    assert!(poll_git_repo(&mut state, &repo, &first, None, None).is_empty());
    assert!(poll_git_repo(&mut state, &repo, &first, None, None).is_empty());

    let second = snapshot_git_repo(&repo, "bbb".into(), "dev".into(), "two".into(), remote);
    assert!(needs_commit_list(&repo, Some(&state[0].1), &second));
    let listed = vec![commit("bbb", "two")];
    let events = poll_git_repo(&mut state, &repo, &second, Some(&listed), None);
    let kinds: Vec<&str> = events.iter().map(|event| event.canonical_kind()).collect();
    assert!(kinds.contains(&"git.commit"));
    assert!(kinds.contains(&"git.branch-changed"));
    let (events, _) = observe_repo(&repo, Some(&state[0].1), &second, None, None);
    assert!(events.is_empty());
}

fn pull(number: u64, state: &str, merged_at: Option<&str>) -> GitHubPullRequest {
    GitHubPullRequest {
        number,
        title: "Phase 1".into(),
        state: state.into(),
        html_url: "https://example.test/pr".into(),
        merged_at: merged_at.map(str::to_string),
    }
}

#[test]
fn pull_requests_are_followed() {
    let repo = repo();
    let remote = "git@github.com:bellman/clawhip.git";
    let snapshot = snapshot_git_repo(&repo, "aaa".into(), "main".into(), "one".into(), remote);
    assert!(pull_request_url("https://api.github.com", &repo, &snapshot)
        .unwrap()
        .starts_with("https://api.github.com/repos/bellman/clawhip/pulls"));
    let mut state = Vec::new();
    let open = pull_request_snapshots(&vec![pull(7, "open", None)]);
    assert!(poll_git_repo(&mut state, &repo, &snapshot, None, Some(open)).is_empty());
    let merged = pull_request_snapshots(&vec![pull(7, "closed", Some("2026-04-02"))]);
    let events = poll_git_repo(&mut state, &repo, &snapshot, None, Some(merged));
    assert_eq!(events.len(), 1);
    assert_eq!(events[0].payload.raw_field("new_status"), Some("merged"));
}

#[test]
fn mention_stands_before_the_content() {
    assert_eq!(content_with_mention(Some("<@1>"), "hello"), "<@1> hello");
    assert_eq!(content_with_mention(Some("  "), "hello"), "hello");
    assert_eq!(content_with_mention(None, "hello"), "hello");
}

#[test]
fn panes_are_reported_hit_by_hit() {
    let pane = |content: &str| TmuxPaneSnapshot {
        pane_id: "%1".into(),
        session: "work".into(),
        pane_name: "0.0".into(),
        content: content.into(),
        pane_dead: false,
    };
    let sessions = vec![(
        "work".to_string(),
        RegisteredTmuxSession {
            session: "work".into(),
            keywords: vec!["error".into()],
            mention: Some("<@1>".into()),
            stale_minutes: 10,
            ..RegisteredTmuxSession::default()
        },
    )];
    let first = poll_tmux(
        Vec::new(),
        &sessions,
        &vec![SessionProbe::Panes(vec![pane("done")])],
        0,
    );
    assert!(first.messages.is_empty());
    let second = poll_tmux(
        first.panes,
        &sessions,
        &vec![SessionProbe::Panes(vec![pane("done\nerror: a\nerror: b")])],
        1_000,
    );
    assert_eq!(second.messages.len(), 2);
    assert_eq!(second.messages[0].mention.as_deref(), Some("<@1>"));
    let third = poll_tmux(
        second.panes,
        &sessions,
        &vec![SessionProbe::Panes(vec![pane("done\nerror: a\nerror: b")])],
        1_000 + 600_000,
    );
    assert_eq!(third.messages.len(), 1);
    assert_eq!(third.messages[0].event.kind, "tmux.stale");
}

#[test]
fn configured_and_registered_sessions_are_watched() {
    let mut config = AppConfig::default();
    config.monitors.tmux.sessions.push(TmuxSessionMonitor {
        session: "a".into(),
        ..TmuxSessionMonitor::default()
    });
    let registered = vec![(
        "b".to_string(),
        RegisteredTmuxSession { session: "b".into(), ..RegisteredTmuxSession::default() },
    )];
    let sessions = monitored_sessions(&config, &registered, "2026-04-02T00:00:00Z");
    let names: Vec<&str> = sessions.iter().map(|(name, _)| name.as_str()).collect();
    assert_eq!(names, vec!["a", "b"]);
}
