use clawhip::codec::parse_json;
use clawhip::dynamic::{dynamic_pieces, DynamicPiece};
use clawhip::events::{short_sha, IncomingEvent, MessageFormat};
use clawhip::json::Json;
use clawhip::render::{is_ci, DefaultRenderer};
use clawhip::template::render_template;

fn json(text: &str) -> Json {
    parse_json(text).unwrap()
}

#[test]
fn renders_template_from_payload() {
    let event = IncomingEvent::github_issue_opened("repo".into(), 42, "broken".into(), None);
    let rendered = render_template("{repo} #{number}: {title}", &event.template_context());
    assert_eq!(rendered, "repo #42: broken");
}

#[test]
fn renders_workspace_skill_event_compact() {
    let event = IncomingEvent::workspace(
        "workspace.skill.activated".into(),
        json(
            r#"{
                "workspace_name": "repo-a",
                "state_file": "skill-active-state.json",
                "skill": "ralph",
                "summary": "workspace skill state changed"
            }"#,
        ),
        None,
    );

    let rendered = DefaultRenderer.render(&event, &MessageFormat::Compact).unwrap();
    assert!(rendered.contains("repo-a"));
    assert!(rendered.contains("workspace skill state changed"));
}

#[test]
fn renders_git_commit_with_worktree_suffix_when_distinct() {
    let event = IncomingEvent::git_commit(
        "repo".into(),
        "main".into(),
        "1234567890abcdef".into(),
        "ship it".into(),
        None,
    )
    .with_repo_context(
        Some("/repo/root".into()),
        Some("/repo/root/.worktrees/issue-115".into()),
    );

    let rendered = DefaultRenderer.render(&event, &MessageFormat::Compact).unwrap();
    assert_eq!(rendered, "git:repo[wt:issue-115]@main 1234567 ship it");
}

#[test]
fn does_not_render_worktree_suffix_for_primary_repo_path() {
    let event = IncomingEvent::git_commit(
        "repo".into(),
        "main".into(),
        "1234567890abcdef".into(),
        "ship it".into(),
        None,
    )
    .with_repo_context(Some("/repo/root".into()), Some("/repo/root".into()));

    let rendered = DefaultRenderer.render(&event, &MessageFormat::Compact).unwrap();
    assert_eq!(rendered, "git:repo@main 1234567 ship it");
}

#[test]
fn formats_of_one_event() {
    let event =
        IncomingEvent::tmux_keyword("issue-24".into(), "error".into(), "boom".into(), None);
    let render = |format: MessageFormat| DefaultRenderer.render(&event, &format).unwrap();
    assert_eq!(
        render(MessageFormat::Alert),
        "🚨 tmux session issue-24 hit keyword 'error': boom"
    );
    assert!(render(MessageFormat::Inline).contains("issue-24"));
    assert!(render(MessageFormat::Raw).contains("\"keyword\""));
}

#[test]
fn events_without_what_they_need_are_not_rendered() {
    let event = IncomingEvent {
        kind: "git.commit".into(),
        channel: None,
        mention: None,
        format: None,
        template: None,
        payload: json("{}"),
    };
    assert!(DefaultRenderer.render(&event, &MessageFormat::Compact).is_err());
}

#[test]
fn templates_without_tokens_stay_as_they_are() {
    let event = IncomingEvent::custom(None, "hello".into());
    assert_eq!(render_template("plain", &event.template_context()), "plain");
    assert_eq!(render_template("{kind}: {message}", &event.template_context()), "custom: hello");
    assert_eq!(render_template("{none}", &event.template_context()), "{none}");
}

#[test]
fn several_commits_become_one_event() {
    let events = IncomingEvent::git_commit_events(
        "clawhip".into(),
        "main".into(),
        vec![("abcdef123456".into(), "first".into()), ("123456abcdef".into(), "second".into())],
        None,
    );
    assert_eq!(events.len(), 1);
    assert_eq!(events[0].payload.count("commit_count"), Some(2));
    assert_eq!(short_sha("1234567890"), "1234567");
    assert!(is_ci("github.ci-failed"));
    assert!(!is_ci("github.ci-unknown"));
}

#[test]
fn labels_of_formats() {
    for format in [
        MessageFormat::Compact,
        MessageFormat::Alert,
        MessageFormat::Inline,
        MessageFormat::Raw,
    ] {
        assert_eq!(MessageFormat::from_label(format.as_str()), Ok(format));
    }
}

#[test]
fn plain_texts_of_events() {
    let issue = IncomingEvent::github_issue_opened("o/r".into(), 7, "Broken".into(), None);
    let text = |event: &IncomingEvent, format: MessageFormat| event.render_default(&format);
    assert_eq!(text(&issue, MessageFormat::Compact), Ok("o/r#7 opened: Broken".to_string()));
    assert_eq!(
        text(&issue, MessageFormat::Alert),
        Ok("🚨 GitHub issue opened in o/r: #7 Broken".to_string())
    );
    assert_eq!(text(&issue, MessageFormat::Inline), Ok("[GitHub] o/r#7 Broken".to_string()));
    assert_eq!(
        text(&issue, MessageFormat::Raw),
        Ok("{\n  \"number\": 7,\n  \"repo\": \"o/r\",\n  \"title\": \"Broken\"\n}".to_string())
    );

    let custom = IncomingEvent::custom(None, "hello".into());
    assert_eq!(text(&custom, MessageFormat::Alert), Ok("🚨 hello".to_string()));

    let mut other = IncomingEvent::custom(None, "hello".into());
    other.kind = "something.else".into();
    assert_eq!(text(&other, MessageFormat::Compact), Ok("{\"message\":\"hello\"}".to_string()));

    let mut incomplete = IncomingEvent::custom(None, "hello".into());
    incomplete.kind = "tmux.stale".into();
    assert_eq!(
        text(&incomplete, MessageFormat::Compact),
        Err("missing string field 'session'".to_string())
    );
}

#[test]
fn dynamic_tokens_are_taken_apart() {
    let context = vec![("repo".to_string(), "{now}".to_string())];
    let pieces = |text: &str| dynamic_pieces(text, &context);
    assert_eq!(pieces("plain"), vec![DynamicPiece::Text("plain".into())]);
    assert_eq!(pieces(""), vec![]);
    assert_eq!(
        pieces("{repo} at {iso_time}: {sh:git log -1} {other} {env:HOME}"),
        vec![
            DynamicPiece::Text("{now}".into()),
            DynamicPiece::Text(" at ".into()),
            DynamicPiece::Now,
            DynamicPiece::Text(": ".into()),
            DynamicPiece::Shell("git log -1".into()),
            DynamicPiece::Text(" ".into()),
            DynamicPiece::Text("{other}".into()),
            DynamicPiece::Text(" ".into()),
            DynamicPiece::Env("HOME".into()),
        ]
    );
    assert_eq!(
        pieces("{tmux_tail:issue-24:5}{file_tail:/var/log/a:b:10}"),
        vec![
            DynamicPiece::TmuxTail { session: "issue-24".into(), lines: 5 },
            DynamicPiece::FileTail { path: "/var/log/a:b".into(), lines: 10 },
        ]
    );
    assert_eq!(
        pieces("{file_tail:/var/log/a}{open"),
        vec![
            DynamicPiece::Text("{file_tail:/var/log/a}".into()),
            DynamicPiece::Text("{open".into()),
        ]
    );
}
