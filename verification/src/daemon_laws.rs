//! What the daemon makes of what comes in, and what it answers.
use vstd::prelude::*;
use vstd::string::*;

use crate::config::{AppSettingsView, RouteView};
use crate::config_rules;
use crate::daemon;
use crate::daemon::{IntakeView, MarksView, PendingUpdate, ReplyView};
use crate::events::EventView;
use crate::json;
use crate::json::Node;
use crate::json_laws;
use crate::normalize;

verus! {

broadcast use {json_laws::group_members, json_laws::group_optional_members};

/// The text at a path of a message, or another where there is none.
pub open spec fn told_at(payload: Node, path: Seq<char>, otherwise: Seq<char>) -> Option<Node> {
    match json::at_path(payload, path) {
        Some(Node::Text(s)) => Some(Node::Text(s)),
        _ => Some(Node::Text(otherwise)),
    }
}

/// The number at a path of a message, or zero where there is none.
pub open spec fn number_at(payload: Node, path: Seq<char>) -> Option<Node> {
    match json::as_count(json::at_path(payload, path)) {
        Some(n) => Some(json::whole(n)),
        None => Some(json::whole(0)),
    }
}

/// An event that goes to no place of its own.
pub open spec fn is_bare(e: EventView, kind: Seq<char>) -> bool {
    e.kind == kind && e.channel is None && e.mention is None && e.format is None && e.template
        is None && e.payload is Object
}

/// What the event of an issue says.
pub open spec fn tells_issue(e: EventView, payload: Node) -> bool {
    &&& json::member(e.payload, "repo"@) == told_at(
        payload,
        "/repository/full_name"@,
        "unknown/unknown"@,
    )
    &&& json::member(e.payload, "number"@) == number_at(payload, "/issue/number"@)
    &&& json::member(e.payload, "title"@) == told_at(payload, "/issue/title"@, "Untitled issue"@)
}

/// What the event of a pull request says.
pub open spec fn tells_pull_request(
    e: EventView,
    payload: Node,
    before: Seq<char>,
    after: Seq<char>,
) -> bool {
    &&& is_bare(e, "github.pr-status-changed"@)
    &&& json::member(e.payload, "repo"@) == told_at(
        payload,
        "/repository/full_name"@,
        "unknown/unknown"@,
    )
    &&& json::member(e.payload, "number"@) == (if json::at_path(
        payload,
        "/pull_request/number"@,
    ) is Some {
        number_at(payload, "/pull_request/number"@)
    } else {
        number_at(payload, "/number"@)
    })
    &&& json::member(e.payload, "title"@) == told_at(
        payload,
        "/pull_request/title"@,
        "Untitled pull request"@,
    )
    &&& json::member(e.payload, "url"@) == told_at(payload, "/pull_request/html_url"@, ""@)
    &&& json::member(e.payload, "old_status"@) == Some(Node::Text(before))
    &&& json::member(e.payload, "new_status"@) == Some(Node::Text(after))
}

/// What the event of a release says.
pub open spec fn tells_release(e: EventView, payload: Node, action: Seq<char>) -> bool {
    &&& is_bare(e, "github.release-"@ + action)
    &&& json::member(e.payload, "repo"@) == told_at(
        payload,
        "/repository/full_name"@,
        "unknown/unknown"@,
    )
    &&& json::member(e.payload, "action"@) == Some(Node::Text(action))
    &&& json::member(e.payload, "tag"@) == told_at(payload, "/release/tag_name"@, ""@)
    &&& json::member(e.payload, "name"@) == told_at(payload, "/release/name"@, ""@)
    &&& json::member(e.payload, "is_prerelease"@) == Some(
        Node::Bool(json::at_path(payload, "/release/prerelease"@) == Some(Node::Bool(true))),
    )
    &&& json::member(e.payload, "url"@) == told_at(payload, "/release/html_url"@, ""@)
    &&& match json::at_path(payload, "/sender/login"@) {
        Some(Node::Text(s)) => json::member(e.payload, "actor"@) == Some(Node::Text(s)),
        _ => json::member(e.payload, "actor"@) is None,
    }
}

proof fn lemma_names()
    ensures
        "repo"@ != "number"@,
        "repo"@ != "title"@,
        "repo"@ != "comments"@,
        "repo"@ != "action"@,
        "repo"@ != "tag"@,
        "repo"@ != "name"@,
        "repo"@ != "is_prerelease"@,
        "repo"@ != "url"@,
        "repo"@ != "actor"@,
        "repo"@ != "old_status"@,
        "repo"@ != "new_status"@,
        "number"@ != "title"@,
        "number"@ != "comments"@,
        "number"@ != "action"@,
        "number"@ != "tag"@,
        "number"@ != "name"@,
        "number"@ != "is_prerelease"@,
        "number"@ != "url"@,
        "number"@ != "actor"@,
        "number"@ != "old_status"@,
        "number"@ != "new_status"@,
        "title"@ != "comments"@,
        "title"@ != "action"@,
        "title"@ != "tag"@,
        "title"@ != "name"@,
        "title"@ != "is_prerelease"@,
        "title"@ != "url"@,
        "title"@ != "actor"@,
        "title"@ != "old_status"@,
        "title"@ != "new_status"@,
        "comments"@ != "action"@,
        "comments"@ != "tag"@,
        "comments"@ != "name"@,
        "comments"@ != "is_prerelease"@,
        "comments"@ != "url"@,
        "comments"@ != "actor"@,
        "comments"@ != "old_status"@,
        "comments"@ != "new_status"@,
        "action"@ != "tag"@,
        "action"@ != "name"@,
        "action"@ != "is_prerelease"@,
        "action"@ != "url"@,
        "action"@ != "actor"@,
        "action"@ != "old_status"@,
        "action"@ != "new_status"@,
        "tag"@ != "name"@,
        "tag"@ != "is_prerelease"@,
        "tag"@ != "url"@,
        "tag"@ != "actor"@,
        "tag"@ != "old_status"@,
        "tag"@ != "new_status"@,
        "name"@ != "is_prerelease"@,
        "name"@ != "url"@,
        "name"@ != "actor"@,
        "name"@ != "old_status"@,
        "name"@ != "new_status"@,
        "is_prerelease"@ != "url"@,
        "is_prerelease"@ != "actor"@,
        "is_prerelease"@ != "old_status"@,
        "is_prerelease"@ != "new_status"@,
        "url"@ != "actor"@,
        "url"@ != "old_status"@,
        "url"@ != "new_status"@,
        "actor"@ != "old_status"@,
        "actor"@ != "new_status"@,
        "old_status"@ != "new_status"@,
{
    reveal_strlit("repo");
    reveal_strlit("number");
    reveal_strlit("title");
    reveal_strlit("comments");
    reveal_strlit("action");
    reveal_strlit("tag");
    reveal_strlit("name");
    reveal_strlit("is_prerelease");
    reveal_strlit("url");
    reveal_strlit("actor");
    reveal_strlit("old_status");
    reveal_strlit("new_status");
    assert("repo"@.len() == 4);
    assert("repo"@[0] == 'r');
    assert("number"@.len() == 6);
    assert("number"@[0] == 'n');
    assert("title"@.len() == 5);
    assert("title"@[0] == 't');
    assert("comments"@.len() == 8);
    assert("action"@.len() == 6);
    assert("action"@[0] == 'a');
    assert("tag"@.len() == 3);
    assert("tag"@[0] == 't');
    assert("name"@.len() == 4);
    assert("name"@[0] == 'n');
    assert("is_prerelease"@.len() == 13);
    assert("url"@.len() == 3);
    assert("url"@[0] == 'u');
    assert("actor"@.len() == 5);
    assert("actor"@[0] == 'a');
    assert("old_status"@.len() == 10);
    assert("old_status"@[0] == 'o');
    assert("new_status"@.len() == 10);
    assert("new_status"@[0] == 'n');
}

proof fn lemma_actions()
    ensures
        "opened"@ != "closed"@,
        "opened"@ != "created"@,
        "opened"@ != "published"@,
        "opened"@ != "released"@,
        "opened"@ != "prereleased"@,
        "opened"@ != "edited"@,
        "closed"@ != "created"@,
        "closed"@ != "published"@,
        "closed"@ != "released"@,
        "closed"@ != "prereleased"@,
        "closed"@ != "edited"@,
        "created"@ != "published"@,
        "created"@ != "released"@,
        "created"@ != "prereleased"@,
        "created"@ != "edited"@,
        "published"@ != "released"@,
        "published"@ != "prereleased"@,
        "published"@ != "edited"@,
        "released"@ != "prereleased"@,
        "released"@ != "edited"@,
        "prereleased"@ != "edited"@,
        "issues"@ != "issue_comment"@,
        "issues"@ != "release"@,
        "issues"@ != "pull_request"@,
        "issue_comment"@ != "release"@,
        "issue_comment"@ != "pull_request"@,
        "release"@ != "pull_request"@,
        ""@.len() == 0,
        "opened"@.len() > 0,
        "closed"@.len() > 0,
        "created"@.len() > 0,
        "published"@.len() > 0,
        "released"@.len() > 0,
        "prereleased"@.len() > 0,
        "edited"@.len() > 0,
{
    reveal_strlit("");
    reveal_strlit("opened");
    reveal_strlit("closed");
    reveal_strlit("created");
    reveal_strlit("published");
    reveal_strlit("released");
    reveal_strlit("prereleased");
    reveal_strlit("edited");
    assert("opened"@.len() == 6);
    assert("opened"@[0] == 'o');
    assert("closed"@.len() == 6);
    assert("closed"@[0] == 'c');
    assert("created"@.len() == 7);
    assert("published"@.len() == 9);
    assert("released"@.len() == 8);
    assert("prereleased"@.len() == 11);
    assert("edited"@.len() == 6);
    assert("edited"@[0] == 'e');
    reveal_strlit("issues");
    reveal_strlit("issue_comment");
    reveal_strlit("release");
    reveal_strlit("pull_request");
    assert("issues"@.len() == 6);
    assert("issue_comment"@.len() == 13);
    assert("release"@.len() == 7);
    assert("pull_request"@.len() == 12);
}

proof fn lemma_issue_payload(payload: Node)
    ensures
        ({
            let p = daemon::issue_payload(payload);
            &&& p is Object
            &&& json::member(p, "repo"@) == told_at(
                payload,
                "/repository/full_name"@,
                "unknown/unknown"@,
            )
            &&& json::member(p, "number"@) == number_at(payload, "/issue/number"@)
            &&& json::member(p, "title"@) == told_at(payload, "/issue/title"@, "Untitled issue"@)
        }),
{
    lemma_names();
}

proof fn lemma_release(payload: Node, action: Seq<char>)
    ensures
        tells_release(daemon::release_event(payload, action), payload, action),
{
    lemma_names();
}

proof fn lemma_pull_request(payload: Node, before: Seq<char>, after: Seq<char>)
    ensures
        tells_pull_request(
            daemon::pull_request_event(payload, before, after),
            payload,
            before,
            after,
        ),
{
    lemma_names();
}

/// GitHub's messages become events: an opened or closed issue, a comment on one, a pull
/// request that is opened or closed, and a release, each with what the message says of it.
/// Every other message becomes none.
pub proof fn law_event_of_a_github_message(name: Seq<char>, payload: Node)
    ensures
        ({
            let action = json::member(payload, "action"@);
            let is = |word: Seq<char>| action == Some(Node::Text(word));
            let release = is("published"@) || is("released"@) || is("prereleased"@) || is(
                "edited"@,
            );
            match daemon::github_event_of(name, payload) {
                Some(e) => {
                    ||| name == "issues"@ && is("opened"@) && is_bare(e, "github.issue-opened"@)
                        && tells_issue(e, payload)
                    ||| name == "issues"@ && is("closed"@) && is_bare(e, "github.issue-closed"@)
                        && tells_issue(e, payload)
                    ||| name == "issue_comment"@ && is("created"@) && is_bare(
                        e,
                        "github.issue-commented"@,
                    ) && tells_issue(e, payload) && json::member(e.payload, "comments"@)
                        == number_at(payload, "/issue/comments"@)
                    ||| name == "pull_request"@ && is("opened"@) && tells_pull_request(
                        e,
                        payload,
                        "unknown"@,
                        "opened"@,
                    )
                    ||| name == "pull_request"@ && is("closed"@) && tells_pull_request(
                        e,
                        payload,
                        "open"@,
                        "closed"@,
                    )
                    ||| name == "release"@ && release && exists|word: Seq<char>|
                        action == Some(Node::Text(word)) && #[trigger] tells_release(
                            e,
                            payload,
                            word,
                        )
                },
                None => {
                    &&& !(name == "issues"@ && (is("opened"@) || is("closed"@)))
                    &&& !(name == "issue_comment"@ && is("created"@))
                    &&& !(name == "pull_request"@ && (is("opened"@) || is("closed"@)))
                    &&& !(name == "release"@ && release)
                },
            }
        }),
{
    lemma_actions();
    let word = daemon::action_of(payload);
    if name == "release"@ {
        lemma_release(payload, word);
        if daemon::is_release_action(word) {
            assert(json::member(payload, "action"@) == Some(Node::Text(word)));
            assert(tells_release(daemon::release_event(payload, word), payload, word));
        }
    } else if name == "pull_request"@ {
        lemma_pull_request(payload, "unknown"@, "opened"@);
        lemma_pull_request(payload, "open"@, "closed"@);
    } else {
        lemma_issue_payload(payload);
        lemma_names();
    }
}

proof fn lemma_answers()
    ensures
        "ok"@ != "error"@,
        "ok"@ != "type"@,
        "ok"@ != "event_id"@,
        "type"@ != "event_id"@,
        "ok"@ != "ignored"@,
        "ok"@ != "reason"@,
        "ignored"@ != "reason"@,
{
    reveal_strlit("ok");
    reveal_strlit("error");
    reveal_strlit("type");
    reveal_strlit("event_id");
    reveal_strlit("ignored");
    reveal_strlit("reason");
    assert("ok"@.len() == 2);
    assert("error"@.len() == 5);
    assert("type"@.len() == 4);
    assert("event_id"@.len() == 8);
    assert("ignored"@.len() == 7);
    assert("reason"@.len() == 6);
}

/// A refusal says that it is one and why.
pub open spec fn refuses(reply: ReplyView, status: u16, error: Seq<char>) -> bool {
    &&& reply.status == status
    &&& json::member(reply.body, "ok"@) == Some(Node::Bool(false))
    &&& json::member(reply.body, "error"@) == Some(Node::Text(error))
}

/// An event that comes in is queued in normal form, and its sender told its kind and its
/// identifier, unless it cannot be typed: that one is refused with the reason.
pub proof fn law_event_is_taken_in(event: EventView, marks: MarksView)
    ensures
        ({
            let normal = normalize::normalized(event, marks.id, marks.seen);
            match (daemon::checked(normal, marks), daemon::taken_in(event, marks)) {
                (Ok(envelope), IntakeView::Queue { event: queued, reply }) => {
                    &&& queued == normal
                    &&& reply.status == 202
                    &&& json::member(reply.body, "ok"@) == Some(Node::Bool(true))
                    &&& json::member(reply.body, "type"@) == Some(Node::Text(normal.kind))
                    &&& json::member(reply.body, "event_id"@) == Some(Node::Text(envelope.id))
                },
                (Err(e), IntakeView::Reply(reply)) => refuses(reply, 400, e),
                _ => false,
            }
        }),
{
    lemma_answers();
}

/// What could not be read is refused with the status that goes with it.
pub proof fn law_unread_event_is_refused(error: Seq<char>, status: u16, marks: MarksView)
    ensures
        match daemon::taken_in_if_read(Err(error), status, marks) {
            IntakeView::Reply(reply) => refuses(reply, status, error),
            _ => false,
        },
{
    lemma_answers();
}

/// A message from GitHub is queued as its event, refused where that cannot be typed, and
/// ignored where there is none.
pub proof fn law_github_message_is_taken_in(name: Seq<char>, payload: Node, marks: MarksView)
    ensures
        match daemon::github_event_of(name, payload) {
            Some(event) => {
                let normal = normalize::normalized(event, marks.id, marks.seen);
                match (daemon::checked(normal, marks), daemon::github_taken_in(
                    name,
                    payload,
                    marks,
                )) {
                    (Ok(_), IntakeView::Queue { event: queued, reply }) => queued == normal
                        && reply.status == 202 && json::member(reply.body, "ok"@) == Some(
                        Node::Bool(true),
                    ),
                    (Err(e), IntakeView::Reply(reply)) => refuses(reply, 400, e),
                    _ => false,
                }
            },
            None => match daemon::github_taken_in(name, payload, marks) {
                IntakeView::Reply(reply) => {
                    &&& reply.status == 202
                    &&& json::member(reply.body, "ok"@) == Some(Node::Bool(true))
                    &&& json::member(reply.body, "ignored"@) == Some(Node::Bool(true))
                    &&& name == "pull_request"@ ==> json::member(reply.body, "reason"@) == Some(
                        Node::Text("unsupported pull_request action"@),
                    )
                    &&& name != "pull_request"@ ==> json::member(reply.body, "reason"@) == Some(
                        Node::Text("unsupported event"@),
                    )
                },
                _ => false,
            },
        },
{
    lemma_answers();
}

proof fn lemma_webhooks(routes: Seq<RouteView>)
    ensures
        config_rules::webhook_count(routes) > 0 <==> exists|i: int|
            0 <= i < routes.len() && (#[trigger] routes[i]).has_webhook(),
    decreases routes.len(),
{
    if routes.len() > 0 {
        let front = routes.drop_last();
        lemma_webhooks(front);
        if config_rules::webhook_count(front) > 0 {
            let i = choose|i: int| 0 <= i < front.len() && (#[trigger] front[i]).has_webhook();
            assert(routes[i].has_webhook());
        }
        if exists|i: int| 0 <= i < routes.len() && (#[trigger] routes[i]).has_webhook() {
            let i = choose|i: int| 0 <= i < routes.len() && (#[trigger] routes[i]).has_webhook();
            if i < front.len() {
                assert(front[i].has_webhook());
            }
        }
        assert(routes[routes.len() - 1] == routes.last());
    }
}

/// The daemon says of itself which version it is, where its token comes from, whether some
/// route has a webhook, where it listens, and how much of each kind it watches.
pub proof fn law_health_is_told(
    config: AppSettingsView,
    port: u16,
    registered: usize,
    env: Option<Seq<char>>,
)
    ensures
        ({
            let h = daemon::health_of(config, port, registered, env);
            let number = |n: nat| Some(json::whole(n as u64));
            &&& json::member(h, "ok"@) == Some(Node::Bool(true))
            &&& json::member(h, "version"@) == Some(Node::Text("0.5.4"@))
            &&& json::member(h, "token_source"@) == Some(Node::Text(config.token_source(env)))
            &&& json::member(h, "webhook_routes_configured"@) == Some(
                Node::Bool(
                    exists|i: int|
                        0 <= i < config.routes.len() && (#[trigger] config.routes[i]).has_webhook(),
                ),
            )
            &&& json::member(h, "port"@) == number(port as nat)
            &&& json::member(h, "daemon_base_url"@) == Some(Node::Text(config.daemon.base_url))
            &&& json::member(h, "configured_git_monitors"@) == number(
                config.monitors.git.repos.len(),
            )
            &&& json::member(h, "configured_tmux_monitors"@) == number(
                config.monitors.tmux.sessions.len(),
            )
            &&& json::member(h, "configured_workspace_monitors"@) == number(
                config.monitors.workspace.len(),
            )
            &&& json::member(h, "configured_cron_jobs"@) == number(config.cron.jobs.len())
            &&& json::member(h, "registered_tmux_sessions"@) == number(registered as nat)
        }),
{
    lemma_webhooks(config.routes);
    reveal_strlit("ok");
    reveal_strlit("version");
    reveal_strlit("token_source");
    reveal_strlit("webhook_routes_configured");
    reveal_strlit("port");
    reveal_strlit("daemon_base_url");
    reveal_strlit("configured_git_monitors");
    reveal_strlit("configured_tmux_monitors");
    reveal_strlit("configured_workspace_monitors");
    reveal_strlit("configured_cron_jobs");
    reveal_strlit("registered_tmux_sessions");
    assert("ok"@.len() == 2);
    assert("version"@.len() == 7);
    assert("token_source"@.len() == 12);
    assert("webhook_routes_configured"@.len() == 25);
    assert("port"@.len() == 4);
    assert("daemon_base_url"@.len() == 15);
    assert("configured_git_monitors"@.len() == 23);
    assert("configured_tmux_monitors"@.len() == 24);
    assert("configured_tmux_monitors"@[0] == 'c');
    assert("configured_workspace_monitors"@.len() == 29);
    assert("configured_cron_jobs"@.len() == 20);
    assert("registered_tmux_sessions"@.len() == 24);
    assert("registered_tmux_sessions"@[0] == 'r');
}

/// A source that stopped is reported as an alert that names it and the error.
pub proof fn law_stopped_source_is_reported(source: Seq<char>, error: Seq<char>)
    ensures
        ({
            let e = daemon::failure_event(source, error);
            &&& e.kind == "custom"@
            &&& e.format == Some(crate::events::MessageFormat::Alert)
            &&& e.channel is None
            &&& e.mention is None
            &&& e.template is None
            &&& json::member(e.payload, "message"@) == Some(
                Node::Text(
                    "clawhip degraded: source '"@ + source + "' stopped: "@ + error,
                ),
            )
            &&& json::member(e.payload, "source_name"@) == Some(Node::Text(source))
            &&& json::member(e.payload, "health_status"@) == Some(Node::Text("degraded"@))
            &&& json::member(e.payload, "error_message"@) == Some(Node::Text(error))
        }),
{
    reveal_strlit("message");
    reveal_strlit("source_name");
    reveal_strlit("health_status");
    reveal_strlit("error_message");
    assert("message"@.len() == 7);
    assert("source_name"@.len() == 11);
    assert("health_status"@.len() == 13);
    assert("health_status"@[0] == 'h');
    assert("error_message"@.len() == 13);
    assert("error_message"@[0] == 'e');
}

/// Whoever asks for a newer release is told of it, or that there is none.
pub proof fn law_newer_release_is_told(pending: Option<PendingUpdate>)
    ensures
        ({
            let reply = daemon::update_answer(pending);
            &&& reply.status == 200
            &&& json::member(reply.body, "pending"@) == Some(Node::Bool(pending is Some))
            &&& match pending {
                Some(update) => {
                    &&& json::member(reply.body, "current_version"@) == Some(
                        Node::Text(update.current_version@),
                    )
                    &&& json::member(reply.body, "latest_version"@) == Some(
                        Node::Text(update.latest_version@),
                    )
                    &&& json::member(reply.body, "release_url"@) == Some(
                        Node::Text(update.release_url@),
                    )
                    &&& json::member(reply.body, "detected_at"@) == Some(
                        Node::Text(update.detected_at@),
                    )
                },
                None => {
                    &&& json::member(reply.body, "current_version"@) == Some(
                        Node::Text("0.5.4"@),
                    )
                    &&& json::member(reply.body, "latest_version"@) is None
                },
            }
        }),
{
    reveal_strlit("pending");
    reveal_strlit("current_version");
    reveal_strlit("latest_version");
    reveal_strlit("release_url");
    reveal_strlit("detected_at");
    assert("pending"@.len() == 7);
    assert("current_version"@.len() == 15);
    assert("latest_version"@.len() == 14);
    assert("release_url"@.len() == 11);
    assert("release_url"@[0] == 'r');
    assert("detected_at"@.len() == 11);
    assert("detected_at"@[0] == 'd');
}

} // verus!
