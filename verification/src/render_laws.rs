//! What the messages of the default renderer say.
use vstd::prelude::*;
use vstd::string::*;

use crate::codec;
use crate::compose;
use crate::events;
use crate::events::{EventView, MessageFormat};
use crate::json;
use crate::json::Node;
use crate::labels;
use crate::paths;
use crate::pieces;
use crate::pieces::Piece;
use crate::render;
use crate::scan;
use crate::text;

verus! {

proof fn lemma_message_step(node: Node, pieces: Seq<Piece>, k: int)
    requires
        0 <= k < pieces.len(),
    ensures
        pieces::message(node, pieces.take(k + 1)) == (match pieces::message(
            node,
            pieces.take(k),
        ) {
            Err(e) => Err(e),
            Ok(front) => match pieces::piece_text(node, pieces[k]) {
                Err(e) => Err(e),
                Ok(piece) => Ok(front + piece),
            },
        }),
{
    assert(pieces.take(k + 1).drop_last() =~= pieces.take(k));
}

proof fn lemma_nothing_before()
    ensures
        forall|x: Seq<char>| #[trigger] (Seq::<char>::empty() + x) == x,
{
    assert forall|x: Seq<char>| #[trigger] (Seq::<char>::empty() + x) == x by {
        assert(Seq::<char>::empty() + x =~= x);
    }
}

proof fn lemma_no_family(kind: Seq<char>)
    requires
        kind.len() > 0,
        kind[0] != 's',
        kind[0] != 'w',
    ensures
        !text::begins_with(kind, "session."@),
        !text::begins_with(kind, "workspace."@),
{
    reveal_strlit("session.");
    reveal_strlit("workspace.");
    if text::begins_with(kind, "session."@) {
        assert(kind.subrange(0, 8)[0] == kind[0]);
    }
    if text::begins_with(kind, "workspace."@) {
        assert(kind.subrange(0, 10)[0] == kind[0]);
    }
}

proof fn lemma_custom_messages_compact(p: Node)
    ensures
        pieces::message(p, seq![Piece::Text("message")]) == (
            match json::field(p, "message"@) {
                None => Err("missing string field '"@ + "message"@ + "'"@),
                Some(message) => Ok::<Seq<char>, Seq<char>>(message),
            }
        ),
{
    lemma_nothing_before();
    let s: Seq<Piece> = seq![Piece::Text("message")];
    assert(s.take(0).len() == 0);
    lemma_message_step(p, s, 0);
    assert(s.take(1) =~= s);
}

proof fn lemma_custom_messages_alert(p: Node)
    ensures
        pieces::message(p, seq![Piece::Word("🚨 "), Piece::Text("message")]) == (
            match json::field(p, "message"@) {
                None => Err("missing string field '"@ + "message"@ + "'"@),
                Some(message) => Ok::<Seq<char>, Seq<char>>("🚨 "@ + message),
            }
        ),
{
    lemma_nothing_before();
    let s: Seq<Piece> = seq![Piece::Word("🚨 "), Piece::Text("message")];
    assert(s.take(0).len() == 0);
    lemma_message_step(p, s, 0);
    lemma_message_step(p, s, 1);
    assert(s.take(2) =~= s);
}

proof fn lemma_custom_messages_inline(p: Node)
    ensures
        pieces::message(p, seq![Piece::Text("message")]) == (
            match json::field(p, "message"@) {
                None => Err("missing string field '"@ + "message"@ + "'"@),
                Some(message) => Ok::<Seq<char>, Seq<char>>(message),
            }
        ),
{
    lemma_nothing_before();
    let s: Seq<Piece> = seq![Piece::Text("message")];
    assert(s.take(0).len() == 0);
    lemma_message_step(p, s, 0);
    assert(s.take(1) =~= s);
}

proof fn lemma_custom_messages_pieces(kind: Seq<char>)
    requires
        kind == "custom"@,
    ensures
        !render::is_ci_kind(kind),
        kind.len() > 0 && kind[0] != 's' && kind[0] != 'w',
        kind != "git.commit"@,
        kind != "tmux.keyword"@,
        render::message_pieces(
            kind,
            MessageFormat::Compact,
        ) == Some::<Seq<Piece>>(seq![Piece::Text("message")]),
        render::message_pieces(kind, MessageFormat::Alert) == Some::<Seq<Piece>>(
            seq![Piece::Word("🚨 "), Piece::Text("message")],
        ),
        render::message_pieces(kind, MessageFormat::Inline) == Some::<Seq<Piece>>(
            seq![Piece::Text("message")],
        ),
{
    reveal_strlit("custom");
    reveal_strlit("agent.started");
    reveal_strlit("agent.blocked");
    reveal_strlit("agent.finished");
    reveal_strlit("agent.failed");
    reveal_strlit("github.issue-opened");
    reveal_strlit("github.issue-commented");
    reveal_strlit("github.issue-closed");
    reveal_strlit("git.commit");
    reveal_strlit("git.branch-changed");
    reveal_strlit("github.pr-status-changed");
    reveal_strlit("tmux.keyword");
    reveal_strlit("tmux.stale");
    reveal_strlit("github.ci-started");
    reveal_strlit("github.ci-failed");
    reveal_strlit("github.ci-passed");
    reveal_strlit("github.ci-cancelled");
    assert("custom"@.len() == 6);
    assert("agent.started"@.len() == 13);
    assert("agent.blocked"@.len() == 13);
    assert("agent.finished"@.len() == 14);
    assert("agent.failed"@.len() == 12);
    assert("github.issue-opened"@.len() == 19);
    assert("github.issue-commented"@.len() == 22);
    assert("github.issue-closed"@.len() == 19);
    assert("git.commit"@.len() == 10);
    assert("git.branch-changed"@.len() == 18);
    assert("github.pr-status-changed"@.len() == 24);
    assert("tmux.keyword"@.len() == 12);
    assert("tmux.stale"@.len() == 10);
    assert("github.ci-started"@.len() == 17);
    assert("github.ci-failed"@.len() == 16);
    assert("github.ci-passed"@.len() == 16);
    assert("github.ci-cancelled"@.len() == 19);
    assert("custom"@[0] == 'c');
}

/// The message of the user's own, behind a siren as an alert.
pub proof fn law_text_of_custom_messages(event: EventView)
    requires
        events::canonical_kind(event.kind) == "custom"@,
    ensures
        ({
            let p = event.payload;
            &&& render::rendered(event, MessageFormat::Compact) == (
                match json::field(p, "message"@) {
                    None => Err("missing string field '"@ + "message"@ + "'"@),
                    Some(message) => Ok::<Seq<char>, Seq<char>>(message),
                }
            )
            &&& render::rendered(event, MessageFormat::Alert) == (
                match json::field(p, "message"@) {
                    None => Err("missing string field '"@ + "message"@ + "'"@),
                    Some(message) => Ok::<Seq<char>, Seq<char>>("🚨 "@ + message),
                }
            )
            &&& render::rendered(event, MessageFormat::Inline) == (
                match json::field(p, "message"@) {
                    None => Err("missing string field '"@ + "message"@ + "'"@),
                    Some(message) => Ok::<Seq<char>, Seq<char>>(message),
                }
            )
        }),
{
    let kind = events::canonical_kind(event.kind);
    let p = event.payload;
    lemma_custom_messages_pieces(kind);
    lemma_no_family(kind);
    lemma_custom_messages_compact(p);
    lemma_custom_messages_alert(p);
    lemma_custom_messages_inline(p);
}

proof fn lemma_agents_compact(p: Node)
    ensures
        pieces::message(p, seq![Piece::Mention, Piece::Word("agent "), Piece::Text("agent_name"), Piece::AgentDetail]) == (
            match json::field(p, "agent_name"@) {
                None => Err("missing string field '"@ + "agent_name"@ + "'"@),
                Some(agent_name) => Ok::<Seq<char>, Seq<char>>(
                    (
                        match json::field(p, "mention"@) {
                            Some(m) => m + " "@,
                            None => Seq::empty(),
                        }
                    ) + "agent "@ + agent_name + labels::agent_detail(p),
                ),
            }
        ),
{
    lemma_nothing_before();
    let s: Seq<Piece> = seq![
        Piece::Mention,
        Piece::Word("agent "),
        Piece::Text("agent_name"),
        Piece::AgentDetail,
    ];
    assert(s.take(0).len() == 0);
    lemma_message_step(p, s, 0);
    lemma_message_step(p, s, 1);
    lemma_message_step(p, s, 2);
    lemma_message_step(p, s, 3);
    assert(s.take(4) =~= s);
}

proof fn lemma_agents_alert(p: Node)
    ensures
        pieces::message(p, seq![Piece::Word("🚨 "), Piece::Mention, Piece::Word("agent "), Piece::Text("agent_name"), Piece::AgentDetail]) == (
            match json::field(p, "agent_name"@) {
                None => Err("missing string field '"@ + "agent_name"@ + "'"@),
                Some(agent_name) => Ok::<Seq<char>, Seq<char>>(
                    "🚨 "@ + (
                        match json::field(p, "mention"@) {
                            Some(m) => m + " "@,
                            None => Seq::empty(),
                        }
                    ) + "agent "@ + agent_name + labels::agent_detail(p),
                ),
            }
        ),
{
    lemma_nothing_before();
    let s: Seq<Piece> = seq![
        Piece::Word("🚨 "),
        Piece::Mention,
        Piece::Word("agent "),
        Piece::Text("agent_name"),
        Piece::AgentDetail,
    ];
    assert(s.take(0).len() == 0);
    lemma_message_step(p, s, 0);
    lemma_message_step(p, s, 1);
    lemma_message_step(p, s, 2);
    lemma_message_step(p, s, 3);
    lemma_message_step(p, s, 4);
    assert(s.take(5) =~= s);
}

proof fn lemma_agents_inline(p: Node)
    ensures
        pieces::message(p, seq![Piece::Mention, Piece::Word("[agent:"), Piece::Text("agent_name"), Piece::Word("] "), Piece::Text("status"), Piece::AgentInline]) == (
            match json::field(p, "agent_name"@) {
                None => Err("missing string field '"@ + "agent_name"@ + "'"@),
                Some(agent_name) => match json::field(p, "status"@) {
                    None => Err("missing string field '"@ + "status"@ + "'"@),
                    Some(status) => Ok::<Seq<char>, Seq<char>>(
                        (
                            match json::field(p, "mention"@) {
                                Some(m) => m + " "@,
                                None => Seq::empty(),
                            }
                        ) + "[agent:"@ + agent_name + "] "@ + status + labels::agent_inline(p),
                    ),
                },
            }
        ),
{
    lemma_nothing_before();
    let s: Seq<Piece> = seq![
        Piece::Mention,
        Piece::Word("[agent:"),
        Piece::Text("agent_name"),
        Piece::Word("] "),
        Piece::Text("status"),
        Piece::AgentInline,
    ];
    assert(s.take(0).len() == 0);
    lemma_message_step(p, s, 0);
    lemma_message_step(p, s, 1);
    lemma_message_step(p, s, 2);
    lemma_message_step(p, s, 3);
    lemma_message_step(p, s, 4);
    lemma_message_step(p, s, 5);
    assert(s.take(6) =~= s);
}

proof fn lemma_agents_pieces(kind: Seq<char>)
    requires
        kind == "agent.started"@ || kind == "agent.blocked"@ || kind == "agent.finished"@ || kind
            == "agent.failed"@,
    ensures
        !render::is_ci_kind(kind),
        kind.len() > 0 && kind[0] != 's' && kind[0] != 'w',
        kind != "git.commit"@,
        kind != "tmux.keyword"@,
        render::message_pieces(kind, MessageFormat::Compact) == Some::<Seq<Piece>>(
            seq![
                Piece::Mention,
                Piece::Word("agent "),
                Piece::Text("agent_name"),
                Piece::AgentDetail,
            ],
        ),
        render::message_pieces(kind, MessageFormat::Alert) == Some::<Seq<Piece>>(
            seq![
                Piece::Word("🚨 "),
                Piece::Mention,
                Piece::Word("agent "),
                Piece::Text("agent_name"),
                Piece::AgentDetail,
            ],
        ),
        render::message_pieces(kind, MessageFormat::Inline) == Some::<Seq<Piece>>(
            seq![
                Piece::Mention,
                Piece::Word("[agent:"),
                Piece::Text("agent_name"),
                Piece::Word("] "),
                Piece::Text("status"),
                Piece::AgentInline,
            ],
        ),
{
    reveal_strlit("custom");
    reveal_strlit("agent.started");
    reveal_strlit("agent.blocked");
    reveal_strlit("agent.finished");
    reveal_strlit("agent.failed");
    reveal_strlit("github.issue-opened");
    reveal_strlit("github.issue-commented");
    reveal_strlit("github.issue-closed");
    reveal_strlit("git.commit");
    reveal_strlit("git.branch-changed");
    reveal_strlit("github.pr-status-changed");
    reveal_strlit("tmux.keyword");
    reveal_strlit("tmux.stale");
    reveal_strlit("github.ci-started");
    reveal_strlit("github.ci-failed");
    reveal_strlit("github.ci-passed");
    reveal_strlit("github.ci-cancelled");
    assert("custom"@.len() == 6);
    assert("agent.started"@.len() == 13);
    assert("agent.started"@[6] == 's');
    assert("agent.blocked"@.len() == 13);
    assert("agent.blocked"@[6] == 'b');
    assert("agent.finished"@.len() == 14);
    assert("agent.failed"@.len() == 12);
    assert("agent.failed"@[0] == 'a');
    assert("github.issue-opened"@.len() == 19);
    assert("github.issue-commented"@.len() == 22);
    assert("github.issue-closed"@.len() == 19);
    assert("git.commit"@.len() == 10);
    assert("git.branch-changed"@.len() == 18);
    assert("github.pr-status-changed"@.len() == 24);
    assert("tmux.keyword"@.len() == 12);
    assert("tmux.keyword"@[0] == 't');
    assert("tmux.stale"@.len() == 10);
    assert("github.ci-started"@.len() == 17);
    assert("github.ci-failed"@.len() == 16);
    assert("github.ci-passed"@.len() == 16);
    assert("github.ci-cancelled"@.len() == 19);
    assert("agent.started"@[0] == 'a');
    assert("agent.blocked"@[0] == 'a');
    assert("agent.finished"@[0] == 'a');
    assert("agent.failed"@[0] == 'a');
}

/// What an agent does: its name and what is known of it, behind whom it mentions.
pub proof fn law_text_of_agents(event: EventView)
    requires
        events::canonical_kind(event.kind) == "agent.started"@
            || events::canonical_kind(event.kind) == "agent.blocked"@
            || events::canonical_kind(event.kind) == "agent.finished"@
            || events::canonical_kind(event.kind) == "agent.failed"@,
    ensures
        ({
            let p = event.payload;
            &&& render::rendered(event, MessageFormat::Compact) == (
                match json::field(p, "agent_name"@) {
                    None => Err("missing string field '"@ + "agent_name"@ + "'"@),
                    Some(agent_name) => Ok::<Seq<char>, Seq<char>>(
                        (
                            match json::field(p, "mention"@) {
                                Some(m) => m + " "@,
                                None => Seq::empty(),
                            }
                        ) + "agent "@ + agent_name + labels::agent_detail(p),
                    ),
                }
            )
            &&& render::rendered(event, MessageFormat::Alert) == (
                match json::field(p, "agent_name"@) {
                    None => Err("missing string field '"@ + "agent_name"@ + "'"@),
                    Some(agent_name) => Ok::<Seq<char>, Seq<char>>(
                        "🚨 "@ + (
                            match json::field(p, "mention"@) {
                                Some(m) => m + " "@,
                                None => Seq::empty(),
                            }
                        ) + "agent "@ + agent_name + labels::agent_detail(p),
                    ),
                }
            )
            &&& render::rendered(event, MessageFormat::Inline) == (
                match json::field(p, "agent_name"@) {
                    None => Err("missing string field '"@ + "agent_name"@ + "'"@),
                    Some(agent_name) => match json::field(p, "status"@) {
                        None => Err("missing string field '"@ + "status"@ + "'"@),
                        Some(status) => Ok::<Seq<char>, Seq<char>>(
                            (
                                match json::field(p, "mention"@) {
                                    Some(m) => m + " "@,
                                    None => Seq::empty(),
                                }
                            ) + "[agent:"@ + agent_name + "] "@ + status + labels::agent_inline(p),
                        ),
                    },
                }
            )
        }),
{
    let kind = events::canonical_kind(event.kind);
    let p = event.payload;
    lemma_agents_pieces(kind);
    lemma_no_family(kind);
    lemma_agents_compact(p);
    lemma_agents_alert(p);
    lemma_agents_inline(p);
}

proof fn lemma_opened_issues_compact(p: Node)
    ensures
        pieces::message(p, seq![Piece::Text("repo"), Piece::Word("#"), Piece::Number("number"), Piece::Word(" opened: "), Piece::Text("title")]) == (
            match json::field(p, "repo"@) {
                None => Err("missing string field '"@ + "repo"@ + "'"@),
                Some(repo) => match json::count(p, "number"@) {
                    None => Err("missing integer field '"@ + "number"@ + "'"@),
                    Some(number) => match json::field(p, "title"@) {
                        None => Err("missing string field '"@ + "title"@ + "'"@),
                        Some(title) => Ok::<Seq<char>, Seq<char>>(
                            repo + "#"@ + compose::decimal(number as nat) + " opened: "@ + title,
                        ),
                    },
                },
            }
        ),
{
    lemma_nothing_before();
    let s: Seq<Piece> = seq![
        Piece::Text("repo"),
        Piece::Word("#"),
        Piece::Number("number"),
        Piece::Word(" opened: "),
        Piece::Text("title"),
    ];
    assert(s.take(0).len() == 0);
    lemma_message_step(p, s, 0);
    lemma_message_step(p, s, 1);
    lemma_message_step(p, s, 2);
    lemma_message_step(p, s, 3);
    lemma_message_step(p, s, 4);
    assert(s.take(5) =~= s);
}

proof fn lemma_opened_issues_alert(p: Node)
    ensures
        pieces::message(p, seq![Piece::Word("🚨 GitHub issue opened in "), Piece::Text("repo"), Piece::Word(": #"), Piece::Number("number"), Piece::Word(" "), Piece::Text("title")]) == (
            match json::field(p, "repo"@) {
                None => Err("missing string field '"@ + "repo"@ + "'"@),
                Some(repo) => match json::count(p, "number"@) {
                    None => Err("missing integer field '"@ + "number"@ + "'"@),
                    Some(number) => match json::field(p, "title"@) {
                        None => Err("missing string field '"@ + "title"@ + "'"@),
                        Some(title) => Ok::<Seq<char>, Seq<char>>(
                            "🚨 GitHub issue opened in "@ + repo + ": #"@ + compose::decimal(
                                number as nat,
                            ) + " "@ + title,
                        ),
                    },
                },
            }
        ),
{
    lemma_nothing_before();
    let s: Seq<Piece> = seq![
        Piece::Word("🚨 GitHub issue opened in "),
        Piece::Text("repo"),
        Piece::Word(": #"),
        Piece::Number("number"),
        Piece::Word(" "),
        Piece::Text("title"),
    ];
    assert(s.take(0).len() == 0);
    lemma_message_step(p, s, 0);
    lemma_message_step(p, s, 1);
    lemma_message_step(p, s, 2);
    lemma_message_step(p, s, 3);
    lemma_message_step(p, s, 4);
    lemma_message_step(p, s, 5);
    assert(s.take(6) =~= s);
}

proof fn lemma_opened_issues_inline(p: Node)
    ensures
        pieces::message(p, seq![Piece::Word("[GitHub] "), Piece::Text("repo"), Piece::Word("#"), Piece::Number("number"), Piece::Word(" "), Piece::Text("title")]) == (
            match json::field(p, "repo"@) {
                None => Err("missing string field '"@ + "repo"@ + "'"@),
                Some(repo) => match json::count(p, "number"@) {
                    None => Err("missing integer field '"@ + "number"@ + "'"@),
                    Some(number) => match json::field(p, "title"@) {
                        None => Err("missing string field '"@ + "title"@ + "'"@),
                        Some(title) => Ok::<Seq<char>, Seq<char>>(
                            "[GitHub] "@ + repo + "#"@ + compose::decimal(
                                number as nat,
                            ) + " "@ + title,
                        ),
                    },
                },
            }
        ),
{
    lemma_nothing_before();
    let s: Seq<Piece> = seq![
        Piece::Word("[GitHub] "),
        Piece::Text("repo"),
        Piece::Word("#"),
        Piece::Number("number"),
        Piece::Word(" "),
        Piece::Text("title"),
    ];
    assert(s.take(0).len() == 0);
    lemma_message_step(p, s, 0);
    lemma_message_step(p, s, 1);
    lemma_message_step(p, s, 2);
    lemma_message_step(p, s, 3);
    lemma_message_step(p, s, 4);
    lemma_message_step(p, s, 5);
    assert(s.take(6) =~= s);
}

proof fn lemma_opened_issues_pieces(kind: Seq<char>)
    requires
        kind == "github.issue-opened"@,
    ensures
        !render::is_ci_kind(kind),
        kind.len() > 0 && kind[0] != 's' && kind[0] != 'w',
        kind != "git.commit"@,
        kind != "tmux.keyword"@,
        render::message_pieces(kind, MessageFormat::Compact) == Some::<Seq<Piece>>(
            seq![
                Piece::Text("repo"),
                Piece::Word("#"),
                Piece::Number("number"),
                Piece::Word(" opened: "),
                Piece::Text("title"),
            ],
        ),
        render::message_pieces(kind, MessageFormat::Alert) == Some::<Seq<Piece>>(
            seq![
                Piece::Word("🚨 GitHub issue opened in "),
                Piece::Text("repo"),
                Piece::Word(": #"),
                Piece::Number("number"),
                Piece::Word(" "),
                Piece::Text("title"),
            ],
        ),
        render::message_pieces(kind, MessageFormat::Inline) == Some::<Seq<Piece>>(
            seq![
                Piece::Word("[GitHub] "),
                Piece::Text("repo"),
                Piece::Word("#"),
                Piece::Number("number"),
                Piece::Word(" "),
                Piece::Text("title"),
            ],
        ),
{
    reveal_strlit("custom");
    reveal_strlit("agent.started");
    reveal_strlit("agent.blocked");
    reveal_strlit("agent.finished");
    reveal_strlit("agent.failed");
    reveal_strlit("github.issue-opened");
    reveal_strlit("github.issue-commented");
    reveal_strlit("github.issue-closed");
    reveal_strlit("git.commit");
    reveal_strlit("git.branch-changed");
    reveal_strlit("github.pr-status-changed");
    reveal_strlit("tmux.keyword");
    reveal_strlit("tmux.stale");
    reveal_strlit("github.ci-started");
    reveal_strlit("github.ci-failed");
    reveal_strlit("github.ci-passed");
    reveal_strlit("github.ci-cancelled");
    assert("custom"@.len() == 6);
    assert("agent.started"@.len() == 13);
    assert("agent.blocked"@.len() == 13);
    assert("agent.finished"@.len() == 14);
    assert("agent.failed"@.len() == 12);
    assert("github.issue-opened"@.len() == 19);
    assert("github.issue-opened"@[7] == 'i');
    assert("github.issue-opened"@[13] == 'o');
    assert("github.issue-commented"@.len() == 22);
    assert("github.issue-closed"@.len() == 19);
    assert("github.issue-closed"@[13] == 'c');
    assert("git.commit"@.len() == 10);
    assert("git.branch-changed"@.len() == 18);
    assert("github.pr-status-changed"@.len() == 24);
    assert("tmux.keyword"@.len() == 12);
    assert("tmux.stale"@.len() == 10);
    assert("github.ci-started"@.len() == 17);
    assert("github.ci-failed"@.len() == 16);
    assert("github.ci-passed"@.len() == 16);
    assert("github.ci-cancelled"@.len() == 19);
    assert("github.ci-cancelled"@[7] == 'c');
    assert("github.issue-opened"@[0] == 'g');
}

/// An issue that was opened: repository, number and title.
pub proof fn law_text_of_opened_issues(event: EventView)
    requires
        events::canonical_kind(event.kind) == "github.issue-opened"@,
    ensures
        ({
            let p = event.payload;
            &&& render::rendered(event, MessageFormat::Compact) == (
                match json::field(p, "repo"@) {
                    None => Err("missing string field '"@ + "repo"@ + "'"@),
                    Some(repo) => match json::count(p, "number"@) {
                        None => Err("missing integer field '"@ + "number"@ + "'"@),
                        Some(number) => match json::field(p, "title"@) {
                            None => Err("missing string field '"@ + "title"@ + "'"@),
                            Some(title) => Ok::<Seq<char>, Seq<char>>(
                                repo + "#"@ + compose::decimal(
                                    number as nat,
                                ) + " opened: "@ + title,
                            ),
                        },
                    },
                }
            )
            &&& render::rendered(event, MessageFormat::Alert) == (
                match json::field(p, "repo"@) {
                    None => Err("missing string field '"@ + "repo"@ + "'"@),
                    Some(repo) => match json::count(p, "number"@) {
                        None => Err("missing integer field '"@ + "number"@ + "'"@),
                        Some(number) => match json::field(p, "title"@) {
                            None => Err("missing string field '"@ + "title"@ + "'"@),
                            Some(title) => Ok::<Seq<char>, Seq<char>>(
                                "🚨 GitHub issue opened in "@ + repo + ": #"@ + compose::decimal(
                                    number as nat,
                                ) + " "@ + title,
                            ),
                        },
                    },
                }
            )
            &&& render::rendered(event, MessageFormat::Inline) == (
                match json::field(p, "repo"@) {
                    None => Err("missing string field '"@ + "repo"@ + "'"@),
                    Some(repo) => match json::count(p, "number"@) {
                        None => Err("missing integer field '"@ + "number"@ + "'"@),
                        Some(number) => match json::field(p, "title"@) {
                            None => Err("missing string field '"@ + "title"@ + "'"@),
                            Some(title) => Ok::<Seq<char>, Seq<char>>(
                                "[GitHub] "@ + repo + "#"@ + compose::decimal(
                                    number as nat,
                                ) + " "@ + title,
                            ),
                        },
                    },
                }
            )
        }),
{
    let kind = events::canonical_kind(event.kind);
    let p = event.payload;
    lemma_opened_issues_pieces(kind);
    lemma_no_family(kind);
    lemma_opened_issues_compact(p);
    lemma_opened_issues_alert(p);
    lemma_opened_issues_inline(p);
}

proof fn lemma_commented_issues_compact(p: Node)
    ensures
        pieces::message(p, seq![Piece::Text("repo"), Piece::Word("#"), Piece::Number("number"), Piece::Word(" commented ("), Piece::Number("comments"), Piece::Word(" comments): "), Piece::Text("title")]) == (
            match json::field(p, "repo"@) {
                None => Err("missing string field '"@ + "repo"@ + "'"@),
                Some(repo) => match json::count(p, "number"@) {
                    None => Err("missing integer field '"@ + "number"@ + "'"@),
                    Some(number) => match json::count(p, "comments"@) {
                        None => Err("missing integer field '"@ + "comments"@ + "'"@),
                        Some(comments) => match json::field(p, "title"@) {
                            None => Err("missing string field '"@ + "title"@ + "'"@),
                            Some(title) => Ok::<Seq<char>, Seq<char>>(
                                repo + "#"@ + compose::decimal(number as nat) + " commented ("@ + compose::decimal(
                                    comments as nat,
                                ) + " comments): "@ + title,
                            ),
                        },
                    },
                },
            }
        ),
{
    lemma_nothing_before();
    let s: Seq<Piece> = seq![
        Piece::Text("repo"),
        Piece::Word("#"),
        Piece::Number("number"),
        Piece::Word(" commented ("),
        Piece::Number("comments"),
        Piece::Word(" comments): "),
        Piece::Text("title"),
    ];
    assert(s.take(0).len() == 0);
    lemma_message_step(p, s, 0);
    lemma_message_step(p, s, 1);
    lemma_message_step(p, s, 2);
    lemma_message_step(p, s, 3);
    lemma_message_step(p, s, 4);
    lemma_message_step(p, s, 5);
    lemma_message_step(p, s, 6);
    assert(s.take(7) =~= s);
}

proof fn lemma_commented_issues_alert(p: Node)
    ensures
        pieces::message(p, seq![Piece::Word("🚨 GitHub issue commented in "), Piece::Text("repo"), Piece::Word(": #"), Piece::Number("number"), Piece::Word(" "), Piece::Text("title")]) == (
            match json::field(p, "repo"@) {
                None => Err("missing string field '"@ + "repo"@ + "'"@),
                Some(repo) => match json::count(p, "number"@) {
                    None => Err("missing integer field '"@ + "number"@ + "'"@),
                    Some(number) => match json::field(p, "title"@) {
                        None => Err("missing string field '"@ + "title"@ + "'"@),
                        Some(title) => Ok::<Seq<char>, Seq<char>>(
                            "🚨 GitHub issue commented in "@ + repo + ": #"@ + compose::decimal(
                                number as nat,
                            ) + " "@ + title,
                        ),
                    },
                },
            }
        ),
{
    lemma_nothing_before();
    let s: Seq<Piece> = seq![
        Piece::Word("🚨 GitHub issue commented in "),
        Piece::Text("repo"),
        Piece::Word(": #"),
        Piece::Number("number"),
        Piece::Word(" "),
        Piece::Text("title"),
    ];
    assert(s.take(0).len() == 0);
    lemma_message_step(p, s, 0);
    lemma_message_step(p, s, 1);
    lemma_message_step(p, s, 2);
    lemma_message_step(p, s, 3);
    lemma_message_step(p, s, 4);
    lemma_message_step(p, s, 5);
    assert(s.take(6) =~= s);
}

proof fn lemma_commented_issues_inline(p: Node)
    ensures
        pieces::message(p, seq![Piece::Word("[GitHub comment] "), Piece::Text("repo"), Piece::Word("#"), Piece::Number("number"), Piece::Word(" "), Piece::Text("title")]) == (
            match json::field(p, "repo"@) {
                None => Err("missing string field '"@ + "repo"@ + "'"@),
                Some(repo) => match json::count(p, "number"@) {
                    None => Err("missing integer field '"@ + "number"@ + "'"@),
                    Some(number) => match json::field(p, "title"@) {
                        None => Err("missing string field '"@ + "title"@ + "'"@),
                        Some(title) => Ok::<Seq<char>, Seq<char>>(
                            "[GitHub comment] "@ + repo + "#"@ + compose::decimal(
                                number as nat,
                            ) + " "@ + title,
                        ),
                    },
                },
            }
        ),
{
    lemma_nothing_before();
    let s: Seq<Piece> = seq![
        Piece::Word("[GitHub comment] "),
        Piece::Text("repo"),
        Piece::Word("#"),
        Piece::Number("number"),
        Piece::Word(" "),
        Piece::Text("title"),
    ];
    assert(s.take(0).len() == 0);
    lemma_message_step(p, s, 0);
    lemma_message_step(p, s, 1);
    lemma_message_step(p, s, 2);
    lemma_message_step(p, s, 3);
    lemma_message_step(p, s, 4);
    lemma_message_step(p, s, 5);
    assert(s.take(6) =~= s);
}

proof fn lemma_commented_issues_pieces(kind: Seq<char>)
    requires
        kind == "github.issue-commented"@,
    ensures
        !render::is_ci_kind(kind),
        kind.len() > 0 && kind[0] != 's' && kind[0] != 'w',
        kind != "git.commit"@,
        kind != "tmux.keyword"@,
        render::message_pieces(kind, MessageFormat::Compact) == Some::<Seq<Piece>>(
            seq![
                Piece::Text("repo"),
                Piece::Word("#"),
                Piece::Number("number"),
                Piece::Word(" commented ("),
                Piece::Number("comments"),
                Piece::Word(" comments): "),
                Piece::Text("title"),
            ],
        ),
        render::message_pieces(kind, MessageFormat::Alert) == Some::<Seq<Piece>>(
            seq![
                Piece::Word("🚨 GitHub issue commented in "),
                Piece::Text("repo"),
                Piece::Word(": #"),
                Piece::Number("number"),
                Piece::Word(" "),
                Piece::Text("title"),
            ],
        ),
        render::message_pieces(kind, MessageFormat::Inline) == Some::<Seq<Piece>>(
            seq![
                Piece::Word("[GitHub comment] "),
                Piece::Text("repo"),
                Piece::Word("#"),
                Piece::Number("number"),
                Piece::Word(" "),
                Piece::Text("title"),
            ],
        ),
{
    reveal_strlit("custom");
    reveal_strlit("agent.started");
    reveal_strlit("agent.blocked");
    reveal_strlit("agent.finished");
    reveal_strlit("agent.failed");
    reveal_strlit("github.issue-opened");
    reveal_strlit("github.issue-commented");
    reveal_strlit("github.issue-closed");
    reveal_strlit("git.commit");
    reveal_strlit("git.branch-changed");
    reveal_strlit("github.pr-status-changed");
    reveal_strlit("tmux.keyword");
    reveal_strlit("tmux.stale");
    reveal_strlit("github.ci-started");
    reveal_strlit("github.ci-failed");
    reveal_strlit("github.ci-passed");
    reveal_strlit("github.ci-cancelled");
    assert("custom"@.len() == 6);
    assert("agent.started"@.len() == 13);
    assert("agent.blocked"@.len() == 13);
    assert("agent.finished"@.len() == 14);
    assert("agent.failed"@.len() == 12);
    assert("github.issue-opened"@.len() == 19);
    assert("github.issue-commented"@.len() == 22);
    assert("github.issue-closed"@.len() == 19);
    assert("git.commit"@.len() == 10);
    assert("git.branch-changed"@.len() == 18);
    assert("github.pr-status-changed"@.len() == 24);
    assert("tmux.keyword"@.len() == 12);
    assert("tmux.stale"@.len() == 10);
    assert("github.ci-started"@.len() == 17);
    assert("github.ci-failed"@.len() == 16);
    assert("github.ci-passed"@.len() == 16);
    assert("github.ci-cancelled"@.len() == 19);
    assert("github.issue-commented"@[0] == 'g');
}

/// An issue that was commented on: repository, number, how many comments there are, and title.
pub proof fn law_text_of_commented_issues(event: EventView)
    requires
        events::canonical_kind(event.kind) == "github.issue-commented"@,
    ensures
        ({
            let p = event.payload;
            &&& render::rendered(event, MessageFormat::Compact) == (
                match json::field(p, "repo"@) {
                    None => Err("missing string field '"@ + "repo"@ + "'"@),
                    Some(repo) => match json::count(p, "number"@) {
                        None => Err("missing integer field '"@ + "number"@ + "'"@),
                        Some(number) => match json::count(p, "comments"@) {
                            None => Err("missing integer field '"@ + "comments"@ + "'"@),
                            Some(comments) => match json::field(p, "title"@) {
                                None => Err("missing string field '"@ + "title"@ + "'"@),
                                Some(title) => Ok::<Seq<char>, Seq<char>>(
                                    repo + "#"@ + compose::decimal(number as nat) + " commented ("@ + compose::decimal(
                                        comments as nat,
                                    ) + " comments): "@ + title,
                                ),
                            },
                        },
                    },
                }
            )
            &&& render::rendered(event, MessageFormat::Alert) == (
                match json::field(p, "repo"@) {
                    None => Err("missing string field '"@ + "repo"@ + "'"@),
                    Some(repo) => match json::count(p, "number"@) {
                        None => Err("missing integer field '"@ + "number"@ + "'"@),
                        Some(number) => match json::field(p, "title"@) {
                            None => Err("missing string field '"@ + "title"@ + "'"@),
                            Some(title) => Ok::<Seq<char>, Seq<char>>(
                                "🚨 GitHub issue commented in "@ + repo + ": #"@ + compose::decimal(
                                    number as nat,
                                ) + " "@ + title,
                            ),
                        },
                    },
                }
            )
            &&& render::rendered(event, MessageFormat::Inline) == (
                match json::field(p, "repo"@) {
                    None => Err("missing string field '"@ + "repo"@ + "'"@),
                    Some(repo) => match json::count(p, "number"@) {
                        None => Err("missing integer field '"@ + "number"@ + "'"@),
                        Some(number) => match json::field(p, "title"@) {
                            None => Err("missing string field '"@ + "title"@ + "'"@),
                            Some(title) => Ok::<Seq<char>, Seq<char>>(
                                "[GitHub comment] "@ + repo + "#"@ + compose::decimal(
                                    number as nat,
                                ) + " "@ + title,
                            ),
                        },
                    },
                }
            )
        }),
{
    let kind = events::canonical_kind(event.kind);
    let p = event.payload;
    lemma_commented_issues_pieces(kind);
    lemma_no_family(kind);
    lemma_commented_issues_compact(p);
    lemma_commented_issues_alert(p);
    lemma_commented_issues_inline(p);
}

proof fn lemma_closed_issues_compact(p: Node)
    ensures
        pieces::message(p, seq![Piece::Text("repo"), Piece::Word("#"), Piece::Number("number"), Piece::Word(" closed: "), Piece::Text("title")]) == (
            match json::field(p, "repo"@) {
                None => Err("missing string field '"@ + "repo"@ + "'"@),
                Some(repo) => match json::count(p, "number"@) {
                    None => Err("missing integer field '"@ + "number"@ + "'"@),
                    Some(number) => match json::field(p, "title"@) {
                        None => Err("missing string field '"@ + "title"@ + "'"@),
                        Some(title) => Ok::<Seq<char>, Seq<char>>(
                            repo + "#"@ + compose::decimal(number as nat) + " closed: "@ + title,
                        ),
                    },
                },
            }
        ),
{
    lemma_nothing_before();
    let s: Seq<Piece> = seq![
        Piece::Text("repo"),
        Piece::Word("#"),
        Piece::Number("number"),
        Piece::Word(" closed: "),
        Piece::Text("title"),
    ];
    assert(s.take(0).len() == 0);
    lemma_message_step(p, s, 0);
    lemma_message_step(p, s, 1);
    lemma_message_step(p, s, 2);
    lemma_message_step(p, s, 3);
    lemma_message_step(p, s, 4);
    assert(s.take(5) =~= s);
}

proof fn lemma_closed_issues_alert(p: Node)
    ensures
        pieces::message(p, seq![Piece::Word("🚨 GitHub issue closed in "), Piece::Text("repo"), Piece::Word(": #"), Piece::Number("number"), Piece::Word(" "), Piece::Text("title")]) == (
            match json::field(p, "repo"@) {
                None => Err("missing string field '"@ + "repo"@ + "'"@),
                Some(repo) => match json::count(p, "number"@) {
                    None => Err("missing integer field '"@ + "number"@ + "'"@),
                    Some(number) => match json::field(p, "title"@) {
                        None => Err("missing string field '"@ + "title"@ + "'"@),
                        Some(title) => Ok::<Seq<char>, Seq<char>>(
                            "🚨 GitHub issue closed in "@ + repo + ": #"@ + compose::decimal(
                                number as nat,
                            ) + " "@ + title,
                        ),
                    },
                },
            }
        ),
{
    lemma_nothing_before();
    let s: Seq<Piece> = seq![
        Piece::Word("🚨 GitHub issue closed in "),
        Piece::Text("repo"),
        Piece::Word(": #"),
        Piece::Number("number"),
        Piece::Word(" "),
        Piece::Text("title"),
    ];
    assert(s.take(0).len() == 0);
    lemma_message_step(p, s, 0);
    lemma_message_step(p, s, 1);
    lemma_message_step(p, s, 2);
    lemma_message_step(p, s, 3);
    lemma_message_step(p, s, 4);
    lemma_message_step(p, s, 5);
    assert(s.take(6) =~= s);
}

proof fn lemma_closed_issues_inline(p: Node)
    ensures
        pieces::message(p, seq![Piece::Word("[GitHub closed] "), Piece::Text("repo"), Piece::Word("#"), Piece::Number("number"), Piece::Word(" "), Piece::Text("title")]) == (
            match json::field(p, "repo"@) {
                None => Err("missing string field '"@ + "repo"@ + "'"@),
                Some(repo) => match json::count(p, "number"@) {
                    None => Err("missing integer field '"@ + "number"@ + "'"@),
                    Some(number) => match json::field(p, "title"@) {
                        None => Err("missing string field '"@ + "title"@ + "'"@),
                        Some(title) => Ok::<Seq<char>, Seq<char>>(
                            "[GitHub closed] "@ + repo + "#"@ + compose::decimal(
                                number as nat,
                            ) + " "@ + title,
                        ),
                    },
                },
            }
        ),
{
    lemma_nothing_before();
    let s: Seq<Piece> = seq![
        Piece::Word("[GitHub closed] "),
        Piece::Text("repo"),
        Piece::Word("#"),
        Piece::Number("number"),
        Piece::Word(" "),
        Piece::Text("title"),
    ];
    assert(s.take(0).len() == 0);
    lemma_message_step(p, s, 0);
    lemma_message_step(p, s, 1);
    lemma_message_step(p, s, 2);
    lemma_message_step(p, s, 3);
    lemma_message_step(p, s, 4);
    lemma_message_step(p, s, 5);
    assert(s.take(6) =~= s);
}

proof fn lemma_closed_issues_pieces(kind: Seq<char>)
    requires
        kind == "github.issue-closed"@,
    ensures
        !render::is_ci_kind(kind),
        kind.len() > 0 && kind[0] != 's' && kind[0] != 'w',
        kind != "git.commit"@,
        kind != "tmux.keyword"@,
        render::message_pieces(kind, MessageFormat::Compact) == Some::<Seq<Piece>>(
            seq![
                Piece::Text("repo"),
                Piece::Word("#"),
                Piece::Number("number"),
                Piece::Word(" closed: "),
                Piece::Text("title"),
            ],
        ),
        render::message_pieces(kind, MessageFormat::Alert) == Some::<Seq<Piece>>(
            seq![
                Piece::Word("🚨 GitHub issue closed in "),
                Piece::Text("repo"),
                Piece::Word(": #"),
                Piece::Number("number"),
                Piece::Word(" "),
                Piece::Text("title"),
            ],
        ),
        render::message_pieces(kind, MessageFormat::Inline) == Some::<Seq<Piece>>(
            seq![
                Piece::Word("[GitHub closed] "),
                Piece::Text("repo"),
                Piece::Word("#"),
                Piece::Number("number"),
                Piece::Word(" "),
                Piece::Text("title"),
            ],
        ),
{
    reveal_strlit("custom");
    reveal_strlit("agent.started");
    reveal_strlit("agent.blocked");
    reveal_strlit("agent.finished");
    reveal_strlit("agent.failed");
    reveal_strlit("github.issue-opened");
    reveal_strlit("github.issue-commented");
    reveal_strlit("github.issue-closed");
    reveal_strlit("git.commit");
    reveal_strlit("git.branch-changed");
    reveal_strlit("github.pr-status-changed");
    reveal_strlit("tmux.keyword");
    reveal_strlit("tmux.stale");
    reveal_strlit("github.ci-started");
    reveal_strlit("github.ci-failed");
    reveal_strlit("github.ci-passed");
    reveal_strlit("github.ci-cancelled");
    assert("custom"@.len() == 6);
    assert("agent.started"@.len() == 13);
    assert("agent.blocked"@.len() == 13);
    assert("agent.finished"@.len() == 14);
    assert("agent.failed"@.len() == 12);
    assert("github.issue-opened"@.len() == 19);
    assert("github.issue-opened"@[13] == 'o');
    assert("github.issue-commented"@.len() == 22);
    assert("github.issue-closed"@.len() == 19);
    assert("github.issue-closed"@[7] == 'i');
    assert("github.issue-closed"@[13] == 'c');
    assert("git.commit"@.len() == 10);
    assert("git.branch-changed"@.len() == 18);
    assert("github.pr-status-changed"@.len() == 24);
    assert("tmux.keyword"@.len() == 12);
    assert("tmux.stale"@.len() == 10);
    assert("github.ci-started"@.len() == 17);
    assert("github.ci-failed"@.len() == 16);
    assert("github.ci-passed"@.len() == 16);
    assert("github.ci-cancelled"@.len() == 19);
    assert("github.ci-cancelled"@[7] == 'c');
    assert("github.issue-closed"@[0] == 'g');
}

/// An issue that was closed: repository, number and title.
pub proof fn law_text_of_closed_issues(event: EventView)
    requires
        events::canonical_kind(event.kind) == "github.issue-closed"@,
    ensures
        ({
            let p = event.payload;
            &&& render::rendered(event, MessageFormat::Compact) == (
                match json::field(p, "repo"@) {
                    None => Err("missing string field '"@ + "repo"@ + "'"@),
                    Some(repo) => match json::count(p, "number"@) {
                        None => Err("missing integer field '"@ + "number"@ + "'"@),
                        Some(number) => match json::field(p, "title"@) {
                            None => Err("missing string field '"@ + "title"@ + "'"@),
                            Some(title) => Ok::<Seq<char>, Seq<char>>(
                                repo + "#"@ + compose::decimal(
                                    number as nat,
                                ) + " closed: "@ + title,
                            ),
                        },
                    },
                }
            )
            &&& render::rendered(event, MessageFormat::Alert) == (
                match json::field(p, "repo"@) {
                    None => Err("missing string field '"@ + "repo"@ + "'"@),
                    Some(repo) => match json::count(p, "number"@) {
                        None => Err("missing integer field '"@ + "number"@ + "'"@),
                        Some(number) => match json::field(p, "title"@) {
                            None => Err("missing string field '"@ + "title"@ + "'"@),
                            Some(title) => Ok::<Seq<char>, Seq<char>>(
                                "🚨 GitHub issue closed in "@ + repo + ": #"@ + compose::decimal(
                                    number as nat,
                                ) + " "@ + title,
                            ),
                        },
                    },
                }
            )
            &&& render::rendered(event, MessageFormat::Inline) == (
                match json::field(p, "repo"@) {
                    None => Err("missing string field '"@ + "repo"@ + "'"@),
                    Some(repo) => match json::count(p, "number"@) {
                        None => Err("missing integer field '"@ + "number"@ + "'"@),
                        Some(number) => match json::field(p, "title"@) {
                            None => Err("missing string field '"@ + "title"@ + "'"@),
                            Some(title) => Ok::<Seq<char>, Seq<char>>(
                                "[GitHub closed] "@ + repo + "#"@ + compose::decimal(
                                    number as nat,
                                ) + " "@ + title,
                            ),
                        },
                    },
                }
            )
        }),
{
    let kind = events::canonical_kind(event.kind);
    let p = event.payload;
    lemma_closed_issues_pieces(kind);
    lemma_no_family(kind);
    lemma_closed_issues_compact(p);
    lemma_closed_issues_alert(p);
    lemma_closed_issues_inline(p);
}

proof fn lemma_single_commits_compact(p: Node)
    ensures
        pieces::message(p, seq![Piece::Word("git:"), Piece::Repository, Piece::Word("@"), Piece::Text("branch"), Piece::Word(" "), Piece::Text("short_commit"), Piece::Word(" "), Piece::Text("summary")]) == (
            match labels::repo_label(p) {
                Err(e) => Err(e),
                Ok(repository) => match json::field(p, "branch"@) {
                    None => Err("missing string field '"@ + "branch"@ + "'"@),
                    Some(branch) => match json::field(p, "short_commit"@) {
                        None => Err("missing string field '"@ + "short_commit"@ + "'"@),
                        Some(short_commit) => match json::field(p, "summary"@) {
                            None => Err("missing string field '"@ + "summary"@ + "'"@),
                            Some(summary) => Ok::<Seq<char>, Seq<char>>(
                                "git:"@ + repository + "@"@ + branch + " "@ + short_commit + " "@
                                    + summary,
                            ),
                        },
                    },
                },
            }
        ),
{
    lemma_nothing_before();
    let s: Seq<Piece> = seq![
        Piece::Word("git:"),
        Piece::Repository,
        Piece::Word("@"),
        Piece::Text("branch"),
        Piece::Word(" "),
        Piece::Text("short_commit"),
        Piece::Word(" "),
        Piece::Text("summary"),
    ];
    assert(s.take(0).len() == 0);
    lemma_message_step(p, s, 0);
    lemma_message_step(p, s, 1);
    lemma_message_step(p, s, 2);
    lemma_message_step(p, s, 3);
    lemma_message_step(p, s, 4);
    lemma_message_step(p, s, 5);
    lemma_message_step(p, s, 6);
    lemma_message_step(p, s, 7);
    assert(s.take(8) =~= s);
}

proof fn lemma_single_commits_alert(p: Node)
    ensures
        pieces::message(p, seq![Piece::Word("🚨 new commit in "), Piece::Repository, Piece::Word("@"), Piece::Text("branch"), Piece::Word(": "), Piece::Text("short_commit"), Piece::Word(" "), Piece::Text("summary")]) == (
            match labels::repo_label(p) {
                Err(e) => Err(e),
                Ok(repository) => match json::field(p, "branch"@) {
                    None => Err("missing string field '"@ + "branch"@ + "'"@),
                    Some(branch) => match json::field(p, "short_commit"@) {
                        None => Err("missing string field '"@ + "short_commit"@ + "'"@),
                        Some(short_commit) => match json::field(p, "summary"@) {
                            None => Err("missing string field '"@ + "summary"@ + "'"@),
                            Some(summary) => Ok::<Seq<char>, Seq<char>>(
                                "🚨 new commit in "@ + repository + "@"@ + branch + ": "@
                                    + short_commit + " "@ + summary,
                            ),
                        },
                    },
                },
            }
        ),
{
    lemma_nothing_before();
    let s: Seq<Piece> = seq![
        Piece::Word("🚨 new commit in "),
        Piece::Repository,
        Piece::Word("@"),
        Piece::Text("branch"),
        Piece::Word(": "),
        Piece::Text("short_commit"),
        Piece::Word(" "),
        Piece::Text("summary"),
    ];
    assert(s.take(0).len() == 0);
    lemma_message_step(p, s, 0);
    lemma_message_step(p, s, 1);
    lemma_message_step(p, s, 2);
    lemma_message_step(p, s, 3);
    lemma_message_step(p, s, 4);
    lemma_message_step(p, s, 5);
    lemma_message_step(p, s, 6);
    lemma_message_step(p, s, 7);
    assert(s.take(8) =~= s);
}

proof fn lemma_single_commits_inline(p: Node)
    ensures
        pieces::message(p, seq![Piece::Word("[git] "), Piece::Repository, Piece::Word(" "), Piece::Text("summary")]) == (
            match labels::repo_label(p) {
                Err(e) => Err(e),
                Ok(repository) => match json::field(p, "summary"@) {
                    None => Err("missing string field '"@ + "summary"@ + "'"@),
                    Some(summary) => Ok::<Seq<char>, Seq<char>>("[git] "@ + repository + " "@ + summary),
                },
            }
        ),
{
    lemma_nothing_before();
    let s: Seq<Piece> = seq![
        Piece::Word("[git] "),
        Piece::Repository,
        Piece::Word(" "),
        Piece::Text("summary"),
    ];
    assert(s.take(0).len() == 0);
    lemma_message_step(p, s, 0);
    lemma_message_step(p, s, 1);
    lemma_message_step(p, s, 2);
    lemma_message_step(p, s, 3);
    assert(s.take(4) =~= s);
}

proof fn lemma_single_commits_pieces(kind: Seq<char>)
    requires
        kind == "git.commit"@,
    ensures
        !render::is_ci_kind(kind),
        kind.len() > 0 && kind[0] != 's' && kind[0] != 'w',
        kind != "tmux.keyword"@,
        render::message_pieces(kind, MessageFormat::Compact) == Some::<Seq<Piece>>(
            seq![
                Piece::Word("git:"),
                Piece::Repository,
                Piece::Word("@"),
                Piece::Text("branch"),
                Piece::Word(" "),
                Piece::Text("short_commit"),
                Piece::Word(" "),
                Piece::Text("summary"),
            ],
        ),
        render::message_pieces(kind, MessageFormat::Alert) == Some::<Seq<Piece>>(
            seq![
                Piece::Word("🚨 new commit in "),
                Piece::Repository,
                Piece::Word("@"),
                Piece::Text("branch"),
                Piece::Word(": "),
                Piece::Text("short_commit"),
                Piece::Word(" "),
                Piece::Text("summary"),
            ],
        ),
        render::message_pieces(kind, MessageFormat::Inline) == Some::<Seq<Piece>>(
            seq![
                Piece::Word("[git] "),
                Piece::Repository,
                Piece::Word(" "),
                Piece::Text("summary"),
            ],
        ),
{
    reveal_strlit("custom");
    reveal_strlit("agent.started");
    reveal_strlit("agent.blocked");
    reveal_strlit("agent.finished");
    reveal_strlit("agent.failed");
    reveal_strlit("github.issue-opened");
    reveal_strlit("github.issue-commented");
    reveal_strlit("github.issue-closed");
    reveal_strlit("git.commit");
    reveal_strlit("git.branch-changed");
    reveal_strlit("github.pr-status-changed");
    reveal_strlit("tmux.keyword");
    reveal_strlit("tmux.stale");
    reveal_strlit("github.ci-started");
    reveal_strlit("github.ci-failed");
    reveal_strlit("github.ci-passed");
    reveal_strlit("github.ci-cancelled");
    assert("custom"@.len() == 6);
    assert("agent.started"@.len() == 13);
    assert("agent.blocked"@.len() == 13);
    assert("agent.finished"@.len() == 14);
    assert("agent.failed"@.len() == 12);
    assert("github.issue-opened"@.len() == 19);
    assert("github.issue-commented"@.len() == 22);
    assert("github.issue-closed"@.len() == 19);
    assert("git.commit"@.len() == 10);
    assert("git.commit"@[0] == 'g');
    assert("git.branch-changed"@.len() == 18);
    assert("github.pr-status-changed"@.len() == 24);
    assert("tmux.keyword"@.len() == 12);
    assert("tmux.stale"@.len() == 10);
    assert("tmux.stale"@[0] == 't');
    assert("github.ci-started"@.len() == 17);
    assert("github.ci-failed"@.len() == 16);
    assert("github.ci-passed"@.len() == 16);
    assert("github.ci-cancelled"@.len() == 19);
    assert("git.commit"@[0] == 'g');
}

/// A single commit: repository, branch, the short commit and its summary.
pub proof fn law_text_of_single_commits(event: EventView)
    requires
        events::canonical_kind(event.kind) == "git.commit"@,
        json::items(event.payload, "commits"@) matches Some(list) ==> list.len() <= 1,
    ensures
        ({
            let p = event.payload;
            &&& render::rendered(event, MessageFormat::Compact) == (
                match labels::repo_label(p) {
                    Err(e) => Err(e),
                    Ok(repository) => match json::field(p, "branch"@) {
                        None => Err("missing string field '"@ + "branch"@ + "'"@),
                        Some(branch) => match json::field(p, "short_commit"@) {
                            None => Err("missing string field '"@ + "short_commit"@ + "'"@),
                            Some(short_commit) => match json::field(p, "summary"@) {
                                None => Err("missing string field '"@ + "summary"@ + "'"@),
                                Some(summary) => Ok::<Seq<char>, Seq<char>>(
                                    "git:"@ + repository + "@"@ + branch + " "@ + short_commit
                                        + " "@ + summary,
                                ),
                            },
                        },
                    },
                }
            )
            &&& render::rendered(event, MessageFormat::Alert) == (
                match labels::repo_label(p) {
                    Err(e) => Err(e),
                    Ok(repository) => match json::field(p, "branch"@) {
                        None => Err("missing string field '"@ + "branch"@ + "'"@),
                        Some(branch) => match json::field(p, "short_commit"@) {
                            None => Err("missing string field '"@ + "short_commit"@ + "'"@),
                            Some(short_commit) => match json::field(p, "summary"@) {
                                None => Err("missing string field '"@ + "summary"@ + "'"@),
                                Some(summary) => Ok::<Seq<char>, Seq<char>>(
                                    "🚨 new commit in "@ + repository + "@"@ + branch + ": "@
                                        + short_commit + " "@ + summary,
                                ),
                            },
                        },
                    },
                }
            )
            &&& render::rendered(event, MessageFormat::Inline) == (
                match labels::repo_label(p) {
                    Err(e) => Err(e),
                    Ok(repository) => match json::field(p, "summary"@) {
                        None => Err("missing string field '"@ + "summary"@ + "'"@),
                        Some(summary) => Ok::<Seq<char>, Seq<char>>("[git] "@ + repository + " "@ + summary),
                    },
                }
            )
        }),
{
    let kind = events::canonical_kind(event.kind);
    let p = event.payload;
    lemma_single_commits_pieces(kind);
    lemma_no_family(kind);
    lemma_single_commits_compact(p);
    lemma_single_commits_alert(p);
    lemma_single_commits_inline(p);
}

proof fn lemma_branch_changes_compact(p: Node)
    ensures
        pieces::message(p, seq![Piece::Word("git:"), Piece::Repository, Piece::Word(" branch changed "), Piece::Text("old_branch"), Piece::Word(" -> "), Piece::Text("new_branch")]) == (
            match labels::repo_label(p) {
                Err(e) => Err(e),
                Ok(repository) => match json::field(p, "old_branch"@) {
                    None => Err("missing string field '"@ + "old_branch"@ + "'"@),
                    Some(old_branch) => match json::field(p, "new_branch"@) {
                        None => Err("missing string field '"@ + "new_branch"@ + "'"@),
                        Some(new_branch) => Ok::<Seq<char>, Seq<char>>(
                            "git:"@ + repository + " branch changed "@ + old_branch + " -> "@
                                + new_branch,
                        ),
                    },
                },
            }
        ),
{
    lemma_nothing_before();
    let s: Seq<Piece> = seq![
        Piece::Word("git:"),
        Piece::Repository,
        Piece::Word(" branch changed "),
        Piece::Text("old_branch"),
        Piece::Word(" -> "),
        Piece::Text("new_branch"),
    ];
    assert(s.take(0).len() == 0);
    lemma_message_step(p, s, 0);
    lemma_message_step(p, s, 1);
    lemma_message_step(p, s, 2);
    lemma_message_step(p, s, 3);
    lemma_message_step(p, s, 4);
    lemma_message_step(p, s, 5);
    assert(s.take(6) =~= s);
}

proof fn lemma_branch_changes_alert(p: Node)
    ensures
        pieces::message(p, seq![Piece::Word("🚨 git repo "), Piece::Repository, Piece::Word(" branch changed "), Piece::Text("old_branch"), Piece::Word(" -> "), Piece::Text("new_branch")]) == (
            match labels::repo_label(p) {
                Err(e) => Err(e),
                Ok(repository) => match json::field(p, "old_branch"@) {
                    None => Err("missing string field '"@ + "old_branch"@ + "'"@),
                    Some(old_branch) => match json::field(p, "new_branch"@) {
                        None => Err("missing string field '"@ + "new_branch"@ + "'"@),
                        Some(new_branch) => Ok::<Seq<char>, Seq<char>>(
                            "🚨 git repo "@ + repository + " branch changed "@ + old_branch + " -> "@
                                + new_branch,
                        ),
                    },
                },
            }
        ),
{
    lemma_nothing_before();
    let s: Seq<Piece> = seq![
        Piece::Word("🚨 git repo "),
        Piece::Repository,
        Piece::Word(" branch changed "),
        Piece::Text("old_branch"),
        Piece::Word(" -> "),
        Piece::Text("new_branch"),
    ];
    assert(s.take(0).len() == 0);
    lemma_message_step(p, s, 0);
    lemma_message_step(p, s, 1);
    lemma_message_step(p, s, 2);
    lemma_message_step(p, s, 3);
    lemma_message_step(p, s, 4);
    lemma_message_step(p, s, 5);
    assert(s.take(6) =~= s);
}

proof fn lemma_branch_changes_inline(p: Node)
    ensures
        pieces::message(p, seq![Piece::Word("[git:"), Piece::Repository, Piece::Word("] "), Piece::Text("old_branch"), Piece::Word(" -> "), Piece::Text("new_branch")]) == (
            match labels::repo_label(p) {
                Err(e) => Err(e),
                Ok(repository) => match json::field(p, "old_branch"@) {
                    None => Err("missing string field '"@ + "old_branch"@ + "'"@),
                    Some(old_branch) => match json::field(p, "new_branch"@) {
                        None => Err("missing string field '"@ + "new_branch"@ + "'"@),
                        Some(new_branch) => Ok::<Seq<char>, Seq<char>>(
                            "[git:"@ + repository + "] "@ + old_branch + " -> "@ + new_branch,
                        ),
                    },
                },
            }
        ),
{
    lemma_nothing_before();
    let s: Seq<Piece> = seq![
        Piece::Word("[git:"),
        Piece::Repository,
        Piece::Word("] "),
        Piece::Text("old_branch"),
        Piece::Word(" -> "),
        Piece::Text("new_branch"),
    ];
    assert(s.take(0).len() == 0);
    lemma_message_step(p, s, 0);
    lemma_message_step(p, s, 1);
    lemma_message_step(p, s, 2);
    lemma_message_step(p, s, 3);
    lemma_message_step(p, s, 4);
    lemma_message_step(p, s, 5);
    assert(s.take(6) =~= s);
}

proof fn lemma_branch_changes_pieces(kind: Seq<char>)
    requires
        kind == "git.branch-changed"@,
    ensures
        !render::is_ci_kind(kind),
        kind.len() > 0 && kind[0] != 's' && kind[0] != 'w',
        kind != "git.commit"@,
        kind != "tmux.keyword"@,
        render::message_pieces(kind, MessageFormat::Compact) == Some::<Seq<Piece>>(
            seq![
                Piece::Word("git:"),
                Piece::Repository,
                Piece::Word(" branch changed "),
                Piece::Text("old_branch"),
                Piece::Word(" -> "),
                Piece::Text("new_branch"),
            ],
        ),
        render::message_pieces(kind, MessageFormat::Alert) == Some::<Seq<Piece>>(
            seq![
                Piece::Word("🚨 git repo "),
                Piece::Repository,
                Piece::Word(" branch changed "),
                Piece::Text("old_branch"),
                Piece::Word(" -> "),
                Piece::Text("new_branch"),
            ],
        ),
        render::message_pieces(kind, MessageFormat::Inline) == Some::<Seq<Piece>>(
            seq![
                Piece::Word("[git:"),
                Piece::Repository,
                Piece::Word("] "),
                Piece::Text("old_branch"),
                Piece::Word(" -> "),
                Piece::Text("new_branch"),
            ],
        ),
{
    reveal_strlit("custom");
    reveal_strlit("agent.started");
    reveal_strlit("agent.blocked");
    reveal_strlit("agent.finished");
    reveal_strlit("agent.failed");
    reveal_strlit("github.issue-opened");
    reveal_strlit("github.issue-commented");
    reveal_strlit("github.issue-closed");
    reveal_strlit("git.commit");
    reveal_strlit("git.branch-changed");
    reveal_strlit("github.pr-status-changed");
    reveal_strlit("tmux.keyword");
    reveal_strlit("tmux.stale");
    reveal_strlit("github.ci-started");
    reveal_strlit("github.ci-failed");
    reveal_strlit("github.ci-passed");
    reveal_strlit("github.ci-cancelled");
    assert("custom"@.len() == 6);
    assert("agent.started"@.len() == 13);
    assert("agent.blocked"@.len() == 13);
    assert("agent.finished"@.len() == 14);
    assert("agent.failed"@.len() == 12);
    assert("github.issue-opened"@.len() == 19);
    assert("github.issue-commented"@.len() == 22);
    assert("github.issue-closed"@.len() == 19);
    assert("git.commit"@.len() == 10);
    assert("git.branch-changed"@.len() == 18);
    assert("github.pr-status-changed"@.len() == 24);
    assert("tmux.keyword"@.len() == 12);
    assert("tmux.stale"@.len() == 10);
    assert("github.ci-started"@.len() == 17);
    assert("github.ci-failed"@.len() == 16);
    assert("github.ci-passed"@.len() == 16);
    assert("github.ci-cancelled"@.len() == 19);
    assert("git.branch-changed"@[0] == 'g');
}

/// A change of branches: the old branch, then the new one.
pub proof fn law_text_of_branch_changes(event: EventView)
    requires
        events::canonical_kind(event.kind) == "git.branch-changed"@,
    ensures
        ({
            let p = event.payload;
            &&& render::rendered(event, MessageFormat::Compact) == (
                match labels::repo_label(p) {
                    Err(e) => Err(e),
                    Ok(repository) => match json::field(p, "old_branch"@) {
                        None => Err("missing string field '"@ + "old_branch"@ + "'"@),
                        Some(old_branch) => match json::field(p, "new_branch"@) {
                            None => Err("missing string field '"@ + "new_branch"@ + "'"@),
                            Some(new_branch) => Ok::<Seq<char>, Seq<char>>(
                                "git:"@ + repository + " branch changed "@ + old_branch + " -> "@
                                    + new_branch,
                            ),
                        },
                    },
                }
            )
            &&& render::rendered(event, MessageFormat::Alert) == (
                match labels::repo_label(p) {
                    Err(e) => Err(e),
                    Ok(repository) => match json::field(p, "old_branch"@) {
                        None => Err("missing string field '"@ + "old_branch"@ + "'"@),
                        Some(old_branch) => match json::field(p, "new_branch"@) {
                            None => Err("missing string field '"@ + "new_branch"@ + "'"@),
                            Some(new_branch) => Ok::<Seq<char>, Seq<char>>(
                                "🚨 git repo "@ + repository + " branch changed "@ + old_branch
                                    + " -> "@ + new_branch,
                            ),
                        },
                    },
                }
            )
            &&& render::rendered(event, MessageFormat::Inline) == (
                match labels::repo_label(p) {
                    Err(e) => Err(e),
                    Ok(repository) => match json::field(p, "old_branch"@) {
                        None => Err("missing string field '"@ + "old_branch"@ + "'"@),
                        Some(old_branch) => match json::field(p, "new_branch"@) {
                            None => Err("missing string field '"@ + "new_branch"@ + "'"@),
                            Some(new_branch) => Ok::<Seq<char>, Seq<char>>(
                                "[git:"@ + repository + "] "@ + old_branch + " -> "@ + new_branch,
                            ),
                        },
                    },
                }
            )
        }),
{
    let kind = events::canonical_kind(event.kind);
    let p = event.payload;
    lemma_branch_changes_pieces(kind);
    lemma_no_family(kind);
    lemma_branch_changes_compact(p);
    lemma_branch_changes_alert(p);
    lemma_branch_changes_inline(p);
}

proof fn lemma_pull_request_changes_compact(p: Node)
    ensures
        pieces::message(p, seq![Piece::Word("PR "), Piece::Text("repo"), Piece::Word("#"), Piece::Number("number"), Piece::Word(" "), Piece::Text("old_status"), Piece::Word(" -> "), Piece::Text("new_status"), Piece::Word(": "), Piece::Text("title")]) == (
            match json::field(p, "repo"@) {
                None => Err("missing string field '"@ + "repo"@ + "'"@),
                Some(repo) => match json::count(p, "number"@) {
                    None => Err("missing integer field '"@ + "number"@ + "'"@),
                    Some(number) => match json::field(p, "old_status"@) {
                        None => Err("missing string field '"@ + "old_status"@ + "'"@),
                        Some(old_status) => match json::field(p, "new_status"@) {
                            None => Err("missing string field '"@ + "new_status"@ + "'"@),
                            Some(new_status) => match json::field(p, "title"@) {
                                None => Err("missing string field '"@ + "title"@ + "'"@),
                                Some(title) => Ok::<Seq<char>, Seq<char>>(
                                    "PR "@ + repo + "#"@ + compose::decimal(
                                        number as nat,
                                    ) + " "@ + old_status + " -> "@ + new_status + ": "@ + title,
                                ),
                            },
                        },
                    },
                },
            }
        ),
{
    lemma_nothing_before();
    let s: Seq<Piece> = seq![
        Piece::Word("PR "),
        Piece::Text("repo"),
        Piece::Word("#"),
        Piece::Number("number"),
        Piece::Word(" "),
        Piece::Text("old_status"),
        Piece::Word(" -> "),
        Piece::Text("new_status"),
        Piece::Word(": "),
        Piece::Text("title"),
    ];
    assert(s.take(0).len() == 0);
    lemma_message_step(p, s, 0);
    lemma_message_step(p, s, 1);
    lemma_message_step(p, s, 2);
    lemma_message_step(p, s, 3);
    lemma_message_step(p, s, 4);
    lemma_message_step(p, s, 5);
    lemma_message_step(p, s, 6);
    lemma_message_step(p, s, 7);
    lemma_message_step(p, s, 8);
    lemma_message_step(p, s, 9);
    assert(s.take(10) =~= s);
}

proof fn lemma_pull_request_changes_alert(p: Node)
    ensures
        pieces::message(p, seq![Piece::Word("🚨 PR status changed in "), Piece::Text("repo"), Piece::Word(": #"), Piece::Number("number"), Piece::Word(" "), Piece::Text("old_status"), Piece::Word(" -> "), Piece::Text("new_status"), Piece::Word(" ("), Piece::Text("title"), Piece::Word(")")]) == (
            match json::field(p, "repo"@) {
                None => Err("missing string field '"@ + "repo"@ + "'"@),
                Some(repo) => match json::count(p, "number"@) {
                    None => Err("missing integer field '"@ + "number"@ + "'"@),
                    Some(number) => match json::field(p, "old_status"@) {
                        None => Err("missing string field '"@ + "old_status"@ + "'"@),
                        Some(old_status) => match json::field(p, "new_status"@) {
                            None => Err("missing string field '"@ + "new_status"@ + "'"@),
                            Some(new_status) => match json::field(p, "title"@) {
                                None => Err("missing string field '"@ + "title"@ + "'"@),
                                Some(title) => Ok::<Seq<char>, Seq<char>>(
                                    "🚨 PR status changed in "@ + repo + ": #"@ + compose::decimal(
                                        number as nat,
                                    ) + " "@ + old_status + " -> "@ + new_status + " ("@ + title + ")"@,
                                ),
                            },
                        },
                    },
                },
            }
        ),
{
    lemma_nothing_before();
    let s: Seq<Piece> = seq![
        Piece::Word("🚨 PR status changed in "),
        Piece::Text("repo"),
        Piece::Word(": #"),
        Piece::Number("number"),
        Piece::Word(" "),
        Piece::Text("old_status"),
        Piece::Word(" -> "),
        Piece::Text("new_status"),
        Piece::Word(" ("),
        Piece::Text("title"),
        Piece::Word(")"),
    ];
    assert(s.take(0).len() == 0);
    lemma_message_step(p, s, 0);
    lemma_message_step(p, s, 1);
    lemma_message_step(p, s, 2);
    lemma_message_step(p, s, 3);
    lemma_message_step(p, s, 4);
    lemma_message_step(p, s, 5);
    lemma_message_step(p, s, 6);
    lemma_message_step(p, s, 7);
    lemma_message_step(p, s, 8);
    lemma_message_step(p, s, 9);
    lemma_message_step(p, s, 10);
    assert(s.take(11) =~= s);
}

proof fn lemma_pull_request_changes_inline(p: Node)
    ensures
        pieces::message(p, seq![Piece::Word("[PR "), Piece::Text("repo"), Piece::Word("#"), Piece::Number("number"), Piece::Word("] "), Piece::Text("old_status"), Piece::Word(" -> "), Piece::Text("new_status")]) == (
            match json::field(p, "repo"@) {
                None => Err("missing string field '"@ + "repo"@ + "'"@),
                Some(repo) => match json::count(p, "number"@) {
                    None => Err("missing integer field '"@ + "number"@ + "'"@),
                    Some(number) => match json::field(p, "old_status"@) {
                        None => Err("missing string field '"@ + "old_status"@ + "'"@),
                        Some(old_status) => match json::field(p, "new_status"@) {
                            None => Err("missing string field '"@ + "new_status"@ + "'"@),
                            Some(new_status) => Ok::<Seq<char>, Seq<char>>(
                                "[PR "@ + repo + "#"@ + compose::decimal(
                                    number as nat,
                                ) + "] "@ + old_status + " -> "@ + new_status,
                            ),
                        },
                    },
                },
            }
        ),
{
    lemma_nothing_before();
    let s: Seq<Piece> = seq![
        Piece::Word("[PR "),
        Piece::Text("repo"),
        Piece::Word("#"),
        Piece::Number("number"),
        Piece::Word("] "),
        Piece::Text("old_status"),
        Piece::Word(" -> "),
        Piece::Text("new_status"),
    ];
    assert(s.take(0).len() == 0);
    lemma_message_step(p, s, 0);
    lemma_message_step(p, s, 1);
    lemma_message_step(p, s, 2);
    lemma_message_step(p, s, 3);
    lemma_message_step(p, s, 4);
    lemma_message_step(p, s, 5);
    lemma_message_step(p, s, 6);
    lemma_message_step(p, s, 7);
    assert(s.take(8) =~= s);
}

proof fn lemma_pull_request_changes_pieces(kind: Seq<char>)
    requires
        kind == "github.pr-status-changed"@,
    ensures
        !render::is_ci_kind(kind),
        kind.len() > 0 && kind[0] != 's' && kind[0] != 'w',
        kind != "git.commit"@,
        kind != "tmux.keyword"@,
        render::message_pieces(kind, MessageFormat::Compact) == Some::<Seq<Piece>>(
            seq![
                Piece::Word("PR "),
                Piece::Text("repo"),
                Piece::Word("#"),
                Piece::Number("number"),
                Piece::Word(" "),
                Piece::Text("old_status"),
                Piece::Word(" -> "),
                Piece::Text("new_status"),
                Piece::Word(": "),
                Piece::Text("title"),
            ],
        ),
        render::message_pieces(kind, MessageFormat::Alert) == Some::<Seq<Piece>>(
            seq![
                Piece::Word("🚨 PR status changed in "),
                Piece::Text("repo"),
                Piece::Word(": #"),
                Piece::Number("number"),
                Piece::Word(" "),
                Piece::Text("old_status"),
                Piece::Word(" -> "),
                Piece::Text("new_status"),
                Piece::Word(" ("),
                Piece::Text("title"),
                Piece::Word(")"),
            ],
        ),
        render::message_pieces(kind, MessageFormat::Inline) == Some::<Seq<Piece>>(
            seq![
                Piece::Word("[PR "),
                Piece::Text("repo"),
                Piece::Word("#"),
                Piece::Number("number"),
                Piece::Word("] "),
                Piece::Text("old_status"),
                Piece::Word(" -> "),
                Piece::Text("new_status"),
            ],
        ),
{
    reveal_strlit("custom");
    reveal_strlit("agent.started");
    reveal_strlit("agent.blocked");
    reveal_strlit("agent.finished");
    reveal_strlit("agent.failed");
    reveal_strlit("github.issue-opened");
    reveal_strlit("github.issue-commented");
    reveal_strlit("github.issue-closed");
    reveal_strlit("git.commit");
    reveal_strlit("git.branch-changed");
    reveal_strlit("github.pr-status-changed");
    reveal_strlit("tmux.keyword");
    reveal_strlit("tmux.stale");
    reveal_strlit("github.ci-started");
    reveal_strlit("github.ci-failed");
    reveal_strlit("github.ci-passed");
    reveal_strlit("github.ci-cancelled");
    assert("custom"@.len() == 6);
    assert("agent.started"@.len() == 13);
    assert("agent.blocked"@.len() == 13);
    assert("agent.finished"@.len() == 14);
    assert("agent.failed"@.len() == 12);
    assert("github.issue-opened"@.len() == 19);
    assert("github.issue-commented"@.len() == 22);
    assert("github.issue-closed"@.len() == 19);
    assert("git.commit"@.len() == 10);
    assert("git.branch-changed"@.len() == 18);
    assert("github.pr-status-changed"@.len() == 24);
    assert("tmux.keyword"@.len() == 12);
    assert("tmux.stale"@.len() == 10);
    assert("github.ci-started"@.len() == 17);
    assert("github.ci-failed"@.len() == 16);
    assert("github.ci-passed"@.len() == 16);
    assert("github.ci-cancelled"@.len() == 19);
    assert("github.pr-status-changed"@[0] == 'g');
}

/// A change of a pull request: the old status, then the new one, and the title.
pub proof fn law_text_of_pull_request_changes(event: EventView)
    requires
        events::canonical_kind(event.kind) == "github.pr-status-changed"@,
    ensures
        ({
            let p = event.payload;
            &&& render::rendered(event, MessageFormat::Compact) == (
                match json::field(p, "repo"@) {
                    None => Err("missing string field '"@ + "repo"@ + "'"@),
                    Some(repo) => match json::count(p, "number"@) {
                        None => Err("missing integer field '"@ + "number"@ + "'"@),
                        Some(number) => match json::field(p, "old_status"@) {
                            None => Err("missing string field '"@ + "old_status"@ + "'"@),
                            Some(old_status) => match json::field(p, "new_status"@) {
                                None => Err("missing string field '"@ + "new_status"@ + "'"@),
                                Some(new_status) => match json::field(p, "title"@) {
                                    None => Err("missing string field '"@ + "title"@ + "'"@),
                                    Some(title) => Ok::<Seq<char>, Seq<char>>(
                                        "PR "@ + repo + "#"@ + compose::decimal(
                                            number as nat,
                                        ) + " "@ + old_status + " -> "@ + new_status + ": "@ + title,
                                    ),
                                },
                            },
                        },
                    },
                }
            )
            &&& render::rendered(event, MessageFormat::Alert) == (
                match json::field(p, "repo"@) {
                    None => Err("missing string field '"@ + "repo"@ + "'"@),
                    Some(repo) => match json::count(p, "number"@) {
                        None => Err("missing integer field '"@ + "number"@ + "'"@),
                        Some(number) => match json::field(p, "old_status"@) {
                            None => Err("missing string field '"@ + "old_status"@ + "'"@),
                            Some(old_status) => match json::field(p, "new_status"@) {
                                None => Err("missing string field '"@ + "new_status"@ + "'"@),
                                Some(new_status) => match json::field(p, "title"@) {
                                    None => Err("missing string field '"@ + "title"@ + "'"@),
                                    Some(title) => Ok::<Seq<char>, Seq<char>>(
                                        "🚨 PR status changed in "@ + repo + ": #"@ + compose::decimal(
                                            number as nat,
                                        ) + " "@ + old_status + " -> "@ + new_status + " ("@ + title + ")"@,
                                    ),
                                },
                            },
                        },
                    },
                }
            )
            &&& render::rendered(event, MessageFormat::Inline) == (
                match json::field(p, "repo"@) {
                    None => Err("missing string field '"@ + "repo"@ + "'"@),
                    Some(repo) => match json::count(p, "number"@) {
                        None => Err("missing integer field '"@ + "number"@ + "'"@),
                        Some(number) => match json::field(p, "old_status"@) {
                            None => Err("missing string field '"@ + "old_status"@ + "'"@),
                            Some(old_status) => match json::field(p, "new_status"@) {
                                None => Err("missing string field '"@ + "new_status"@ + "'"@),
                                Some(new_status) => Ok::<Seq<char>, Seq<char>>(
                                    "[PR "@ + repo + "#"@ + compose::decimal(
                                        number as nat,
                                    ) + "] "@ + old_status + " -> "@ + new_status,
                                ),
                            },
                        },
                    },
                }
            )
        }),
{
    let kind = events::canonical_kind(event.kind);
    let p = event.payload;
    lemma_pull_request_changes_pieces(kind);
    lemma_no_family(kind);
    lemma_pull_request_changes_compact(p);
    lemma_pull_request_changes_alert(p);
    lemma_pull_request_changes_inline(p);
}

proof fn lemma_single_keyword_hits_compact(p: Node)
    ensures
        pieces::message(p, seq![Piece::Word("tmux:"), Piece::Text("session"), Piece::Word(" matched '"), Piece::Text("keyword"), Piece::Word("' => "), Piece::Text("line")]) == (
            match json::field(p, "session"@) {
                None => Err("missing string field '"@ + "session"@ + "'"@),
                Some(session) => match json::field(p, "keyword"@) {
                    None => Err("missing string field '"@ + "keyword"@ + "'"@),
                    Some(keyword) => match json::field(p, "line"@) {
                        None => Err("missing string field '"@ + "line"@ + "'"@),
                        Some(line) => Ok::<Seq<char>, Seq<char>>("tmux:"@ + session + " matched '"@ + keyword + "' => "@ + line),
                    },
                },
            }
        ),
{
    lemma_nothing_before();
    let s: Seq<Piece> = seq![
        Piece::Word("tmux:"),
        Piece::Text("session"),
        Piece::Word(" matched '"),
        Piece::Text("keyword"),
        Piece::Word("' => "),
        Piece::Text("line"),
    ];
    assert(s.take(0).len() == 0);
    lemma_message_step(p, s, 0);
    lemma_message_step(p, s, 1);
    lemma_message_step(p, s, 2);
    lemma_message_step(p, s, 3);
    lemma_message_step(p, s, 4);
    lemma_message_step(p, s, 5);
    assert(s.take(6) =~= s);
}

proof fn lemma_single_keyword_hits_alert(p: Node)
    ensures
        pieces::message(p, seq![Piece::Word("🚨 tmux session "), Piece::Text("session"), Piece::Word(" hit keyword '"), Piece::Text("keyword"), Piece::Word("': "), Piece::Text("line")]) == (
            match json::field(p, "session"@) {
                None => Err("missing string field '"@ + "session"@ + "'"@),
                Some(session) => match json::field(p, "keyword"@) {
                    None => Err("missing string field '"@ + "keyword"@ + "'"@),
                    Some(keyword) => match json::field(p, "line"@) {
                        None => Err("missing string field '"@ + "line"@ + "'"@),
                        Some(line) => Ok::<Seq<char>, Seq<char>>(
                            "🚨 tmux session "@ + session + " hit keyword '"@ + keyword + "': "@
                                + line,
                        ),
                    },
                },
            }
        ),
{
    lemma_nothing_before();
    let s: Seq<Piece> = seq![
        Piece::Word("🚨 tmux session "),
        Piece::Text("session"),
        Piece::Word(" hit keyword '"),
        Piece::Text("keyword"),
        Piece::Word("': "),
        Piece::Text("line"),
    ];
    assert(s.take(0).len() == 0);
    lemma_message_step(p, s, 0);
    lemma_message_step(p, s, 1);
    lemma_message_step(p, s, 2);
    lemma_message_step(p, s, 3);
    lemma_message_step(p, s, 4);
    lemma_message_step(p, s, 5);
    assert(s.take(6) =~= s);
}

proof fn lemma_single_keyword_hits_inline(p: Node)
    ensures
        pieces::message(p, seq![Piece::Word("[tmux:"), Piece::Text("session"), Piece::Word("] "), Piece::Text("line")]) == (
            match json::field(p, "session"@) {
                None => Err("missing string field '"@ + "session"@ + "'"@),
                Some(session) => match json::field(p, "line"@) {
                    None => Err("missing string field '"@ + "line"@ + "'"@),
                    Some(line) => Ok::<Seq<char>, Seq<char>>("[tmux:"@ + session + "] "@ + line),
                },
            }
        ),
{
    lemma_nothing_before();
    let s: Seq<Piece> = seq![
        Piece::Word("[tmux:"),
        Piece::Text("session"),
        Piece::Word("] "),
        Piece::Text("line"),
    ];
    assert(s.take(0).len() == 0);
    lemma_message_step(p, s, 0);
    lemma_message_step(p, s, 1);
    lemma_message_step(p, s, 2);
    lemma_message_step(p, s, 3);
    assert(s.take(4) =~= s);
}

proof fn lemma_single_keyword_hits_pieces(kind: Seq<char>)
    requires
        kind == "tmux.keyword"@,
    ensures
        !render::is_ci_kind(kind),
        kind.len() > 0 && kind[0] != 's' && kind[0] != 'w',
        kind != "git.commit"@,
        render::message_pieces(kind, MessageFormat::Compact) == Some::<Seq<Piece>>(
            seq![
                Piece::Word("tmux:"),
                Piece::Text("session"),
                Piece::Word(" matched '"),
                Piece::Text("keyword"),
                Piece::Word("' => "),
                Piece::Text("line"),
            ],
        ),
        render::message_pieces(kind, MessageFormat::Alert) == Some::<Seq<Piece>>(
            seq![
                Piece::Word("🚨 tmux session "),
                Piece::Text("session"),
                Piece::Word(" hit keyword '"),
                Piece::Text("keyword"),
                Piece::Word("': "),
                Piece::Text("line"),
            ],
        ),
        render::message_pieces(kind, MessageFormat::Inline) == Some::<Seq<Piece>>(
            seq![
                Piece::Word("[tmux:"),
                Piece::Text("session"),
                Piece::Word("] "),
                Piece::Text("line"),
            ],
        ),
{
    reveal_strlit("custom");
    reveal_strlit("agent.started");
    reveal_strlit("agent.blocked");
    reveal_strlit("agent.finished");
    reveal_strlit("agent.failed");
    reveal_strlit("github.issue-opened");
    reveal_strlit("github.issue-commented");
    reveal_strlit("github.issue-closed");
    reveal_strlit("git.commit");
    reveal_strlit("git.branch-changed");
    reveal_strlit("github.pr-status-changed");
    reveal_strlit("tmux.keyword");
    reveal_strlit("tmux.stale");
    reveal_strlit("github.ci-started");
    reveal_strlit("github.ci-failed");
    reveal_strlit("github.ci-passed");
    reveal_strlit("github.ci-cancelled");
    assert("custom"@.len() == 6);
    assert("agent.started"@.len() == 13);
    assert("agent.blocked"@.len() == 13);
    assert("agent.finished"@.len() == 14);
    assert("agent.failed"@.len() == 12);
    assert("agent.failed"@[0] == 'a');
    assert("github.issue-opened"@.len() == 19);
    assert("github.issue-commented"@.len() == 22);
    assert("github.issue-closed"@.len() == 19);
    assert("git.commit"@.len() == 10);
    assert("git.branch-changed"@.len() == 18);
    assert("github.pr-status-changed"@.len() == 24);
    assert("tmux.keyword"@.len() == 12);
    assert("tmux.keyword"@[0] == 't');
    assert("tmux.stale"@.len() == 10);
    assert("github.ci-started"@.len() == 17);
    assert("github.ci-failed"@.len() == 16);
    assert("github.ci-passed"@.len() == 16);
    assert("github.ci-cancelled"@.len() == 19);
    assert("tmux.keyword"@[0] == 't');
}

/// A single keyword hit: session, keyword and line.
pub proof fn law_text_of_single_keyword_hits(event: EventView)
    requires
        events::canonical_kind(event.kind) == "tmux.keyword"@,
        json::items(event.payload, "hits"@) matches Some(list) ==> list.len() <= 1,
    ensures
        ({
            let p = event.payload;
            &&& render::rendered(event, MessageFormat::Compact) == (
                match json::field(p, "session"@) {
                    None => Err("missing string field '"@ + "session"@ + "'"@),
                    Some(session) => match json::field(p, "keyword"@) {
                        None => Err("missing string field '"@ + "keyword"@ + "'"@),
                        Some(keyword) => match json::field(p, "line"@) {
                            None => Err("missing string field '"@ + "line"@ + "'"@),
                            Some(line) => Ok::<Seq<char>, Seq<char>>(
                                "tmux:"@ + session + " matched '"@ + keyword + "' => "@ + line,
                            ),
                        },
                    },
                }
            )
            &&& render::rendered(event, MessageFormat::Alert) == (
                match json::field(p, "session"@) {
                    None => Err("missing string field '"@ + "session"@ + "'"@),
                    Some(session) => match json::field(p, "keyword"@) {
                        None => Err("missing string field '"@ + "keyword"@ + "'"@),
                        Some(keyword) => match json::field(p, "line"@) {
                            None => Err("missing string field '"@ + "line"@ + "'"@),
                            Some(line) => Ok::<Seq<char>, Seq<char>>(
                                "🚨 tmux session "@ + session + " hit keyword '"@ + keyword + "': "@
                                    + line,
                            ),
                        },
                    },
                }
            )
            &&& render::rendered(event, MessageFormat::Inline) == (
                match json::field(p, "session"@) {
                    None => Err("missing string field '"@ + "session"@ + "'"@),
                    Some(session) => match json::field(p, "line"@) {
                        None => Err("missing string field '"@ + "line"@ + "'"@),
                        Some(line) => Ok::<Seq<char>, Seq<char>>("[tmux:"@ + session + "] "@ + line),
                    },
                }
            )
        }),
{
    let kind = events::canonical_kind(event.kind);
    let p = event.payload;
    lemma_single_keyword_hits_pieces(kind);
    lemma_no_family(kind);
    lemma_single_keyword_hits_compact(p);
    lemma_single_keyword_hits_alert(p);
    lemma_single_keyword_hits_inline(p);
}

proof fn lemma_stale_panes_compact(p: Node)
    ensures
        pieces::message(p, seq![Piece::Word("tmux:"), Piece::Text("session"), Piece::Word(" pane "), Piece::Text("pane"), Piece::Word(" stale for "), Piece::Number("minutes"), Piece::Word("m (last: "), Piece::Text("last_line"), Piece::Word(")")]) == (
            match json::field(p, "session"@) {
                None => Err("missing string field '"@ + "session"@ + "'"@),
                Some(session) => match json::field(p, "pane"@) {
                    None => Err("missing string field '"@ + "pane"@ + "'"@),
                    Some(pane) => match json::count(p, "minutes"@) {
                        None => Err("missing integer field '"@ + "minutes"@ + "'"@),
                        Some(minutes) => match json::field(p, "last_line"@) {
                            None => Err("missing string field '"@ + "last_line"@ + "'"@),
                            Some(last_line) => Ok::<Seq<char>, Seq<char>>(
                                "tmux:"@ + session + " pane "@ + pane + " stale for "@ + compose::decimal(
                                    minutes as nat,
                                ) + "m (last: "@ + last_line + ")"@,
                            ),
                        },
                    },
                },
            }
        ),
{
    lemma_nothing_before();
    let s: Seq<Piece> = seq![
        Piece::Word("tmux:"),
        Piece::Text("session"),
        Piece::Word(" pane "),
        Piece::Text("pane"),
        Piece::Word(" stale for "),
        Piece::Number("minutes"),
        Piece::Word("m (last: "),
        Piece::Text("last_line"),
        Piece::Word(")"),
    ];
    assert(s.take(0).len() == 0);
    lemma_message_step(p, s, 0);
    lemma_message_step(p, s, 1);
    lemma_message_step(p, s, 2);
    lemma_message_step(p, s, 3);
    lemma_message_step(p, s, 4);
    lemma_message_step(p, s, 5);
    lemma_message_step(p, s, 6);
    lemma_message_step(p, s, 7);
    lemma_message_step(p, s, 8);
    assert(s.take(9) =~= s);
}

proof fn lemma_stale_panes_alert(p: Node)
    ensures
        pieces::message(p, seq![Piece::Word("🚨 tmux session "), Piece::Text("session"), Piece::Word(" pane "), Piece::Text("pane"), Piece::Word(" stale for "), Piece::Number("minutes"), Piece::Word("m (last: "), Piece::Text("last_line"), Piece::Word(")")]) == (
            match json::field(p, "session"@) {
                None => Err("missing string field '"@ + "session"@ + "'"@),
                Some(session) => match json::field(p, "pane"@) {
                    None => Err("missing string field '"@ + "pane"@ + "'"@),
                    Some(pane) => match json::count(p, "minutes"@) {
                        None => Err("missing integer field '"@ + "minutes"@ + "'"@),
                        Some(minutes) => match json::field(p, "last_line"@) {
                            None => Err("missing string field '"@ + "last_line"@ + "'"@),
                            Some(last_line) => Ok::<Seq<char>, Seq<char>>(
                                "🚨 tmux session "@ + session + " pane "@ + pane + " stale for "@ + compose::decimal(
                                    minutes as nat,
                                ) + "m (last: "@ + last_line + ")"@,
                            ),
                        },
                    },
                },
            }
        ),
{
    lemma_nothing_before();
    let s: Seq<Piece> = seq![
        Piece::Word("🚨 tmux session "),
        Piece::Text("session"),
        Piece::Word(" pane "),
        Piece::Text("pane"),
        Piece::Word(" stale for "),
        Piece::Number("minutes"),
        Piece::Word("m (last: "),
        Piece::Text("last_line"),
        Piece::Word(")"),
    ];
    assert(s.take(0).len() == 0);
    lemma_message_step(p, s, 0);
    lemma_message_step(p, s, 1);
    lemma_message_step(p, s, 2);
    lemma_message_step(p, s, 3);
    lemma_message_step(p, s, 4);
    lemma_message_step(p, s, 5);
    lemma_message_step(p, s, 6);
    lemma_message_step(p, s, 7);
    lemma_message_step(p, s, 8);
    assert(s.take(9) =~= s);
}

proof fn lemma_stale_panes_inline(p: Node)
    ensures
        pieces::message(p, seq![Piece::Word("[tmux stale:"), Piece::Text("session"), Piece::Word(" "), Piece::Text("pane"), Piece::Word("] "), Piece::Number("minutes"), Piece::Word("m")]) == (
            match json::field(p, "session"@) {
                None => Err("missing string field '"@ + "session"@ + "'"@),
                Some(session) => match json::field(p, "pane"@) {
                    None => Err("missing string field '"@ + "pane"@ + "'"@),
                    Some(pane) => match json::count(p, "minutes"@) {
                        None => Err("missing integer field '"@ + "minutes"@ + "'"@),
                        Some(minutes) => Ok::<Seq<char>, Seq<char>>(
                            "[tmux stale:"@ + session + " "@ + pane + "] "@ + compose::decimal(
                                minutes as nat,
                            ) + "m"@,
                        ),
                    },
                },
            }
        ),
{
    lemma_nothing_before();
    let s: Seq<Piece> = seq![
        Piece::Word("[tmux stale:"),
        Piece::Text("session"),
        Piece::Word(" "),
        Piece::Text("pane"),
        Piece::Word("] "),
        Piece::Number("minutes"),
        Piece::Word("m"),
    ];
    assert(s.take(0).len() == 0);
    lemma_message_step(p, s, 0);
    lemma_message_step(p, s, 1);
    lemma_message_step(p, s, 2);
    lemma_message_step(p, s, 3);
    lemma_message_step(p, s, 4);
    lemma_message_step(p, s, 5);
    lemma_message_step(p, s, 6);
    assert(s.take(7) =~= s);
}

proof fn lemma_stale_panes_pieces(kind: Seq<char>)
    requires
        kind == "tmux.stale"@,
    ensures
        !render::is_ci_kind(kind),
        kind.len() > 0 && kind[0] != 's' && kind[0] != 'w',
        kind != "git.commit"@,
        kind != "tmux.keyword"@,
        render::message_pieces(kind, MessageFormat::Compact) == Some::<Seq<Piece>>(
            seq![
                Piece::Word("tmux:"),
                Piece::Text("session"),
                Piece::Word(" pane "),
                Piece::Text("pane"),
                Piece::Word(" stale for "),
                Piece::Number("minutes"),
                Piece::Word("m (last: "),
                Piece::Text("last_line"),
                Piece::Word(")"),
            ],
        ),
        render::message_pieces(kind, MessageFormat::Alert) == Some::<Seq<Piece>>(
            seq![
                Piece::Word("🚨 tmux session "),
                Piece::Text("session"),
                Piece::Word(" pane "),
                Piece::Text("pane"),
                Piece::Word(" stale for "),
                Piece::Number("minutes"),
                Piece::Word("m (last: "),
                Piece::Text("last_line"),
                Piece::Word(")"),
            ],
        ),
        render::message_pieces(kind, MessageFormat::Inline) == Some::<Seq<Piece>>(
            seq![
                Piece::Word("[tmux stale:"),
                Piece::Text("session"),
                Piece::Word(" "),
                Piece::Text("pane"),
                Piece::Word("] "),
                Piece::Number("minutes"),
                Piece::Word("m"),
            ],
        ),
{
    reveal_strlit("custom");
    reveal_strlit("agent.started");
    reveal_strlit("agent.blocked");
    reveal_strlit("agent.finished");
    reveal_strlit("agent.failed");
    reveal_strlit("github.issue-opened");
    reveal_strlit("github.issue-commented");
    reveal_strlit("github.issue-closed");
    reveal_strlit("git.commit");
    reveal_strlit("git.branch-changed");
    reveal_strlit("github.pr-status-changed");
    reveal_strlit("tmux.keyword");
    reveal_strlit("tmux.stale");
    reveal_strlit("github.ci-started");
    reveal_strlit("github.ci-failed");
    reveal_strlit("github.ci-passed");
    reveal_strlit("github.ci-cancelled");
    assert("custom"@.len() == 6);
    assert("agent.started"@.len() == 13);
    assert("agent.blocked"@.len() == 13);
    assert("agent.finished"@.len() == 14);
    assert("agent.failed"@.len() == 12);
    assert("github.issue-opened"@.len() == 19);
    assert("github.issue-commented"@.len() == 22);
    assert("github.issue-closed"@.len() == 19);
    assert("git.commit"@.len() == 10);
    assert("git.commit"@[0] == 'g');
    assert("git.branch-changed"@.len() == 18);
    assert("github.pr-status-changed"@.len() == 24);
    assert("tmux.keyword"@.len() == 12);
    assert("tmux.stale"@.len() == 10);
    assert("tmux.stale"@[0] == 't');
    assert("github.ci-started"@.len() == 17);
    assert("github.ci-failed"@.len() == 16);
    assert("github.ci-passed"@.len() == 16);
    assert("github.ci-cancelled"@.len() == 19);
    assert("tmux.stale"@[0] == 't');
}

/// A pane in which nothing happens: session, pane, for how many minutes, and its last line.
pub proof fn law_text_of_stale_panes(event: EventView)
    requires
        events::canonical_kind(event.kind) == "tmux.stale"@,
    ensures
        ({
            let p = event.payload;
            &&& render::rendered(event, MessageFormat::Compact) == (
                match json::field(p, "session"@) {
                    None => Err("missing string field '"@ + "session"@ + "'"@),
                    Some(session) => match json::field(p, "pane"@) {
                        None => Err("missing string field '"@ + "pane"@ + "'"@),
                        Some(pane) => match json::count(p, "minutes"@) {
                            None => Err("missing integer field '"@ + "minutes"@ + "'"@),
                            Some(minutes) => match json::field(p, "last_line"@) {
                                None => Err("missing string field '"@ + "last_line"@ + "'"@),
                                Some(last_line) => Ok::<Seq<char>, Seq<char>>(
                                    "tmux:"@ + session + " pane "@ + pane + " stale for "@ + compose::decimal(
                                        minutes as nat,
                                    ) + "m (last: "@ + last_line + ")"@,
                                ),
                            },
                        },
                    },
                }
            )
            &&& render::rendered(event, MessageFormat::Alert) == (
                match json::field(p, "session"@) {
                    None => Err("missing string field '"@ + "session"@ + "'"@),
                    Some(session) => match json::field(p, "pane"@) {
                        None => Err("missing string field '"@ + "pane"@ + "'"@),
                        Some(pane) => match json::count(p, "minutes"@) {
                            None => Err("missing integer field '"@ + "minutes"@ + "'"@),
                            Some(minutes) => match json::field(p, "last_line"@) {
                                None => Err("missing string field '"@ + "last_line"@ + "'"@),
                                Some(last_line) => Ok::<Seq<char>, Seq<char>>(
                                    "🚨 tmux session "@ + session + " pane "@ + pane + " stale for "@ + compose::decimal(
                                        minutes as nat,
                                    ) + "m (last: "@ + last_line + ")"@,
                                ),
                            },
                        },
                    },
                }
            )
            &&& render::rendered(event, MessageFormat::Inline) == (
                match json::field(p, "session"@) {
                    None => Err("missing string field '"@ + "session"@ + "'"@),
                    Some(session) => match json::field(p, "pane"@) {
                        None => Err("missing string field '"@ + "pane"@ + "'"@),
                        Some(pane) => match json::count(p, "minutes"@) {
                            None => Err("missing integer field '"@ + "minutes"@ + "'"@),
                            Some(minutes) => Ok::<Seq<char>, Seq<char>>(
                                "[tmux stale:"@ + session + " "@ + pane + "] "@ + compose::decimal(
                                    minutes as nat,
                                ) + "m"@,
                            ),
                        },
                    },
                }
            )
        }),
{
    let kind = events::canonical_kind(event.kind);
    let p = event.payload;
    lemma_stale_panes_pieces(kind);
    lemma_no_family(kind);
    lemma_stale_panes_compact(p);
    lemma_stale_panes_alert(p);
    lemma_stale_panes_inline(p);
}

// ---------------------------------------------------------------------------
// Parts that are there only where the payload has them
// ---------------------------------------------------------------------------

/// A text behind a label where there is one, and else nothing.
pub open spec fn part(label: Seq<char>, value: Option<Seq<char>>) -> Seq<Seq<char>> {
    match value {
        Some(s) => seq![label + s],
        None => Seq::empty(),
    }
}

/// A number between two labels where there is one, and else nothing.
pub open spec fn count_part(before: Seq<char>, value: Option<u64>, after: Seq<char>) -> Seq<
    Seq<char>,
> {
    match value {
        Some(n) => seq![before + compose::decimal(n as nat) + after],
        None => Seq::empty(),
    }
}

proof fn lemma_part(parts: Seq<Seq<char>>, label: Seq<char>, value: Option<Seq<char>>)
    ensures
        labels::pushed(parts, labels::labelled(label, value)) == parts + part(label, value),
{
    assert(labels::pushed(parts, labels::labelled(label, value)) =~= parts + part(label, value));
}

proof fn lemma_bare_part(parts: Seq<Seq<char>>, value: Option<Seq<char>>)
    ensures
        labels::pushed(parts, value) == parts + part(Seq::empty(), value),
{
    match value {
        Some(s) => {
            assert(Seq::<char>::empty() + s =~= s);
        },
        None => {},
    }
    assert(labels::pushed(parts, value) =~= parts + part(Seq::empty(), value));
}

proof fn lemma_count_part(
    parts: Seq<Seq<char>>,
    before: Seq<char>,
    value: Option<u64>,
    after: Seq<char>,
)
    ensures
        labels::pushed(parts, labels::counted(before, value, after)) == parts + count_part(
            before,
            value,
            after,
        ),
{
    assert(labels::pushed(parts, labels::counted(before, value, after)) =~= parts + count_part(
        before,
        value,
        after,
    ));
}

/// The repository of a message without a worktree of its own is its name.
pub proof fn law_repository_is_its_name(p: Node, repo: Seq<char>)
    requires
        json::field(p, "repo"@) == Some(repo),
        json::field(p, "worktree_path"@) is None || json::field(p, "worktree_path"@)
            == json::field(p, "repo_path"@),
    ensures
        labels::repo_label(p) == Ok::<Seq<char>, Seq<char>>(repo),
{
}

/// The repository of a message with another worktree is its name with the last part of the
/// worktree's path behind it, or the whole path where that part says nothing.
pub proof fn law_repository_names_its_worktree(p: Node, repo: Seq<char>, path: Seq<char>)
    requires
        json::field(p, "repo"@) == Some(repo),
        json::field(p, "worktree_path"@) == Some(path),
        json::field(p, "repo_path"@) != Some(path),
    ensures
        labels::repo_label(p) == Ok::<Seq<char>, Seq<char>>(
            repo + "[wt:"@ + (match paths::file_name(path) {
                Some(name) => if text::trimmed(name).len() > 0 {
                    text::trimmed(name)
                } else {
                    path
                },
                None => path,
            }) + "]"@,
        ),
{
}

/// A message that names no repository is refused.
pub proof fn law_repository_is_required(p: Node)
    requires
        json::field(p, "repo"@) is None,
    ensures
        labels::repo_label(p) == Err::<Seq<char>, Seq<char>>(
            "missing string field '"@ + "repo"@ + "'"@,
        ),
{
}

/// What is known of an agent stands in brackets: its status first, then project, session,
/// seconds, summary and error, as far as they are there.
pub proof fn law_detail_of_agents(p: Node)
    ensures
        labels::agent_detail(p) == " ("@ + compose::joined(
            seq![
                match json::field(p, "status"@) {
                    Some(s) => s,
                    None => Seq::empty(),
                },
            ] + part("project="@, json::field(p, "project"@)) + part(
                "session="@,
                json::field(p, "session_id"@),
            ) + count_part("elapsed="@, json::count(p, "elapsed_secs"@), "s"@) + part(
                "summary="@,
                json::field(p, "summary"@),
            ) + part("error="@, json::field(p, "error_message"@)),
            ", "@,
        ) + ")"@,
{
    let status = labels::or_text(json::field(p, "status"@), Seq::empty());
    let a = Seq::<Seq<char>>::empty().push(status);
    assert(a =~= seq![status]);
    lemma_part(a, "project="@, json::field(p, "project"@));
    let b = a + part("project="@, json::field(p, "project"@));
    lemma_part(b, "session="@, json::field(p, "session_id"@));
    let c = b + part("session="@, json::field(p, "session_id"@));
    lemma_count_part(c, "elapsed="@, json::count(p, "elapsed_secs"@), "s"@);
    let d = c + count_part("elapsed="@, json::count(p, "elapsed_secs"@), "s"@);
    lemma_part(d, "summary="@, json::field(p, "summary"@));
    let e = d + part("summary="@, json::field(p, "summary"@));
    lemma_part(e, "error="@, json::field(p, "error_message"@));
}

/// What is known of an agent in a line stands behind dots: project, session, seconds,
/// summary and error, as far as they are there.
pub proof fn law_line_of_agents(p: Node)
    ensures
        ({
            let parts = part("project="@, json::field(p, "project"@)) + part(
                "session="@,
                json::field(p, "session_id"@),
            ) + count_part("elapsed="@, json::count(p, "elapsed_secs"@), "s"@) + part(
                Seq::empty(),
                json::field(p, "summary"@),
            ) + part("error: "@, json::field(p, "error_message"@));
            labels::agent_inline(p) == (if parts.len() == 0 {
                Seq::empty()
            } else {
                " · "@ + compose::joined(parts, " · "@)
            })
        }),
{
    let a = Seq::<Seq<char>>::empty();
    lemma_part(a, "project="@, json::field(p, "project"@));
    let b = part("project="@, json::field(p, "project"@));
    assert(a + b =~= b);
    lemma_part(b, "session="@, json::field(p, "session_id"@));
    let c = b + part("session="@, json::field(p, "session_id"@));
    lemma_count_part(c, "elapsed="@, json::count(p, "elapsed_secs"@), "s"@);
    let d = c + count_part("elapsed="@, json::count(p, "elapsed_secs"@), "s"@);
    lemma_bare_part(d, json::field(p, "summary"@));
    let e = d + part(Seq::empty(), json::field(p, "summary"@));
    lemma_part(e, "error: "@, json::field(p, "error_message"@));
}

// ---------------------------------------------------------------------------
// Sessions and workspaces
// ---------------------------------------------------------------------------

/// What is known of a session stands in brackets: repository, issue, pull request,
/// branch, test runner, seconds, summary and error, as far as they are there, and no
/// brackets where there is nothing.
pub proof fn law_detail_of_sessions(p: Node)
    ensures
        ({
            let repo = match json::field(p, "repo_name"@) {
                Some(s) => Some(s),
                None => json::field(p, "project"@),
            };
            let parts = part("repo="@, repo) + count_part(
                "issue=#"@,
                json::count(p, "issue_number"@),
                ""@,
            ) + count_part("pr=#"@, json::count(p, "pr_number"@), ""@) + part(
                "branch="@,
                json::field(p, "branch"@),
            ) + part("runner="@, json::field(p, "test_runner"@)) + count_part(
                "elapsed="@,
                json::count(p, "elapsed_secs"@),
                "s"@,
            ) + part("summary="@, json::field(p, "summary"@)) + part(
                "error="@,
                json::field(p, "error_message"@),
            );
            labels::session_detail(p) == (if parts.len() == 0 {
                Seq::empty()
            } else {
                " ("@ + compose::joined(parts, ", "@) + ")"@
            })
        }),
{
    let repo = labels::session_repo(p);
    let none = Seq::<Seq<char>>::empty();
    lemma_part(none, "repo="@, repo);
    let a = part("repo="@, repo);
    assert(none + a =~= a);
    lemma_count_part(a, "issue=#"@, json::count(p, "issue_number"@), ""@);
    let b = a + count_part("issue=#"@, json::count(p, "issue_number"@), ""@);
    lemma_count_part(b, "pr=#"@, json::count(p, "pr_number"@), ""@);
    let c = b + count_part("pr=#"@, json::count(p, "pr_number"@), ""@);
    lemma_part(c, "branch="@, json::field(p, "branch"@));
    let d = c + part("branch="@, json::field(p, "branch"@));
    lemma_part(d, "runner="@, json::field(p, "test_runner"@));
    let e = d + part("runner="@, json::field(p, "test_runner"@));
    lemma_count_part(e, "elapsed="@, json::count(p, "elapsed_secs"@), "s"@);
    let f = e + count_part("elapsed="@, json::count(p, "elapsed_secs"@), "s"@);
    lemma_part(f, "summary="@, json::field(p, "summary"@));
    let g = f + part("summary="@, json::field(p, "summary"@));
    lemma_part(g, "error="@, json::field(p, "error_message"@));
}

/// What is known of a session in a line stands behind dots, in the same order.
pub proof fn law_line_of_sessions(p: Node)
    ensures
        ({
            let repo = match json::field(p, "repo_name"@) {
                Some(s) => Some(s),
                None => json::field(p, "project"@),
            };
            let parts = part(Seq::empty(), repo) + count_part(
                "issue #"@,
                json::count(p, "issue_number"@),
                ""@,
            ) + count_part("PR #"@, json::count(p, "pr_number"@), ""@) + part(
                Seq::empty(),
                json::field(p, "branch"@),
            ) + part(Seq::empty(), json::field(p, "test_runner"@)) + count_part(
                ""@,
                json::count(p, "elapsed_secs"@),
                "s"@,
            ) + part(Seq::empty(), json::field(p, "summary"@)) + part(
                "error: "@,
                json::field(p, "error_message"@),
            );
            labels::session_inline(p) == (if parts.len() == 0 {
                Seq::empty()
            } else {
                " · "@ + compose::joined(parts, " · "@)
            })
        }),
{
    let repo = labels::session_repo(p);
    let none = Seq::<Seq<char>>::empty();
    let bare = Seq::<char>::empty();
    lemma_bare_part(none, repo);
    let a = part(bare, repo);
    assert(none + a =~= a);
    lemma_count_part(a, "issue #"@, json::count(p, "issue_number"@), ""@);
    let b = a + count_part("issue #"@, json::count(p, "issue_number"@), ""@);
    lemma_count_part(b, "PR #"@, json::count(p, "pr_number"@), ""@);
    let c = b + count_part("PR #"@, json::count(p, "pr_number"@), ""@);
    lemma_bare_part(c, json::field(p, "branch"@));
    let d = c + part(bare, json::field(p, "branch"@));
    lemma_bare_part(d, json::field(p, "test_runner"@));
    let e = d + part(bare, json::field(p, "test_runner"@));
    lemma_count_part(e, ""@, json::count(p, "elapsed_secs"@), "s"@);
    let f = e + count_part(""@, json::count(p, "elapsed_secs"@), "s"@);
    lemma_bare_part(f, json::field(p, "summary"@));
    let g = f + part(bare, json::field(p, "summary"@));
    lemma_part(g, "error: "@, json::field(p, "error_message"@));
}

proof fn lemma_nothing_replaced(s: Seq<char>)
    requires
        !s.contains('-'),
    ensures
        scan::replaced(s, "-"@, " "@) == s,
    decreases s.len(),
{
    reveal_strlit("-");
    if s.len() > 0 {
        let rest = s.skip(1);
        assert(s[0] != '-');
        if text::begins_with(s, "-"@) {
            assert(s.subrange(0, 1)[0] == "-"@[0]);
        }
        assert(!rest.contains('-')) by {
            if rest.contains('-') {
                let i = choose|i: int| 0 <= i < rest.len() && rest[i] == '-';
                assert(s[i + 1] == '-');
            }
        }
        lemma_nothing_replaced(rest);
        assert(seq![s[0]] + rest =~= s);
    }
}

proof fn lemma_stages_have_no_dash(stage: Seq<char>)
    requires
        stage == "started"@ || stage == "blocked"@ || stage == "finished"@ || stage == "failed"@,
    ensures
        !stage.contains('-'),
{
    reveal_strlit("started");
    reveal_strlit("blocked");
    reveal_strlit("finished");
    reveal_strlit("failed");
}

/// The message of a session: whom it mentions, the tool and the session, what happened to
/// it, and what is known of it. What happened is the last part of the kind; where a
/// session starts, is blocked, finishes or fails, the status of the payload counts first.
pub proof fn law_text_of_sessions(event: EventView, happened: Seq<char>)
    requires
        events::canonical_kind(event.kind) == "session."@ + happened,
    ensures
        ({
            let p = event.payload;
            let mention = match json::field(p, "mention"@) {
                Some(m) => m + " "@,
                None => Seq::empty(),
            };
            let tool = match json::field(p, "tool"@) {
                Some(t) => t,
                None => "session"@,
            };
            let subject = match (json::field(p, "session_name"@), json::field(p, "session_id"@)) {
                (Some(name), _) => tool + " "@ + name,
                (None, Some(id)) => tool + " "@ + id,
                (None, None) => tool,
            };
            let own_status = happened == "started"@ || happened == "blocked"@ || happened
                == "finished"@ || happened == "failed"@;
            let status = match json::field(p, "status"@) {
                Some(s) => if own_status {
                    s
                } else {
                    happened
                },
                None => happened,
            };
            &&& render::rendered(event, MessageFormat::Compact) == Ok::<Seq<char>, Seq<char>>(
                mention + subject + " "@ + status + labels::session_detail(p),
            )
            &&& render::rendered(event, MessageFormat::Alert) == Ok::<Seq<char>, Seq<char>>(
                "🚨 "@ + mention + subject + " "@ + status + labels::session_detail(p),
            )
            &&& render::rendered(event, MessageFormat::Inline) == Ok::<Seq<char>, Seq<char>>(
                mention + "["@ + subject + "] "@ + status + labels::session_inline(p),
            )
            &&& render::rendered(event, MessageFormat::Raw) == Ok::<Seq<char>, Seq<char>>(
                codec::json_pretty(p),
            )
        }),
{
    let kind = events::canonical_kind(event.kind);
    let p = event.payload;
    reveal_strlit("session.");
    assert(kind.subrange(0, 8) =~= "session."@);
    assert(kind.skip(8) =~= happened);
    assert(labels::session_phase(kind) == happened);
    assert("session.started"@ == "session."@ + "started"@) by {
        reveal_strlit("session.started");
        reveal_strlit("started");
        assert("session.started"@ =~= "session."@ + "started"@);
    }
    assert("session.blocked"@ == "session."@ + "blocked"@) by {
        reveal_strlit("session.blocked");
        reveal_strlit("blocked");
        assert("session.blocked"@ =~= "session."@ + "blocked"@);
    }
    assert("session.finished"@ == "session."@ + "finished"@) by {
        reveal_strlit("session.finished");
        reveal_strlit("finished");
        assert("session.finished"@ =~= "session."@ + "finished"@);
    }
    assert("session.failed"@ == "session."@ + "failed"@) by {
        reveal_strlit("session.failed");
        reveal_strlit("failed");
        assert("session.failed"@ =~= "session."@ + "failed"@);
    }
    let own_status = happened == "started"@ || happened == "blocked"@ || happened == "finished"@
        || happened == "failed"@;
    assert(labels::is_session_lifecycle(kind) == own_status) by {
        if labels::is_session_lifecycle(kind) {
            assert(("session."@ + "started"@).skip(8) =~= "started"@);
            assert(("session."@ + "blocked"@).skip(8) =~= "blocked"@);
            assert(("session."@ + "finished"@).skip(8) =~= "finished"@);
            assert(("session."@ + "failed"@).skip(8) =~= "failed"@);
        }
    }
    if own_status {
        lemma_stages_have_no_dash(happened);
        lemma_nothing_replaced(happened);
    }
}

/// The message of a workspace: tool and workspace, the file that changed, what happened,
/// and the session where it is known.
pub proof fn law_text_of_workspaces(event: EventView)
    requires
        text::begins_with(events::canonical_kind(event.kind), "workspace."@),
    ensures
        ({
            let p = event.payload;
            let tool = match (json::field(p, "tool"@), json::field(p, "state_family"@)) {
                (Some(t), _) => t,
                (None, Some(family)) => family,
                (None, None) => "workspace"@,
            };
            let workspace = match (
                json::field(p, "workspace_name"@),
                json::field(p, "workspace_root"@),
            ) {
                (Some(name), _) => name,
                (None, Some(root)) => root,
                (None, None) => "workspace"@,
            };
            let summary = match json::field(p, "summary"@) {
                Some(s) => s,
                None => events::canonical_kind(event.kind),
            };
            let session = match (json::field(p, "session_name"@), json::field(p, "session_id"@)) {
                (Some(name), _) => " · session="@ + name,
                (None, Some(id)) => " · session="@ + id,
                (None, None) => ""@,
            };
            match json::field(p, "state_file"@) {
                Some(file) => {
                    &&& render::rendered(event, MessageFormat::Compact) == Ok::<
                        Seq<char>,
                        Seq<char>,
                    >(tool + ":"@ + workspace + " · "@ + file + " · "@ + summary + session)
                    &&& render::rendered(event, MessageFormat::Alert) == Ok::<
                        Seq<char>,
                        Seq<char>,
                    >("🚨 "@ + tool + ":"@ + workspace + " · "@ + file + " · "@ + summary + session)
                    &&& render::rendered(event, MessageFormat::Inline) == Ok::<
                        Seq<char>,
                        Seq<char>,
                    >("["@ + tool + ":"@ + workspace + "] "@ + file + session)
                    &&& render::rendered(event, MessageFormat::Raw) == Ok::<
                        Seq<char>,
                        Seq<char>,
                    >(codec::json_pretty(p))
                },
                None => forall|format: MessageFormat| #[trigger]
                    render::rendered(event, format) == Err::<Seq<char>, Seq<char>>(
                        "missing string field '"@ + "state_file"@ + "'"@,
                    ),
            }
        }),
{
    let kind = events::canonical_kind(event.kind);
    reveal_strlit("session.");
    reveal_strlit("workspace.");
    assert(kind.subrange(0, 10)[0] == 'w');
    if text::begins_with(kind, "session."@) {
        assert(kind.subrange(0, 8)[0] == 's');
    }
}

// ---------------------------------------------------------------------------
// Continuous integration
// ---------------------------------------------------------------------------

/// The message of a single CI job: what it did, for what, under which workflow, how it
/// stands, the short commit and, but in a line, the link.
pub proof fn law_text_of_ci_jobs(event: EventView, did: Seq<char>)
    requires
        did == "started"@ || did == "failed"@ || did == "passed"@ || did == "cancelled"@,
        events::canonical_kind(event.kind) == "github.ci-"@ + did,
        json::flag(event.payload, "batched"@) != Some(true),
    ensures
        ({
            let p = event.payload;
            let state = match json::field(p, "conclusion"@) {
                Some(s) => Some(s),
                None => json::field(p, "status"@),
            };
            match (
                json::field(p, "workflow"@),
                state,
                json::field(p, "sha"@),
                json::field(p, "repo"@),
            ) {
                (Some(workflow), Some(state), Some(sha), Some(repo)) => {
                    let target = match json::count(p, "number"@) {
                        Some(n) => repo + "#"@ + compose::decimal(n as nat),
                        None => repo,
                    };
                    let short = if sha.len() > 7 {
                        sha.take(7)
                    } else {
                        sha
                    };
                    let line = "CI "@ + did + " · "@ + target + " · "@ + workflow + " · "@ + state
                        + " · "@ + short;
                    &&& render::rendered(event, MessageFormat::Inline) == Ok::<
                        Seq<char>,
                        Seq<char>,
                    >(line)
                    &&& json::field(p, "url"@) matches Some(url) ==> render::rendered(
                        event,
                        MessageFormat::Compact,
                    ) == Ok::<Seq<char>, Seq<char>>(line + " · "@ + url) && render::rendered(
                        event,
                        MessageFormat::Alert,
                    ) == Ok::<Seq<char>, Seq<char>>("🚨 "@ + (line + " · "@ + url))
                    &&& json::field(p, "url"@) is None ==> render::rendered(
                        event,
                        MessageFormat::Compact,
                    ) is Err && render::rendered(event, MessageFormat::Alert) is Err
                },
                _ => {
                    &&& render::rendered(event, MessageFormat::Compact) is Err
                    &&& render::rendered(event, MessageFormat::Alert) is Err
                    &&& render::rendered(event, MessageFormat::Inline) is Err
                },
            }
        }),
{
    let kind = events::canonical_kind(event.kind);
    let p = event.payload;
    lemma_ci_kind(kind, did);
    lemma_no_family(kind);
    if json::field(p, "workflow"@) is Some && json::field(p, "sha"@) is Some && json::field(
        p,
        "repo"@,
    ) is Some {
        let state = text::or_else(json::field(p, "conclusion"@), json::field(p, "status"@));
        let workflow = json::field(p, "workflow"@)->Some_0;
        let sha = json::field(p, "sha"@)->Some_0;
        if state is Some {
            let target = render::ci_target(p)->Ok_0;
            let s = Seq::<Seq<char>>::empty().push("CI "@ + did).push(target).push(workflow).push(
                state->Some_0,
            ).push(events::short(sha));
            lemma_five_joined(s, " · "@);
            match json::field(p, "url"@) {
                Some(url) => {
                    assert(s.push(url).drop_last() =~= s);
                },
                None => {},
            }
        }
    }
}

proof fn lemma_five_joined(s: Seq<Seq<char>>, sep: Seq<char>)
    requires
        s.len() == 5,
    ensures
        compose::joined(s, sep) == s[0] + sep + s[1] + sep + s[2] + sep + s[3] + sep + s[4],
{
    reveal_with_fuel(compose::joined, 6);
    assert(s.drop_last().drop_last().drop_last().drop_last()[0] == s[0]);
    assert(s.drop_last().drop_last().drop_last().last() == s[1]);
    assert(s.drop_last().drop_last().last() == s[2]);
    assert(s.drop_last().last() == s[3]);
}

proof fn lemma_ci_kind(kind: Seq<char>, did: Seq<char>)
    requires
        did == "started"@ || did == "failed"@ || did == "passed"@ || did == "cancelled"@,
        kind == "github.ci-"@ + did,
    ensures
        render::is_ci_kind(kind),
        render::ci_action(kind) == did,
        kind.len() > 0 && kind[0] == 'g',
        kind != "git.commit"@,
        kind != "tmux.keyword"@,
        did == "started"@ ==> kind == "github.ci-started"@,
        did == "failed"@ ==> kind == "github.ci-failed"@,
        did == "passed"@ ==> kind == "github.ci-passed"@,
        did == "cancelled"@ ==> kind == "github.ci-cancelled"@,
        did == "passed"@ <==> kind == "github.ci-passed"@,
        did == "failed"@ <==> kind == "github.ci-failed"@,
        did == "cancelled"@ <==> kind == "github.ci-cancelled"@,
{
    reveal_strlit("github.ci-");
    reveal_strlit("started");
    reveal_strlit("failed");
    reveal_strlit("passed");
    reveal_strlit("cancelled");
    reveal_strlit("github.ci-started");
    reveal_strlit("github.ci-failed");
    reveal_strlit("github.ci-passed");
    reveal_strlit("github.ci-cancelled");
    reveal_strlit("git.commit");
    reveal_strlit("tmux.keyword");
    assert("github.ci-"@ + "started"@ =~= "github.ci-started"@);
    assert("github.ci-"@ + "failed"@ =~= "github.ci-failed"@);
    assert("github.ci-"@ + "passed"@ =~= "github.ci-passed"@);
    assert("github.ci-"@ + "cancelled"@ =~= "github.ci-cancelled"@);
    assert("github.ci-failed"@[10] == 'f' && "github.ci-passed"@[10] == 'p');
    assert("failed"@[0] == 'f' && "passed"@[0] == 'p');
    assert("github.ci-started"@.len() == 17 && "github.ci-cancelled"@.len() == 19);
    assert("github.ci-failed"@.len() == 16 && "github.ci-passed"@.len() == 16);
    assert("git.commit"@.len() == 10 && "tmux.keyword"@.len() == 12);
    assert(kind[0] == "github.ci-"@[0]);
}

/// The workflows of the jobs that name one, in their order.
pub open spec fn named_workflows(jobs: Seq<Node>) -> Seq<Seq<char>> {
    jobs.filter(|job: Node| json::raw_field(job, "workflow"@) is Some).map_values(
        |job: Node| json::raw_field(job, "workflow"@)->Some_0,
    )
}

proof fn lemma_workflows(jobs: Seq<Node>)
    ensures
        render::workflows_in(jobs) == named_workflows(jobs),
    decreases jobs.len(),
{
    reveal(Seq::filter);
    if jobs.len() > 0 {
        lemma_workflows(jobs.drop_last());
        assert(render::workflows_in(jobs) =~= named_workflows(jobs));
    } else {
        assert(render::workflows_in(jobs) =~= named_workflows(jobs));
    }
}

/// How a job of a batch ended, or else how it stands.
pub open spec fn ending_of(job: Node) -> Option<Seq<char>> {
    match json::raw_field(job, "conclusion"@) {
        Some(s) => Some(s),
        None => json::raw_field(job, "status"@),
    }
}

/// A job that names its workflow and did not end as it should.
pub open spec fn ended_badly(job: Node) -> bool {
    json::raw_field(job, "workflow"@) is Some && (ending_of(job) matches Some(end) && end
        != "success"@ && end != "neutral"@ && end != "skipped"@)
}

/// The jobs that did not end as they should, each with how it ended.
pub open spec fn bad_endings(jobs: Seq<Node>) -> Seq<Seq<char>> {
    jobs.filter(|job: Node| ended_badly(job)).map_values(
        |job: Node|
            json::raw_field(job, "workflow"@)->Some_0 + ":"@ + ending_of(job)->Some_0,
    )
}

proof fn lemma_bad_endings(jobs: Seq<Node>)
    ensures
        render::unsuccessful_in(jobs) == bad_endings(jobs),
    decreases jobs.len(),
{
    reveal(Seq::filter);
    if jobs.len() > 0 {
        lemma_bad_endings(jobs.drop_last());
        assert(render::unsuccessful_in(jobs) =~= bad_endings(jobs));
    } else {
        assert(render::unsuccessful_in(jobs) =~= bad_endings(jobs));
    }
}

/// A number with a word behind it, where it is there and not zero.
pub open spec fn tally_part(value: Option<u64>, word: Seq<char>) -> Seq<Seq<char>> {
    match value {
        Some(n) => if n > 0 {
            seq![compose::decimal(n as nat) + word]
        } else {
            Seq::empty()
        },
        None => Seq::empty(),
    }
}

/// The parts of the message of a batch of CI jobs: how the run went, the workflows, and,
/// for a run that failed, the jobs that did not end well, and else how many were skipped,
/// cancelled and failed.
pub open spec fn batch_message_parts(
    p: Node,
    did: Seq<char>,
    repo: Seq<char>,
    jobs: Seq<Node>,
) -> Seq<
    Seq<char>,
> {
    let target = match json::count(p, "number"@) {
        Some(n) => repo + "#"@ + compose::decimal(n as nat),
        None => repo,
    };
    let passed: u64 = match json::count(p, "passed_count"@) {
        Some(n) => n,
        None => 0,
    };
    let total: u64 = match json::count(p, "total_count"@) {
        Some(n) => n,
        None => jobs.len() as u64,
    };
    let head = if did == "passed"@ {
        "✅ CI passed · "@ + target + " · "@ + compose::decimal(passed as nat) + "/"@
            + compose::decimal(total as nat) + " passed"@
    } else if did == "failed"@ {
        "❌ CI failed · "@ + target
    } else if did == "cancelled"@ {
        "🟡 CI cancelled · "@ + target
    } else {
        "⏳ CI running · "@ + target
    };
    let names = compose::joined(named_workflows(jobs), ", "@);
    seq![head] + (if names.len() == 0 {
        Seq::empty()
    } else {
        seq![names]
    }) + (if did == "failed"@ {
        if bad_endings(jobs).len() == 0 {
            Seq::empty()
        } else {
            seq![compose::joined(bad_endings(jobs), ", "@)]
        }
    } else {
        tally_part(json::count(p, "skipped_count"@), " skipped"@) + tally_part(
            json::count(p, "cancelled_count"@),
            " cancelled"@,
        ) + tally_part(json::count(p, "failed_count"@), " failed"@)
    })
}

proof fn lemma_tally_part(parts: Seq<Seq<char>>, value: Option<u64>, word: Seq<char>)
    ensures
        labels::pushed(parts, render::positive(render::or_count(value, 0), word)) == parts
            + tally_part(value, word),
{
    assert(labels::pushed(parts, render::positive(render::or_count(value, 0), word)) =~= parts
        + tally_part(value, word));
}

/// The message of a batch of CI jobs: its parts with dots between them and, but in a line,
/// the link behind them.
pub proof fn law_text_of_ci_batches(event: EventView, did: Seq<char>)
    requires
        did == "started"@ || did == "failed"@ || did == "passed"@ || did == "cancelled"@,
        events::canonical_kind(event.kind) == "github.ci-"@ + did,
        json::flag(event.payload, "batched"@) == Some(true),
    ensures
        ({
            let p = event.payload;
            match (json::items(p, "jobs"@), json::field(p, "repo"@)) {
                (Some(jobs), Some(repo)) => {
                    let parts = batch_message_parts(p, did, repo, jobs);
                    &&& render::rendered(event, MessageFormat::Inline) == Ok::<
                        Seq<char>,
                        Seq<char>,
                    >(compose::joined(parts, " · "@))
                    &&& json::field(p, "url"@) matches Some(url) ==> render::rendered(
                        event,
                        MessageFormat::Compact,
                    ) == Ok::<Seq<char>, Seq<char>>(
                        compose::joined(parts.push(url), " · "@),
                    ) && render::rendered(event, MessageFormat::Alert) == Ok::<
                        Seq<char>,
                        Seq<char>,
                    >("🚨 "@ + compose::joined(parts.push(url), " · "@))
                    &&& json::field(p, "url"@) is None ==> render::rendered(
                        event,
                        MessageFormat::Compact,
                    ) is Err && render::rendered(event, MessageFormat::Alert) is Err
                },
                _ => {
                    &&& render::rendered(event, MessageFormat::Compact) is Err
                    &&& render::rendered(event, MessageFormat::Alert) is Err
                    &&& render::rendered(event, MessageFormat::Inline) is Err
                },
            }
        }),
{
    let kind = events::canonical_kind(event.kind);
    let p = event.payload;
    lemma_ci_kind(kind, did);
    lemma_no_family(kind);
    if json::items(p, "jobs"@) is Some && json::field(p, "repo"@) is Some {
        let jobs = json::items(p, "jobs"@)->Some_0;
        let repo = json::field(p, "repo"@)->Some_0;
        let target = render::ci_target(p)->Ok_0;
        lemma_workflows(jobs);
        lemma_bad_endings(jobs);
        let head = render::batch_head(p, kind, target, jobs.len());
        let names = compose::joined(named_workflows(jobs), ", "@);
        let one = Seq::<Seq<char>>::empty().push(head);
        assert(one =~= seq![head]);
        let two = labels::pushed(one, render::not_empty(names));
        let names_part: Seq<Seq<char>> = if names.len() == 0 {
            Seq::empty()
        } else {
            seq![names]
        };
        assert(two =~= one + names_part);
        let wanted = batch_message_parts(p, did, repo, jobs);
        if did == "failed"@ {
            assert(render::batch_parts(p, kind, target, jobs) =~= wanted);
        } else {
            lemma_tally_part(two, json::count(p, "skipped_count"@), " skipped"@);
            let three = two + tally_part(json::count(p, "skipped_count"@), " skipped"@);
            lemma_tally_part(three, json::count(p, "cancelled_count"@), " cancelled"@);
            let four = three + tally_part(json::count(p, "cancelled_count"@), " cancelled"@);
            lemma_tally_part(four, json::count(p, "failed_count"@), " failed"@);
            assert(render::batch_parts(p, kind, target, jobs) =~= wanted);
        }
    }
}

// ---------------------------------------------------------------------------
// Lists
// ---------------------------------------------------------------------------

/// The summaries of the commits that have one, in their order.
pub open spec fn named_summaries(commits: Seq<Node>) -> Seq<Seq<char>> {
    commits.filter(|commit: Node| json::field(commit, "summary"@) is Some).map_values(
        |commit: Node| json::field(commit, "summary"@)->Some_0,
    )
}

proof fn lemma_summaries(commits: Seq<Node>)
    ensures
        render::summaries_in(commits) == named_summaries(commits),
    decreases commits.len(),
{
    reveal(Seq::filter);
    if commits.len() > 0 {
        lemma_summaries(commits.drop_last());
        assert(render::summaries_in(commits) =~= named_summaries(commits));
    } else {
        assert(render::summaries_in(commits) =~= named_summaries(commits));
    }
}

/// Several commits: how many were pushed to which branch of which repository, and a line
/// for each of up to five of them. Of more the first three are shown, then how many are
/// left out, then the last two.
pub proof fn law_text_of_pushes(event: EventView, repo: Seq<char>, branch: Seq<char>)
    requires
        events::canonical_kind(event.kind) == "git.commit"@,
        json::items(event.payload, "commits"@) matches Some(commits) && commits.len() > 1,
        labels::repo_label(event.payload) == Ok::<Seq<char>, Seq<char>>(repo),
        json::field(event.payload, "branch"@) == Some(branch),
    ensures
        ({
            let p = event.payload;
            let s = named_summaries(json::items(p, "commits"@)->Some_0);
            let count: u64 = match json::count(p, "commit_count"@) {
                Some(n) => n,
                None => s.len() as u64,
            };
            let head = "git:"@ + repo + "@"@ + branch + " pushed "@ + compose::decimal(count as nat)
                + " commits:"@;
            let alert = "🚨 git:"@ + repo + "@"@ + branch + " pushed "@ + compose::decimal(
                count as nat,
            ) + " commits:"@;
            let left_out: nat = if count > 5 {
                (count - 5) as nat
            } else {
                0
            };
            let lines = if s.len() > 5 {
                seq![
                    "- "@ + s[0],
                    "- "@ + s[1],
                    "- "@ + s[2],
                    "... and "@ + compose::decimal(left_out) + " more"@,
                    "- "@ + s[s.len() - 2],
                    "- "@ + s[s.len() - 1],
                ]
            } else {
                s.map_values(|line: Seq<char>| "- "@ + line)
            };
            &&& render::rendered(event, MessageFormat::Compact) == Ok::<Seq<char>, Seq<char>>(
                compose::joined(seq![head] + lines, "\n"@),
            )
            &&& render::rendered(event, MessageFormat::Inline) == Ok::<Seq<char>, Seq<char>>(
                compose::joined(seq![head] + lines, "\n"@),
            )
            &&& render::rendered(event, MessageFormat::Alert) == Ok::<Seq<char>, Seq<char>>(
                compose::joined(seq![alert] + lines, "\n"@),
            )
            &&& render::rendered(event, MessageFormat::Raw) == Ok::<Seq<char>, Seq<char>>(
                codec::json_pretty(p),
            )
        }),
{
    let kind = events::canonical_kind(event.kind);
    let p = event.payload;
    reveal_strlit("git.commit");
    reveal_strlit("tmux.keyword");
    assert("git.commit"@[0] == 'g');
    lemma_no_family(kind);
    let commits = json::items(p, "commits"@)->Some_0;
    lemma_summaries(commits);
    let s = named_summaries(commits);
    let count: u64 = render::or_count(json::count(p, "commit_count"@), s.len() as u64);
    let left_out: nat = if count > 5 {
        (count - 5) as nat
    } else {
        0
    };
    let shown = render::summary_lines(s, count);
    if s.len() > 5 {
        assert(shown =~= seq![
            "- "@ + s[0],
            "- "@ + s[1],
            "- "@ + s[2],
            "... and "@ + compose::decimal(left_out) + " more"@,
            "- "@ + s[s.len() - 2],
            "- "@ + s[s.len() - 1],
        ]);
    } else {
        assert(shown =~= s.map_values(|line: Seq<char>| "- "@ + line));
    }
    assert forall|head: Seq<char>| #[trigger]
        Seq::<Seq<char>>::empty().push(head) == seq![head] by {
        assert(Seq::<Seq<char>>::empty().push(head) =~= seq![head]);
    }
}

/// The hits that name a keyword and a line, in their order.
pub open spec fn named_hits(hits: Seq<Node>) -> Seq<Seq<char>> {
    hits.filter(
        |hit: Node|
            json::field(hit, "keyword"@) is Some && json::field(hit, "line"@) is Some,
    ).map_values(
        |hit: Node|
            "'"@ + json::field(hit, "keyword"@)->Some_0 + "': "@ + json::field(
                hit,
                "line"@,
            )->Some_0,
    )
}

proof fn lemma_hits(hits: Seq<Node>)
    ensures
        render::hits_in(hits) == named_hits(hits),
    decreases hits.len(),
{
    reveal(Seq::filter);
    if hits.len() > 0 {
        lemma_hits(hits.drop_last());
        assert(render::hits_in(hits) =~= named_hits(hits));
    } else {
        assert(render::hits_in(hits) =~= named_hits(hits));
    }
}

/// Several keyword hits: how many there were in which session, and a line for each.
pub proof fn law_text_of_keyword_hits(event: EventView, session: Seq<char>)
    requires
        events::canonical_kind(event.kind) == "tmux.keyword"@,
        json::items(event.payload, "hits"@) matches Some(hits) && hits.len() > 1,
        json::field(event.payload, "session"@) == Some(session),
    ensures
        ({
            let p = event.payload;
            let hits = json::items(p, "hits"@)->Some_0;
            let count: u64 = match json::count(p, "hit_count"@) {
                Some(n) => n,
                None => hits.len() as u64,
            };
            let lines = named_hits(hits).map_values(|line: Seq<char>| "- "@ + line);
            &&& render::rendered(event, MessageFormat::Compact) == Ok::<Seq<char>, Seq<char>>(
                compose::joined(
                    seq![
                        "tmux:"@ + session + " matched "@ + compose::decimal(count as nat)
                            + " keyword hits:"@,
                    ] + lines,
                    "\n"@,
                ),
            )
            &&& render::rendered(event, MessageFormat::Alert) == Ok::<Seq<char>, Seq<char>>(
                compose::joined(
                    seq![
                        "🚨 tmux session "@ + session + " hit "@ + compose::decimal(count as nat)
                            + " keyword matches:"@,
                    ] + lines,
                    "\n"@,
                ),
            )
            &&& render::rendered(event, MessageFormat::Inline) == Ok::<Seq<char>, Seq<char>>(
                "[tmux:"@ + session + "] "@ + compose::joined(named_hits(hits), " · "@),
            )
            &&& render::rendered(event, MessageFormat::Raw) == Ok::<Seq<char>, Seq<char>>(
                codec::json_pretty(p),
            )
        }),
{
    let kind = events::canonical_kind(event.kind);
    let p = event.payload;
    reveal_strlit("git.commit");
    reveal_strlit("tmux.keyword");
    assert("tmux.keyword"@[0] == 't' && "git.commit"@[0] == 'g');
    lemma_no_family(kind);
    let hits = json::items(p, "hits"@)->Some_0;
    lemma_hits(hits);
    let s = named_hits(hits);
    assert(render::bulleted(s.subrange(0, s.len() as int)) =~= s.map_values(
        |line: Seq<char>| "- "@ + line,
    ));
    assert forall|head: Seq<char>| #[trigger]
        Seq::<Seq<char>>::empty().push(head) == seq![head] by {
        assert(Seq::<Seq<char>>::empty().push(head) =~= seq![head]);
    }
}

// ---------------------------------------------------------------------------
// The rest
// ---------------------------------------------------------------------------

/// The older name of the event of an opened issue stands for the present one.
pub proof fn law_older_issue_name_is_rendered_alike(old: EventView, new: EventView)
    requires
        old.kind == "issue-opened"@,
        new.kind == "github.issue-opened"@,
        old.payload == new.payload,
    ensures
        forall|format: MessageFormat| #[trigger]
            render::rendered(old, format) == render::rendered(new, format),
{
    reveal_strlit("issue-opened");
    reveal_strlit("github.issue-opened");
    assert("issue-opened"@.len() == 12 && "github.issue-opened"@.len() == 19);
}

/// An event of any other kind is shown by its payload, in one line or, raw, in several.
pub proof fn law_text_of_other_kinds(event: EventView)
    requires
        !text::begins_with(events::canonical_kind(event.kind), "session."@),
        !text::begins_with(events::canonical_kind(event.kind), "workspace."@),
        events::canonical_kind(event.kind) != "custom"@,
        events::canonical_kind(event.kind) != "agent.started"@,
        events::canonical_kind(event.kind) != "agent.blocked"@,
        events::canonical_kind(event.kind) != "agent.finished"@,
        events::canonical_kind(event.kind) != "agent.failed"@,
        events::canonical_kind(event.kind) != "github.issue-opened"@,
        events::canonical_kind(event.kind) != "github.issue-commented"@,
        events::canonical_kind(event.kind) != "github.issue-closed"@,
        events::canonical_kind(event.kind) != "git.commit"@,
        events::canonical_kind(event.kind) != "git.branch-changed"@,
        events::canonical_kind(event.kind) != "github.pr-status-changed"@,
        events::canonical_kind(event.kind) != "tmux.keyword"@,
        events::canonical_kind(event.kind) != "tmux.stale"@,
        events::canonical_kind(event.kind) != "github.ci-started"@,
        events::canonical_kind(event.kind) != "github.ci-failed"@,
        events::canonical_kind(event.kind) != "github.ci-passed"@,
        events::canonical_kind(event.kind) != "github.ci-cancelled"@,
    ensures
        render::rendered(event, MessageFormat::Compact) == Ok::<Seq<char>, Seq<char>>(
            codec::json_text(event.payload),
        ),
        render::rendered(event, MessageFormat::Alert) == Ok::<Seq<char>, Seq<char>>(
            codec::json_text(event.payload),
        ),
        render::rendered(event, MessageFormat::Inline) == Ok::<Seq<char>, Seq<char>>(
            codec::json_text(event.payload),
        ),
        render::rendered(event, MessageFormat::Raw) == Ok::<Seq<char>, Seq<char>>(
            codec::json_pretty(event.payload),
        ),
{
}

} // verus!
