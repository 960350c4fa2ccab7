//! What the plain messages of the kinds say.
use vstd::prelude::*;
use vstd::string::*;

use crate::codec;
use crate::compose;
use crate::default_text;
use crate::events;
use crate::events::{EventView, MessageFormat};
use crate::json;
use crate::json::Node;
use crate::pieces;
use crate::pieces::Piece;

verus! {

proof fn lemma_message_step(node: Node, pieces: Seq<Piece>, k: int)
    requires
        0 <= k < pieces.len(),
    ensures
        pieces::message(node, pieces.take(k + 1)) == (match pieces::message(
            node,
            pieces.take(k),
        ) {
            Err(e) => Err(e),
            Ok(front) => match pieces::piece_text(node, pieces[k]) {
                Err(e) => Err(e),
                Ok(piece) => Ok(front + piece),
            },
        }),
{
    assert(pieces.take(k + 1).drop_last() =~= pieces.take(k));
}

proof fn lemma_nothing_before()
    ensures
        forall|x: Seq<char>| #[trigger] (Seq::<char>::empty() + x) == x,
{
    assert forall|x: Seq<char>| #[trigger] (Seq::<char>::empty() + x) == x by {
        assert(Seq::<char>::empty() + x =~= x);
    }
}

/// The message of the user's own, behind a siren as an alert, in the compact format.
pub open spec fn compact_custom_messages(p: Node) -> Result<Seq<char>, Seq<char>> {
    if json::raw_field(p, "message"@) is None {
        Err("missing string field '"@ + "message"@ + "'"@)
    } else {
        Ok(
            json::raw_field(p, "message"@)->0,
        )
    }
}

proof fn lemma_compact_custom_messages(p: Node)
    ensures
        pieces::message(
            p,
            seq![
                Piece::Raw("message"),
            ],
        ) == compact_custom_messages(p),
{
    lemma_nothing_before();
    let s: Seq<Piece> = seq![
            Piece::Raw("message"),
        ];
    assert(s.take(0).len() == 0);
    lemma_message_step(p, s, 0);
    assert(s.take(1) =~= s);
}

/// The message of the user's own, behind a siren as an alert, in the alert format.
pub open spec fn alert_custom_messages(p: Node) -> Result<Seq<char>, Seq<char>> {
    if json::raw_field(p, "message"@) is None {
        Err("missing string field '"@ + "message"@ + "'"@)
    } else {
        Ok(
            "🚨 "@ +
                json::raw_field(p, "message"@)->0,
        )
    }
}

proof fn lemma_alert_custom_messages(p: Node)
    ensures
        pieces::message(
            p,
            seq![
                Piece::Word("🚨 "),
                Piece::Raw("message"),
            ],
        ) == alert_custom_messages(p),
{
    lemma_nothing_before();
    let s: Seq<Piece> = seq![
            Piece::Word("🚨 "),
            Piece::Raw("message"),
        ];
    assert(s.take(0).len() == 0);
    lemma_message_step(p, s, 0);
    lemma_message_step(p, s, 1);
    assert(s.take(2) =~= s);
}

/// The message of the user's own, behind a siren as an alert, in the inline format.
pub open spec fn inline_custom_messages(p: Node) -> Result<Seq<char>, Seq<char>> {
    if json::raw_field(p, "message"@) is None {
        Err("missing string field '"@ + "message"@ + "'"@)
    } else {
        Ok(
            json::raw_field(p, "message"@)->0,
        )
    }
}

proof fn lemma_inline_custom_messages(p: Node)
    ensures
        pieces::message(
            p,
            seq![
                Piece::Raw("message"),
            ],
        ) == inline_custom_messages(p),
{
    lemma_nothing_before();
    let s: Seq<Piece> = seq![
            Piece::Raw("message"),
        ];
    assert(s.take(0).len() == 0);
    lemma_message_step(p, s, 0);
    assert(s.take(1) =~= s);
}

/// The message of the user's own, behind a siren as an alert.
pub proof fn law_plain_text_of_custom_messages(event: EventView)
    requires
        events::canonical_kind(event.kind) == "custom"@,
    ensures
        default_text::default_text(
            event,
            MessageFormat::Compact,
        ) == compact_custom_messages(event.payload),
        default_text::default_text(
            event,
            MessageFormat::Alert,
        ) == alert_custom_messages(event.payload),
        default_text::default_text(
            event,
            MessageFormat::Inline,
        ) == inline_custom_messages(event.payload),
{
    reveal_strlit("custom");
    assert("custom"@.len() == 6);
    lemma_compact_custom_messages(event.payload);
    lemma_alert_custom_messages(event.payload);
    lemma_inline_custom_messages(event.payload);
}

/// An issue that was opened, in the compact format.
pub open spec fn compact_opened_issues(p: Node) -> Result<Seq<char>, Seq<char>> {
    if json::raw_field(p, "repo"@) is None {
        Err("missing string field '"@ + "repo"@ + "'"@)
    } else {
        if json::count(p, "number"@) is None {
            Err("missing integer field '"@ + "number"@ + "'"@)
        } else {
            if json::raw_field(p, "title"@) is None {
                Err("missing string field '"@ + "title"@ + "'"@)
            } else {
                Ok(
                    json::raw_field(p, "repo"@)->0 +
                        "#"@ +
                        compose::decimal(json::count(p, "number"@)->0 as nat) +
                        " opened: "@ +
                        json::raw_field(p, "title"@)->0,
                )
            }
        }
    }
}

proof fn lemma_compact_opened_issues(p: Node)
    ensures
        pieces::message(
            p,
            seq![
                Piece::Raw("repo"),
                Piece::Word("#"),
                Piece::Number("number"),
                Piece::Word(" opened: "),
                Piece::Raw("title"),
            ],
        ) == compact_opened_issues(p),
{
    lemma_nothing_before();
    let s: Seq<Piece> = seq![
            Piece::Raw("repo"),
            Piece::Word("#"),
            Piece::Number("number"),
            Piece::Word(" opened: "),
            Piece::Raw("title"),
        ];
    assert(s.take(0).len() == 0);
    lemma_message_step(p, s, 0);
    lemma_message_step(p, s, 1);
    lemma_message_step(p, s, 2);
    lemma_message_step(p, s, 3);
    lemma_message_step(p, s, 4);
    assert(s.take(5) =~= s);
}

/// An issue that was opened, in the alert format.
pub open spec fn alert_opened_issues(p: Node) -> Result<Seq<char>, Seq<char>> {
    if json::raw_field(p, "repo"@) is None {
        Err("missing string field '"@ + "repo"@ + "'"@)
    } else {
        if json::count(p, "number"@) is None {
            Err("missing integer field '"@ + "number"@ + "'"@)
        } else {
            if json::raw_field(p, "title"@) is None {
                Err("missing string field '"@ + "title"@ + "'"@)
            } else {
                Ok(
                    "🚨 GitHub issue opened in "@ +
                        json::raw_field(p, "repo"@)->0 +
                        ": #"@ +
                        compose::decimal(json::count(p, "number"@)->0 as nat) +
                        " "@ +
                        json::raw_field(p, "title"@)->0,
                )
            }
        }
    }
}

proof fn lemma_alert_opened_issues(p: Node)
    ensures
        pieces::message(
            p,
            seq![
                Piece::Word("🚨 GitHub issue opened in "),
                Piece::Raw("repo"),
                Piece::Word(": #"),
                Piece::Number("number"),
                Piece::Word(" "),
                Piece::Raw("title"),
            ],
        ) == alert_opened_issues(p),
{
    lemma_nothing_before();
    let s: Seq<Piece> = seq![
            Piece::Word("🚨 GitHub issue opened in "),
            Piece::Raw("repo"),
            Piece::Word(": #"),
            Piece::Number("number"),
            Piece::Word(" "),
            Piece::Raw("title"),
        ];
    assert(s.take(0).len() == 0);
    lemma_message_step(p, s, 0);
    lemma_message_step(p, s, 1);
    lemma_message_step(p, s, 2);
    lemma_message_step(p, s, 3);
    lemma_message_step(p, s, 4);
    lemma_message_step(p, s, 5);
    assert(s.take(6) =~= s);
}

/// An issue that was opened, in the inline format.
pub open spec fn inline_opened_issues(p: Node) -> Result<Seq<char>, Seq<char>> {
    if json::raw_field(p, "repo"@) is None {
        Err("missing string field '"@ + "repo"@ + "'"@)
    } else {
        if json::count(p, "number"@) is None {
            Err("missing integer field '"@ + "number"@ + "'"@)
        } else {
            if json::raw_field(p, "title"@) is None {
                Err("missing string field '"@ + "title"@ + "'"@)
            } else {
                Ok(
                    "[GitHub] "@ +
                        json::raw_field(p, "repo"@)->0 +
                        "#"@ +
                        compose::decimal(json::count(p, "number"@)->0 as nat) +
                        " "@ +
                        json::raw_field(p, "title"@)->0,
                )
            }
        }
    }
}

proof fn lemma_inline_opened_issues(p: Node)
    ensures
        pieces::message(
            p,
            seq![
                Piece::Word("[GitHub] "),
                Piece::Raw("repo"),
                Piece::Word("#"),
                Piece::Number("number"),
                Piece::Word(" "),
                Piece::Raw("title"),
            ],
        ) == inline_opened_issues(p),
{
    lemma_nothing_before();
    let s: Seq<Piece> = seq![
            Piece::Word("[GitHub] "),
            Piece::Raw("repo"),
            Piece::Word("#"),
            Piece::Number("number"),
            Piece::Word(" "),
            Piece::Raw("title"),
        ];
    assert(s.take(0).len() == 0);
    lemma_message_step(p, s, 0);
    lemma_message_step(p, s, 1);
    lemma_message_step(p, s, 2);
    lemma_message_step(p, s, 3);
    lemma_message_step(p, s, 4);
    lemma_message_step(p, s, 5);
    assert(s.take(6) =~= s);
}

/// An issue that was opened: repository, number and title.
pub proof fn law_plain_text_of_opened_issues(event: EventView)
    requires
        events::canonical_kind(event.kind) == "github.issue-opened"@,
    ensures
        default_text::default_text(
            event,
            MessageFormat::Compact,
        ) == compact_opened_issues(event.payload),
        default_text::default_text(
            event,
            MessageFormat::Alert,
        ) == alert_opened_issues(event.payload),
        default_text::default_text(
            event,
            MessageFormat::Inline,
        ) == inline_opened_issues(event.payload),
{
    reveal_strlit("github.issue-opened");
    reveal_strlit("custom");
    assert("github.issue-opened"@.len() == 19);
    assert("custom"@.len() == 6);
    lemma_compact_opened_issues(event.payload);
    lemma_alert_opened_issues(event.payload);
    lemma_inline_opened_issues(event.payload);
}

/// A commit, in the compact format.
pub open spec fn compact_commits(p: Node) -> Result<Seq<char>, Seq<char>> {
    if json::raw_field(p, "repo"@) is None {
        Err("missing string field '"@ + "repo"@ + "'"@)
    } else {
        if json::raw_field(p, "branch"@) is None {
            Err("missing string field '"@ + "branch"@ + "'"@)
        } else {
            if json::raw_field(p, "short_commit"@) is None {
                Err("missing string field '"@ + "short_commit"@ + "'"@)
            } else {
                if json::raw_field(p, "summary"@) is None {
                    Err("missing string field '"@ + "summary"@ + "'"@)
                } else {
                    Ok(
                        "git:"@ +
                            json::raw_field(p, "repo"@)->0 +
                            "@"@ +
                            json::raw_field(p, "branch"@)->0 +
                            " "@ +
                            json::raw_field(p, "short_commit"@)->0 +
                            " "@ +
                            json::raw_field(p, "summary"@)->0,
                    )
                }
            }
        }
    }
}

proof fn lemma_compact_commits(p: Node)
    ensures
        pieces::message(
            p,
            seq![
                Piece::Word("git:"),
                Piece::Raw("repo"),
                Piece::Word("@"),
                Piece::Raw("branch"),
                Piece::Word(" "),
                Piece::Raw("short_commit"),
                Piece::Word(" "),
                Piece::Raw("summary"),
            ],
        ) == compact_commits(p),
{
    lemma_nothing_before();
    let s: Seq<Piece> = seq![
            Piece::Word("git:"),
            Piece::Raw("repo"),
            Piece::Word("@"),
            Piece::Raw("branch"),
            Piece::Word(" "),
            Piece::Raw("short_commit"),
            Piece::Word(" "),
            Piece::Raw("summary"),
        ];
    assert(s.take(0).len() == 0);
    lemma_message_step(p, s, 0);
    lemma_message_step(p, s, 1);
    lemma_message_step(p, s, 2);
    lemma_message_step(p, s, 3);
    lemma_message_step(p, s, 4);
    lemma_message_step(p, s, 5);
    lemma_message_step(p, s, 6);
    lemma_message_step(p, s, 7);
    assert(s.take(8) =~= s);
}

/// A commit, in the alert format.
pub open spec fn alert_commits(p: Node) -> Result<Seq<char>, Seq<char>> {
    if json::raw_field(p, "repo"@) is None {
        Err("missing string field '"@ + "repo"@ + "'"@)
    } else {
        if json::raw_field(p, "branch"@) is None {
            Err("missing string field '"@ + "branch"@ + "'"@)
        } else {
            if json::raw_field(p, "short_commit"@) is None {
                Err("missing string field '"@ + "short_commit"@ + "'"@)
            } else {
                if json::raw_field(p, "summary"@) is None {
                    Err("missing string field '"@ + "summary"@ + "'"@)
                } else {
                    Ok(
                        "🚨 new commit in "@ +
                            json::raw_field(p, "repo"@)->0 +
                            "@"@ +
                            json::raw_field(p, "branch"@)->0 +
                            ": "@ +
                            json::raw_field(p, "short_commit"@)->0 +
                            " "@ +
                            json::raw_field(p, "summary"@)->0,
                    )
                }
            }
        }
    }
}

proof fn lemma_alert_commits(p: Node)
    ensures
        pieces::message(
            p,
            seq![
                Piece::Word("🚨 new commit in "),
                Piece::Raw("repo"),
                Piece::Word("@"),
                Piece::Raw("branch"),
                Piece::Word(": "),
                Piece::Raw("short_commit"),
                Piece::Word(" "),
                Piece::Raw("summary"),
            ],
        ) == alert_commits(p),
{
    lemma_nothing_before();
    let s: Seq<Piece> = seq![
            Piece::Word("🚨 new commit in "),
            Piece::Raw("repo"),
            Piece::Word("@"),
            Piece::Raw("branch"),
            Piece::Word(": "),
            Piece::Raw("short_commit"),
            Piece::Word(" "),
            Piece::Raw("summary"),
        ];
    assert(s.take(0).len() == 0);
    lemma_message_step(p, s, 0);
    lemma_message_step(p, s, 1);
    lemma_message_step(p, s, 2);
    lemma_message_step(p, s, 3);
    lemma_message_step(p, s, 4);
    lemma_message_step(p, s, 5);
    lemma_message_step(p, s, 6);
    lemma_message_step(p, s, 7);
    assert(s.take(8) =~= s);
}

/// A commit, in the inline format.
pub open spec fn inline_commits(p: Node) -> Result<Seq<char>, Seq<char>> {
    if json::raw_field(p, "repo"@) is None {
        Err("missing string field '"@ + "repo"@ + "'"@)
    } else {
        if json::raw_field(p, "summary"@) is None {
            Err("missing string field '"@ + "summary"@ + "'"@)
        } else {
            Ok(
                "[git] "@ +
                    json::raw_field(p, "repo"@)->0 +
                    " "@ +
                    json::raw_field(p, "summary"@)->0,
            )
        }
    }
}

proof fn lemma_inline_commits(p: Node)
    ensures
        pieces::message(
            p,
            seq![
                Piece::Word("[git] "),
                Piece::Raw("repo"),
                Piece::Word(" "),
                Piece::Raw("summary"),
            ],
        ) == inline_commits(p),
{
    lemma_nothing_before();
    let s: Seq<Piece> = seq![
            Piece::Word("[git] "),
            Piece::Raw("repo"),
            Piece::Word(" "),
            Piece::Raw("summary"),
        ];
    assert(s.take(0).len() == 0);
    lemma_message_step(p, s, 0);
    lemma_message_step(p, s, 1);
    lemma_message_step(p, s, 2);
    lemma_message_step(p, s, 3);
    assert(s.take(4) =~= s);
}

/// A commit: repository, branch, the short commit and its summary.
pub proof fn law_plain_text_of_commits(event: EventView)
    requires
        events::canonical_kind(event.kind) == "git.commit"@,
    ensures
        default_text::default_text(event, MessageFormat::Compact) == compact_commits(event.payload),
        default_text::default_text(event, MessageFormat::Alert) == alert_commits(event.payload),
        default_text::default_text(event, MessageFormat::Inline) == inline_commits(event.payload),
{
    reveal_strlit("git.commit");
    reveal_strlit("custom");
    reveal_strlit("github.issue-opened");
    assert("git.commit"@.len() == 10);
    assert("custom"@.len() == 6);
    assert("github.issue-opened"@.len() == 19);
    lemma_compact_commits(event.payload);
    lemma_alert_commits(event.payload);
    lemma_inline_commits(event.payload);
}

/// A change of branches, in the compact format.
pub open spec fn compact_branch_changes(p: Node) -> Result<Seq<char>, Seq<char>> {
    if json::raw_field(p, "repo"@) is None {
        Err("missing string field '"@ + "repo"@ + "'"@)
    } else {
        if json::raw_field(p, "old_branch"@) is None {
            Err("missing string field '"@ + "old_branch"@ + "'"@)
        } else {
            if json::raw_field(p, "new_branch"@) is None {
                Err("missing string field '"@ + "new_branch"@ + "'"@)
            } else {
                Ok(
                    "git:"@ +
                        json::raw_field(p, "repo"@)->0 +
                        " branch changed "@ +
                        json::raw_field(p, "old_branch"@)->0 +
                        " -> "@ +
                        json::raw_field(p, "new_branch"@)->0,
                )
            }
        }
    }
}

proof fn lemma_compact_branch_changes(p: Node)
    ensures
        pieces::message(
            p,
            seq![
                Piece::Word("git:"),
                Piece::Raw("repo"),
                Piece::Word(" branch changed "),
                Piece::Raw("old_branch"),
                Piece::Word(" -> "),
                Piece::Raw("new_branch"),
            ],
        ) == compact_branch_changes(p),
{
    lemma_nothing_before();
    let s: Seq<Piece> = seq![
            Piece::Word("git:"),
            Piece::Raw("repo"),
            Piece::Word(" branch changed "),
            Piece::Raw("old_branch"),
            Piece::Word(" -> "),
            Piece::Raw("new_branch"),
        ];
    assert(s.take(0).len() == 0);
    lemma_message_step(p, s, 0);
    lemma_message_step(p, s, 1);
    lemma_message_step(p, s, 2);
    lemma_message_step(p, s, 3);
    lemma_message_step(p, s, 4);
    lemma_message_step(p, s, 5);
    assert(s.take(6) =~= s);
}

/// A change of branches, in the alert format.
pub open spec fn alert_branch_changes(p: Node) -> Result<Seq<char>, Seq<char>> {
    if json::raw_field(p, "repo"@) is None {
        Err("missing string field '"@ + "repo"@ + "'"@)
    } else {
        if json::raw_field(p, "old_branch"@) is None {
            Err("missing string field '"@ + "old_branch"@ + "'"@)
        } else {
            if json::raw_field(p, "new_branch"@) is None {
                Err("missing string field '"@ + "new_branch"@ + "'"@)
            } else {
                Ok(
                    "🚨 git repo "@ +
                        json::raw_field(p, "repo"@)->0 +
                        " branch changed "@ +
                        json::raw_field(p, "old_branch"@)->0 +
                        " -> "@ +
                        json::raw_field(p, "new_branch"@)->0,
                )
            }
        }
    }
}

proof fn lemma_alert_branch_changes(p: Node)
    ensures
        pieces::message(
            p,
            seq![
                Piece::Word("🚨 git repo "),
                Piece::Raw("repo"),
                Piece::Word(" branch changed "),
                Piece::Raw("old_branch"),
                Piece::Word(" -> "),
                Piece::Raw("new_branch"),
            ],
        ) == alert_branch_changes(p),
{
    lemma_nothing_before();
    let s: Seq<Piece> = seq![
            Piece::Word("🚨 git repo "),
            Piece::Raw("repo"),
            Piece::Word(" branch changed "),
            Piece::Raw("old_branch"),
            Piece::Word(" -> "),
            Piece::Raw("new_branch"),
        ];
    assert(s.take(0).len() == 0);
    lemma_message_step(p, s, 0);
    lemma_message_step(p, s, 1);
    lemma_message_step(p, s, 2);
    lemma_message_step(p, s, 3);
    lemma_message_step(p, s, 4);
    lemma_message_step(p, s, 5);
    assert(s.take(6) =~= s);
}

/// A change of branches, in the inline format.
pub open spec fn inline_branch_changes(p: Node) -> Result<Seq<char>, Seq<char>> {
    if json::raw_field(p, "repo"@) is None {
        Err("missing string field '"@ + "repo"@ + "'"@)
    } else {
        if json::raw_field(p, "old_branch"@) is None {
            Err("missing string field '"@ + "old_branch"@ + "'"@)
        } else {
            if json::raw_field(p, "new_branch"@) is None {
                Err("missing string field '"@ + "new_branch"@ + "'"@)
            } else {
                Ok(
                    "[git:"@ +
                        json::raw_field(p, "repo"@)->0 +
                        "] "@ +
                        json::raw_field(p, "old_branch"@)->0 +
                        " -> "@ +
                        json::raw_field(p, "new_branch"@)->0,
                )
            }
        }
    }
}

proof fn lemma_inline_branch_changes(p: Node)
    ensures
        pieces::message(
            p,
            seq![
                Piece::Word("[git:"),
                Piece::Raw("repo"),
                Piece::Word("] "),
                Piece::Raw("old_branch"),
                Piece::Word(" -> "),
                Piece::Raw("new_branch"),
            ],
        ) == inline_branch_changes(p),
{
    lemma_nothing_before();
    let s: Seq<Piece> = seq![
            Piece::Word("[git:"),
            Piece::Raw("repo"),
            Piece::Word("] "),
            Piece::Raw("old_branch"),
            Piece::Word(" -> "),
            Piece::Raw("new_branch"),
        ];
    assert(s.take(0).len() == 0);
    lemma_message_step(p, s, 0);
    lemma_message_step(p, s, 1);
    lemma_message_step(p, s, 2);
    lemma_message_step(p, s, 3);
    lemma_message_step(p, s, 4);
    lemma_message_step(p, s, 5);
    assert(s.take(6) =~= s);
}

/// A change of branches: the old branch, then the new one.
pub proof fn law_plain_text_of_branch_changes(event: EventView)
    requires
        events::canonical_kind(event.kind) == "git.branch-changed"@,
    ensures
        default_text::default_text(
            event,
            MessageFormat::Compact,
        ) == compact_branch_changes(event.payload),
        default_text::default_text(
            event,
            MessageFormat::Alert,
        ) == alert_branch_changes(event.payload),
        default_text::default_text(
            event,
            MessageFormat::Inline,
        ) == inline_branch_changes(event.payload),
{
    reveal_strlit("git.branch-changed");
    reveal_strlit("custom");
    reveal_strlit("github.issue-opened");
    reveal_strlit("git.commit");
    assert("git.branch-changed"@.len() == 18);
    assert("custom"@.len() == 6);
    assert("github.issue-opened"@.len() == 19);
    assert("git.commit"@.len() == 10);
    lemma_compact_branch_changes(event.payload);
    lemma_alert_branch_changes(event.payload);
    lemma_inline_branch_changes(event.payload);
}

/// A change of a pull request, in the compact format.
pub open spec fn compact_pull_request_changes(p: Node) -> Result<Seq<char>, Seq<char>> {
    if json::raw_field(p, "repo"@) is None {
        Err("missing string field '"@ + "repo"@ + "'"@)
    } else {
        if json::count(p, "number"@) is None {
            Err("missing integer field '"@ + "number"@ + "'"@)
        } else {
            if json::raw_field(p, "old_status"@) is None {
                Err("missing string field '"@ + "old_status"@ + "'"@)
            } else {
                if json::raw_field(p, "new_status"@) is None {
                    Err("missing string field '"@ + "new_status"@ + "'"@)
                } else {
                    if json::raw_field(p, "title"@) is None {
                        Err("missing string field '"@ + "title"@ + "'"@)
                    } else {
                        Ok(
                            "PR "@ +
                                json::raw_field(p, "repo"@)->0 +
                                "#"@ +
                                compose::decimal(json::count(p, "number"@)->0 as nat) +
                                " "@ +
                                json::raw_field(p, "old_status"@)->0 +
                                " -> "@ +
                                json::raw_field(p, "new_status"@)->0 +
                                ": "@ +
                                json::raw_field(p, "title"@)->0,
                        )
                    }
                }
            }
        }
    }
}

proof fn lemma_compact_pull_request_changes(p: Node)
    ensures
        pieces::message(
            p,
            seq![
                Piece::Word("PR "),
                Piece::Raw("repo"),
                Piece::Word("#"),
                Piece::Number("number"),
                Piece::Word(" "),
                Piece::Raw("old_status"),
                Piece::Word(" -> "),
                Piece::Raw("new_status"),
                Piece::Word(": "),
                Piece::Raw("title"),
            ],
        ) == compact_pull_request_changes(p),
{
    lemma_nothing_before();
    let s: Seq<Piece> = seq![
            Piece::Word("PR "),
            Piece::Raw("repo"),
            Piece::Word("#"),
            Piece::Number("number"),
            Piece::Word(" "),
            Piece::Raw("old_status"),
            Piece::Word(" -> "),
            Piece::Raw("new_status"),
            Piece::Word(": "),
            Piece::Raw("title"),
        ];
    assert(s.take(0).len() == 0);
    lemma_message_step(p, s, 0);
    lemma_message_step(p, s, 1);
    lemma_message_step(p, s, 2);
    lemma_message_step(p, s, 3);
    lemma_message_step(p, s, 4);
    lemma_message_step(p, s, 5);
    lemma_message_step(p, s, 6);
    lemma_message_step(p, s, 7);
    lemma_message_step(p, s, 8);
    lemma_message_step(p, s, 9);
    assert(s.take(10) =~= s);
}

/// A change of a pull request, in the alert format.
pub open spec fn alert_pull_request_changes(p: Node) -> Result<Seq<char>, Seq<char>> {
    if json::raw_field(p, "repo"@) is None {
        Err("missing string field '"@ + "repo"@ + "'"@)
    } else {
        if json::count(p, "number"@) is None {
            Err("missing integer field '"@ + "number"@ + "'"@)
        } else {
            if json::raw_field(p, "old_status"@) is None {
                Err("missing string field '"@ + "old_status"@ + "'"@)
            } else {
                if json::raw_field(p, "new_status"@) is None {
                    Err("missing string field '"@ + "new_status"@ + "'"@)
                } else {
                    if json::raw_field(p, "title"@) is None {
                        Err("missing string field '"@ + "title"@ + "'"@)
                    } else {
                        Ok(
                            "🚨 PR status changed in "@ +
                                json::raw_field(p, "repo"@)->0 +
                                ": #"@ +
                                compose::decimal(json::count(p, "number"@)->0 as nat) +
                                " "@ +
                                json::raw_field(p, "old_status"@)->0 +
                                " -> "@ +
                                json::raw_field(p, "new_status"@)->0 +
                                " ("@ +
                                json::raw_field(p, "title"@)->0 +
                                ")"@,
                        )
                    }
                }
            }
        }
    }
}

proof fn lemma_alert_pull_request_changes(p: Node)
    ensures
        pieces::message(
            p,
            seq![
                Piece::Word("🚨 PR status changed in "),
                Piece::Raw("repo"),
                Piece::Word(": #"),
                Piece::Number("number"),
                Piece::Word(" "),
                Piece::Raw("old_status"),
                Piece::Word(" -> "),
                Piece::Raw("new_status"),
                Piece::Word(" ("),
                Piece::Raw("title"),
                Piece::Word(")"),
            ],
        ) == alert_pull_request_changes(p),
{
    lemma_nothing_before();
    let s: Seq<Piece> = seq![
            Piece::Word("🚨 PR status changed in "),
            Piece::Raw("repo"),
            Piece::Word(": #"),
            Piece::Number("number"),
            Piece::Word(" "),
            Piece::Raw("old_status"),
            Piece::Word(" -> "),
            Piece::Raw("new_status"),
            Piece::Word(" ("),
            Piece::Raw("title"),
            Piece::Word(")"),
        ];
    assert(s.take(0).len() == 0);
    lemma_message_step(p, s, 0);
    lemma_message_step(p, s, 1);
    lemma_message_step(p, s, 2);
    lemma_message_step(p, s, 3);
    lemma_message_step(p, s, 4);
    lemma_message_step(p, s, 5);
    lemma_message_step(p, s, 6);
    lemma_message_step(p, s, 7);
    lemma_message_step(p, s, 8);
    lemma_message_step(p, s, 9);
    lemma_message_step(p, s, 10);
    assert(s.take(11) =~= s);
}

/// A change of a pull request, in the inline format.
pub open spec fn inline_pull_request_changes(p: Node) -> Result<Seq<char>, Seq<char>> {
    if json::raw_field(p, "repo"@) is None {
        Err("missing string field '"@ + "repo"@ + "'"@)
    } else {
        if json::count(p, "number"@) is None {
            Err("missing integer field '"@ + "number"@ + "'"@)
        } else {
            if json::raw_field(p, "old_status"@) is None {
                Err("missing string field '"@ + "old_status"@ + "'"@)
            } else {
                if json::raw_field(p, "new_status"@) is None {
                    Err("missing string field '"@ + "new_status"@ + "'"@)
                } else {
                    Ok(
                        "[PR "@ +
                            json::raw_field(p, "repo"@)->0 +
                            "#"@ +
                            compose::decimal(json::count(p, "number"@)->0 as nat) +
                            "] "@ +
                            json::raw_field(p, "old_status"@)->0 +
                            " -> "@ +
                            json::raw_field(p, "new_status"@)->0,
                    )
                }
            }
        }
    }
}

proof fn lemma_inline_pull_request_changes(p: Node)
    ensures
        pieces::message(
            p,
            seq![
                Piece::Word("[PR "),
                Piece::Raw("repo"),
                Piece::Word("#"),
                Piece::Number("number"),
                Piece::Word("] "),
                Piece::Raw("old_status"),
                Piece::Word(" -> "),
                Piece::Raw("new_status"),
            ],
        ) == inline_pull_request_changes(p),
{
    lemma_nothing_before();
    let s: Seq<Piece> = seq![
            Piece::Word("[PR "),
            Piece::Raw("repo"),
            Piece::Word("#"),
            Piece::Number("number"),
            Piece::Word("] "),
            Piece::Raw("old_status"),
            Piece::Word(" -> "),
            Piece::Raw("new_status"),
        ];
    assert(s.take(0).len() == 0);
    lemma_message_step(p, s, 0);
    lemma_message_step(p, s, 1);
    lemma_message_step(p, s, 2);
    lemma_message_step(p, s, 3);
    lemma_message_step(p, s, 4);
    lemma_message_step(p, s, 5);
    lemma_message_step(p, s, 6);
    lemma_message_step(p, s, 7);
    assert(s.take(8) =~= s);
}

/// A change of a pull request: the old status, then the new one, and the title.
pub proof fn law_plain_text_of_pull_request_changes(event: EventView)
    requires
        events::canonical_kind(event.kind) == "git.pr-status-changed"@,
    ensures
        default_text::default_text(
            event,
            MessageFormat::Compact,
        ) == compact_pull_request_changes(event.payload),
        default_text::default_text(
            event,
            MessageFormat::Alert,
        ) == alert_pull_request_changes(event.payload),
        default_text::default_text(
            event,
            MessageFormat::Inline,
        ) == inline_pull_request_changes(event.payload),
{
    reveal_strlit("git.pr-status-changed");
    reveal_strlit("custom");
    reveal_strlit("github.issue-opened");
    reveal_strlit("git.commit");
    reveal_strlit("git.branch-changed");
    assert("git.pr-status-changed"@.len() == 21);
    assert("custom"@.len() == 6);
    assert("github.issue-opened"@.len() == 19);
    assert("git.commit"@.len() == 10);
    assert("git.branch-changed"@.len() == 18);
    lemma_compact_pull_request_changes(event.payload);
    lemma_alert_pull_request_changes(event.payload);
    lemma_inline_pull_request_changes(event.payload);
}

/// A keyword hit, in the compact format.
pub open spec fn compact_keyword_hits(p: Node) -> Result<Seq<char>, Seq<char>> {
    if json::raw_field(p, "session"@) is None {
        Err("missing string field '"@ + "session"@ + "'"@)
    } else {
        if json::raw_field(p, "keyword"@) is None {
            Err("missing string field '"@ + "keyword"@ + "'"@)
        } else {
            if json::raw_field(p, "line"@) is None {
                Err("missing string field '"@ + "line"@ + "'"@)
            } else {
                Ok(
                    "tmux:"@ +
                        json::raw_field(p, "session"@)->0 +
                        " matched '"@ +
                        json::raw_field(p, "keyword"@)->0 +
                        "' => "@ +
                        json::raw_field(p, "line"@)->0,
                )
            }
        }
    }
}

proof fn lemma_compact_keyword_hits(p: Node)
    ensures
        pieces::message(
            p,
            seq![
                Piece::Word("tmux:"),
                Piece::Raw("session"),
                Piece::Word(" matched '"),
                Piece::Raw("keyword"),
                Piece::Word("' => "),
                Piece::Raw("line"),
            ],
        ) == compact_keyword_hits(p),
{
    lemma_nothing_before();
    let s: Seq<Piece> = seq![
            Piece::Word("tmux:"),
            Piece::Raw("session"),
            Piece::Word(" matched '"),
            Piece::Raw("keyword"),
            Piece::Word("' => "),
            Piece::Raw("line"),
        ];
    assert(s.take(0).len() == 0);
    lemma_message_step(p, s, 0);
    lemma_message_step(p, s, 1);
    lemma_message_step(p, s, 2);
    lemma_message_step(p, s, 3);
    lemma_message_step(p, s, 4);
    lemma_message_step(p, s, 5);
    assert(s.take(6) =~= s);
}

/// A keyword hit, in the alert format.
pub open spec fn alert_keyword_hits(p: Node) -> Result<Seq<char>, Seq<char>> {
    if json::raw_field(p, "session"@) is None {
        Err("missing string field '"@ + "session"@ + "'"@)
    } else {
        if json::raw_field(p, "keyword"@) is None {
            Err("missing string field '"@ + "keyword"@ + "'"@)
        } else {
            if json::raw_field(p, "line"@) is None {
                Err("missing string field '"@ + "line"@ + "'"@)
            } else {
                Ok(
                    "🚨 tmux session "@ +
                        json::raw_field(p, "session"@)->0 +
                        " hit keyword '"@ +
                        json::raw_field(p, "keyword"@)->0 +
                        "': "@ +
                        json::raw_field(p, "line"@)->0,
                )
            }
        }
    }
}

proof fn lemma_alert_keyword_hits(p: Node)
    ensures
        pieces::message(
            p,
            seq![
                Piece::Word("🚨 tmux session "),
                Piece::Raw("session"),
                Piece::Word(" hit keyword '"),
                Piece::Raw("keyword"),
                Piece::Word("': "),
                Piece::Raw("line"),
            ],
        ) == alert_keyword_hits(p),
{
    lemma_nothing_before();
    let s: Seq<Piece> = seq![
            Piece::Word("🚨 tmux session "),
            Piece::Raw("session"),
            Piece::Word(" hit keyword '"),
            Piece::Raw("keyword"),
            Piece::Word("': "),
            Piece::Raw("line"),
        ];
    assert(s.take(0).len() == 0);
    lemma_message_step(p, s, 0);
    lemma_message_step(p, s, 1);
    lemma_message_step(p, s, 2);
    lemma_message_step(p, s, 3);
    lemma_message_step(p, s, 4);
    lemma_message_step(p, s, 5);
    assert(s.take(6) =~= s);
}

/// A keyword hit, in the inline format.
pub open spec fn inline_keyword_hits(p: Node) -> Result<Seq<char>, Seq<char>> {
    if json::raw_field(p, "session"@) is None {
        Err("missing string field '"@ + "session"@ + "'"@)
    } else {
        if json::raw_field(p, "line"@) is None {
            Err("missing string field '"@ + "line"@ + "'"@)
        } else {
            Ok(
                "[tmux:"@ +
                    json::raw_field(p, "session"@)->0 +
                    "] "@ +
                    json::raw_field(p, "line"@)->0,
            )
        }
    }
}

proof fn lemma_inline_keyword_hits(p: Node)
    ensures
        pieces::message(
            p,
            seq![
                Piece::Word("[tmux:"),
                Piece::Raw("session"),
                Piece::Word("] "),
                Piece::Raw("line"),
            ],
        ) == inline_keyword_hits(p),
{
    lemma_nothing_before();
    let s: Seq<Piece> = seq![
            Piece::Word("[tmux:"),
            Piece::Raw("session"),
            Piece::Word("] "),
            Piece::Raw("line"),
        ];
    assert(s.take(0).len() == 0);
    lemma_message_step(p, s, 0);
    lemma_message_step(p, s, 1);
    lemma_message_step(p, s, 2);
    lemma_message_step(p, s, 3);
    assert(s.take(4) =~= s);
}

/// A keyword hit: session, keyword and line.
pub proof fn law_plain_text_of_keyword_hits(event: EventView)
    requires
        events::canonical_kind(event.kind) == "tmux.keyword"@,
    ensures
        default_text::default_text(
            event,
            MessageFormat::Compact,
        ) == compact_keyword_hits(event.payload),
        default_text::default_text(
            event,
            MessageFormat::Alert,
        ) == alert_keyword_hits(event.payload),
        default_text::default_text(
            event,
            MessageFormat::Inline,
        ) == inline_keyword_hits(event.payload),
{
    reveal_strlit("tmux.keyword");
    reveal_strlit("custom");
    reveal_strlit("github.issue-opened");
    reveal_strlit("git.commit");
    reveal_strlit("git.branch-changed");
    reveal_strlit("git.pr-status-changed");
    assert("tmux.keyword"@.len() == 12);
    assert("custom"@.len() == 6);
    assert("github.issue-opened"@.len() == 19);
    assert("git.commit"@.len() == 10);
    assert("git.branch-changed"@.len() == 18);
    assert("git.pr-status-changed"@.len() == 21);
    lemma_compact_keyword_hits(event.payload);
    lemma_alert_keyword_hits(event.payload);
    lemma_inline_keyword_hits(event.payload);
}

/// A pane in which nothing happens, in the compact format.
pub open spec fn compact_stale_panes(p: Node) -> Result<Seq<char>, Seq<char>> {
    if json::raw_field(p, "session"@) is None {
        Err("missing string field '"@ + "session"@ + "'"@)
    } else {
        if json::raw_field(p, "pane"@) is None {
            Err("missing string field '"@ + "pane"@ + "'"@)
        } else {
            if json::count(p, "minutes"@) is None {
                Err("missing integer field '"@ + "minutes"@ + "'"@)
            } else {
                if json::raw_field(p, "last_line"@) is None {
                    Err("missing string field '"@ + "last_line"@ + "'"@)
                } else {
                    Ok(
                        "tmux:"@ +
                            json::raw_field(p, "session"@)->0 +
                            " pane "@ +
                            json::raw_field(p, "pane"@)->0 +
                            " stale for "@ +
                            compose::decimal(json::count(p, "minutes"@)->0 as nat) +
                            "m (last: "@ +
                            json::raw_field(p, "last_line"@)->0 +
                            ")"@,
                    )
                }
            }
        }
    }
}

proof fn lemma_compact_stale_panes(p: Node)
    ensures
        pieces::message(
            p,
            seq![
                Piece::Word("tmux:"),
                Piece::Raw("session"),
                Piece::Word(" pane "),
                Piece::Raw("pane"),
                Piece::Word(" stale for "),
                Piece::Number("minutes"),
                Piece::Word("m (last: "),
                Piece::Raw("last_line"),
                Piece::Word(")"),
            ],
        ) == compact_stale_panes(p),
{
    lemma_nothing_before();
    let s: Seq<Piece> = seq![
            Piece::Word("tmux:"),
            Piece::Raw("session"),
            Piece::Word(" pane "),
            Piece::Raw("pane"),
            Piece::Word(" stale for "),
            Piece::Number("minutes"),
            Piece::Word("m (last: "),
            Piece::Raw("last_line"),
            Piece::Word(")"),
        ];
    assert(s.take(0).len() == 0);
    lemma_message_step(p, s, 0);
    lemma_message_step(p, s, 1);
    lemma_message_step(p, s, 2);
    lemma_message_step(p, s, 3);
    lemma_message_step(p, s, 4);
    lemma_message_step(p, s, 5);
    lemma_message_step(p, s, 6);
    lemma_message_step(p, s, 7);
    lemma_message_step(p, s, 8);
    assert(s.take(9) =~= s);
}

/// A pane in which nothing happens, in the alert format.
pub open spec fn alert_stale_panes(p: Node) -> Result<Seq<char>, Seq<char>> {
    if json::raw_field(p, "session"@) is None {
        Err("missing string field '"@ + "session"@ + "'"@)
    } else {
        if json::raw_field(p, "pane"@) is None {
            Err("missing string field '"@ + "pane"@ + "'"@)
        } else {
            if json::count(p, "minutes"@) is None {
                Err("missing integer field '"@ + "minutes"@ + "'"@)
            } else {
                if json::raw_field(p, "last_line"@) is None {
                    Err("missing string field '"@ + "last_line"@ + "'"@)
                } else {
                    Ok(
                        "🚨 tmux session "@ +
                            json::raw_field(p, "session"@)->0 +
                            " pane "@ +
                            json::raw_field(p, "pane"@)->0 +
                            " stale for "@ +
                            compose::decimal(json::count(p, "minutes"@)->0 as nat) +
                            "m (last: "@ +
                            json::raw_field(p, "last_line"@)->0 +
                            ")"@,
                    )
                }
            }
        }
    }
}

proof fn lemma_alert_stale_panes(p: Node)
    ensures
        pieces::message(
            p,
            seq![
                Piece::Word("🚨 tmux session "),
                Piece::Raw("session"),
                Piece::Word(" pane "),
                Piece::Raw("pane"),
                Piece::Word(" stale for "),
                Piece::Number("minutes"),
                Piece::Word("m (last: "),
                Piece::Raw("last_line"),
                Piece::Word(")"),
            ],
        ) == alert_stale_panes(p),
{
    lemma_nothing_before();
    let s: Seq<Piece> = seq![
            Piece::Word("🚨 tmux session "),
            Piece::Raw("session"),
            Piece::Word(" pane "),
            Piece::Raw("pane"),
            Piece::Word(" stale for "),
            Piece::Number("minutes"),
            Piece::Word("m (last: "),
            Piece::Raw("last_line"),
            Piece::Word(")"),
        ];
    assert(s.take(0).len() == 0);
    lemma_message_step(p, s, 0);
    lemma_message_step(p, s, 1);
    lemma_message_step(p, s, 2);
    lemma_message_step(p, s, 3);
    lemma_message_step(p, s, 4);
    lemma_message_step(p, s, 5);
    lemma_message_step(p, s, 6);
    lemma_message_step(p, s, 7);
    lemma_message_step(p, s, 8);
    assert(s.take(9) =~= s);
}

/// A pane in which nothing happens, in the inline format.
pub open spec fn inline_stale_panes(p: Node) -> Result<Seq<char>, Seq<char>> {
    if json::raw_field(p, "session"@) is None {
        Err("missing string field '"@ + "session"@ + "'"@)
    } else {
        if json::raw_field(p, "pane"@) is None {
            Err("missing string field '"@ + "pane"@ + "'"@)
        } else {
            if json::count(p, "minutes"@) is None {
                Err("missing integer field '"@ + "minutes"@ + "'"@)
            } else {
                Ok(
                    "[tmux stale:"@ +
                        json::raw_field(p, "session"@)->0 +
                        " "@ +
                        json::raw_field(p, "pane"@)->0 +
                        "] "@ +
                        compose::decimal(json::count(p, "minutes"@)->0 as nat) +
                        "m"@,
                )
            }
        }
    }
}

proof fn lemma_inline_stale_panes(p: Node)
    ensures
        pieces::message(
            p,
            seq![
                Piece::Word("[tmux stale:"),
                Piece::Raw("session"),
                Piece::Word(" "),
                Piece::Raw("pane"),
                Piece::Word("] "),
                Piece::Number("minutes"),
                Piece::Word("m"),
            ],
        ) == inline_stale_panes(p),
{
    lemma_nothing_before();
    let s: Seq<Piece> = seq![
            Piece::Word("[tmux stale:"),
            Piece::Raw("session"),
            Piece::Word(" "),
            Piece::Raw("pane"),
            Piece::Word("] "),
            Piece::Number("minutes"),
            Piece::Word("m"),
        ];
    assert(s.take(0).len() == 0);
    lemma_message_step(p, s, 0);
    lemma_message_step(p, s, 1);
    lemma_message_step(p, s, 2);
    lemma_message_step(p, s, 3);
    lemma_message_step(p, s, 4);
    lemma_message_step(p, s, 5);
    lemma_message_step(p, s, 6);
    assert(s.take(7) =~= s);
}

/// A pane in which nothing happens: session, pane, for how many minutes, and its last line.
pub proof fn law_plain_text_of_stale_panes(event: EventView)
    requires
        events::canonical_kind(event.kind) == "tmux.stale"@,
    ensures
        default_text::default_text(
            event,
            MessageFormat::Compact,
        ) == compact_stale_panes(event.payload),
        default_text::default_text(event, MessageFormat::Alert) == alert_stale_panes(event.payload),
        default_text::default_text(
            event,
            MessageFormat::Inline,
        ) == inline_stale_panes(event.payload),
{
    reveal_strlit("tmux.stale");
    reveal_strlit("custom");
    reveal_strlit("github.issue-opened");
    reveal_strlit("git.commit");
    reveal_strlit("git.branch-changed");
    reveal_strlit("git.pr-status-changed");
    reveal_strlit("tmux.keyword");
    assert("tmux.stale"@.len() == 10);
    assert("tmux.stale"@[0] == 't');
    assert("custom"@.len() == 6);
    assert("github.issue-opened"@.len() == 19);
    assert("git.commit"@.len() == 10);
    assert("git.commit"@[0] == 'g');
    assert("git.branch-changed"@.len() == 18);
    assert("git.pr-status-changed"@.len() == 21);
    assert("tmux.keyword"@.len() == 12);
    lemma_compact_stale_panes(event.payload);
    lemma_alert_stale_panes(event.payload);
    lemma_inline_stale_panes(event.payload);
}

/// An event of another kind is its payload as it is written, and every event is its payload
/// with indentation in the raw format.
pub proof fn law_plain_text_of_other_kinds(event: EventView, format: MessageFormat)
    ensures
        default_text::default_text(event, MessageFormat::Raw) == Ok::<Seq<char>, Seq<char>>(
            codec::json_pretty(event.payload),
        ),
        ({
            let kind = events::canonical_kind(event.kind);
            format != MessageFormat::Raw && kind
                != "custom"@ && kind
                != "github.issue-opened"@ && kind
                != "git.commit"@ && kind
                != "git.branch-changed"@ && kind
                != "git.pr-status-changed"@ && kind
                != "tmux.keyword"@ && kind
                != "tmux.stale"@ ==> default_text::default_text(event, format) == Ok::<
                Seq<char>,
                Seq<char>,
            >(codec::json_text(event.payload))
        }),
{
}

} // verus!
