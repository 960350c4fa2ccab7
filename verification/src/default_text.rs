//! The text of an event without a renderer: each family of events in each
//! format, from the fields of the payload as they stand.
use vstd::prelude::*;
use vstd::string::*;

use crate::codec;
use crate::codec::{to_pretty_text, to_text};
use crate::events;
use crate::events::{EventView, IncomingEvent, MessageFormat};
use crate::pieces;
use crate::pieces::{compose_message, Piece};
use crate::text;
use crate::text::same;

verus! {

/// The pieces of the message for a kind of event, where there is one.
pub open spec fn default_pieces(kind: Seq<char>, format: MessageFormat) -> Option<Seq<Piece>> {
    if kind == "custom"@ {
        Some(
            match format {
                MessageFormat::Alert => seq![Piece::Word("🚨 "), Piece::Raw("message")],
                _ => seq![Piece::Raw("message")],
            },
        )
    } else if kind == "github.issue-opened"@ {
        Some(
            match format {
                MessageFormat::Compact => seq![
                    Piece::Raw("repo"),
                    Piece::Word("#"),
                    Piece::Number("number"),
                    Piece::Word(" opened: "),
                    Piece::Raw("title"),
                ],
                MessageFormat::Alert => seq![
                    Piece::Word("🚨 GitHub issue opened in "),
                    Piece::Raw("repo"),
                    Piece::Word(": #"),
                    Piece::Number("number"),
                    Piece::Word(" "),
                    Piece::Raw("title"),
                ],
                _ => seq![
                    Piece::Word("[GitHub] "),
                    Piece::Raw("repo"),
                    Piece::Word("#"),
                    Piece::Number("number"),
                    Piece::Word(" "),
                    Piece::Raw("title"),
                ],
            },
        )
    } else if kind == "git.commit"@ {
        Some(
            match format {
                MessageFormat::Compact => seq![
                    Piece::Word("git:"),
                    Piece::Raw("repo"),
                    Piece::Word("@"),
                    Piece::Raw("branch"),
                    Piece::Word(" "),
                    Piece::Raw("short_commit"),
                    Piece::Word(" "),
                    Piece::Raw("summary"),
                ],
                MessageFormat::Alert => seq![
                    Piece::Word("🚨 new commit in "),
                    Piece::Raw("repo"),
                    Piece::Word("@"),
                    Piece::Raw("branch"),
                    Piece::Word(": "),
                    Piece::Raw("short_commit"),
                    Piece::Word(" "),
                    Piece::Raw("summary"),
                ],
                _ => seq![
                    Piece::Word("[git] "),
                    Piece::Raw("repo"),
                    Piece::Word(" "),
                    Piece::Raw("summary"),
                ],
            },
        )
    } else if kind == "git.branch-changed"@ {
        Some(
            match format {
                MessageFormat::Compact => seq![
                    Piece::Word("git:"),
                    Piece::Raw("repo"),
                    Piece::Word(" branch changed "),
                    Piece::Raw("old_branch"),
                    Piece::Word(" -> "),
                    Piece::Raw("new_branch"),
                ],
                MessageFormat::Alert => seq![
                    Piece::Word("🚨 git repo "),
                    Piece::Raw("repo"),
                    Piece::Word(" branch changed "),
                    Piece::Raw("old_branch"),
                    Piece::Word(" -> "),
                    Piece::Raw("new_branch"),
                ],
                _ => seq![
                    Piece::Word("[git:"),
                    Piece::Raw("repo"),
                    Piece::Word("] "),
                    Piece::Raw("old_branch"),
                    Piece::Word(" -> "),
                    Piece::Raw("new_branch"),
                ],
            },
        )
    } else if kind == "git.pr-status-changed"@ {
        Some(
            match format {
                MessageFormat::Compact => seq![
                    Piece::Word("PR "),
                    Piece::Raw("repo"),
                    Piece::Word("#"),
                    Piece::Number("number"),
                    Piece::Word(" "),
                    Piece::Raw("old_status"),
                    Piece::Word(" -> "),
                    Piece::Raw("new_status"),
                    Piece::Word(": "),
                    Piece::Raw("title"),
                ],
                MessageFormat::Alert => seq![
                    Piece::Word("🚨 PR status changed in "),
                    Piece::Raw("repo"),
                    Piece::Word(": #"),
                    Piece::Number("number"),
                    Piece::Word(" "),
                    Piece::Raw("old_status"),
                    Piece::Word(" -> "),
                    Piece::Raw("new_status"),
                    Piece::Word(" ("),
                    Piece::Raw("title"),
                    Piece::Word(")"),
                ],
                _ => seq![
                    Piece::Word("[PR "),
                    Piece::Raw("repo"),
                    Piece::Word("#"),
                    Piece::Number("number"),
                    Piece::Word("] "),
                    Piece::Raw("old_status"),
                    Piece::Word(" -> "),
                    Piece::Raw("new_status"),
                ],
            },
        )
    } else if kind == "tmux.keyword"@ {
        Some(
            match format {
                MessageFormat::Compact => seq![
                    Piece::Word("tmux:"),
                    Piece::Raw("session"),
                    Piece::Word(" matched '"),
                    Piece::Raw("keyword"),
                    Piece::Word("' => "),
                    Piece::Raw("line"),
                ],
                MessageFormat::Alert => seq![
                    Piece::Word("🚨 tmux session "),
                    Piece::Raw("session"),
                    Piece::Word(" hit keyword '"),
                    Piece::Raw("keyword"),
                    Piece::Word("': "),
                    Piece::Raw("line"),
                ],
                _ => seq![
                    Piece::Word("[tmux:"),
                    Piece::Raw("session"),
                    Piece::Word("] "),
                    Piece::Raw("line"),
                ],
            },
        )
    } else if kind == "tmux.stale"@ {
        Some(
            match format {
                MessageFormat::Compact => seq![
                    Piece::Word("tmux:"),
                    Piece::Raw("session"),
                    Piece::Word(" pane "),
                    Piece::Raw("pane"),
                    Piece::Word(" stale for "),
                    Piece::Number("minutes"),
                    Piece::Word("m (last: "),
                    Piece::Raw("last_line"),
                    Piece::Word(")"),
                ],
                MessageFormat::Alert => seq![
                    Piece::Word("🚨 tmux session "),
                    Piece::Raw("session"),
                    Piece::Word(" pane "),
                    Piece::Raw("pane"),
                    Piece::Word(" stale for "),
                    Piece::Number("minutes"),
                    Piece::Word("m (last: "),
                    Piece::Raw("last_line"),
                    Piece::Word(")"),
                ],
                _ => seq![
                    Piece::Word("[tmux stale:"),
                    Piece::Raw("session"),
                    Piece::Word(" "),
                    Piece::Raw("pane"),
                    Piece::Word("] "),
                    Piece::Number("minutes"),
                    Piece::Word("m"),
                ],
            },
        )
    } else {
        None
    }
}

/// The text of an event: its indented payload in the raw format, the message
/// for its kind, or its payload where there is none.
pub open spec fn default_text(event: EventView, format: MessageFormat) -> Result<
    Seq<char>,
    Seq<char>,
> {
    if format == MessageFormat::Raw {
        Ok(codec::json_pretty(event.payload))
    } else {
        match default_pieces(events::canonical_kind(event.kind), format) {
            Some(pieces) => pieces::message(event.payload, pieces),
            None => Ok(codec::json_text(event.payload)),
        }
    }
}

/// Optional pieces, as a sequence.
pub open spec fn opt_pieces(o: Option<Vec<Piece>>) -> Option<Seq<Piece>> {
    match o {
        Some(v) => Some(v@),
        None => None,
    }
}

fn pieces_for(kind: &str, format: MessageFormat) -> (r: Option<Vec<Piece>>)
    ensures
        opt_pieces(r) == default_pieces(kind@, format),
{
    if same(kind, "custom") {
        Some(
            match format {
                MessageFormat::Alert => vec![Piece::Word("🚨 "), Piece::Raw("message")],
                _ => vec![Piece::Raw("message")],
            },
        )
    } else if same(kind, "github.issue-opened") {
        Some(
            match format {
                MessageFormat::Compact => vec![
                    Piece::Raw("repo"),
                    Piece::Word("#"),
                    Piece::Number("number"),
                    Piece::Word(" opened: "),
                    Piece::Raw("title"),
                ],
                MessageFormat::Alert => vec![
                    Piece::Word("🚨 GitHub issue opened in "),
                    Piece::Raw("repo"),
                    Piece::Word(": #"),
                    Piece::Number("number"),
                    Piece::Word(" "),
                    Piece::Raw("title"),
                ],
                _ => vec![
                    Piece::Word("[GitHub] "),
                    Piece::Raw("repo"),
                    Piece::Word("#"),
                    Piece::Number("number"),
                    Piece::Word(" "),
                    Piece::Raw("title"),
                ],
            },
        )
    } else if same(kind, "git.commit") {
        Some(
            match format {
                MessageFormat::Compact => vec![
                    Piece::Word("git:"),
                    Piece::Raw("repo"),
                    Piece::Word("@"),
                    Piece::Raw("branch"),
                    Piece::Word(" "),
                    Piece::Raw("short_commit"),
                    Piece::Word(" "),
                    Piece::Raw("summary"),
                ],
                MessageFormat::Alert => vec![
                    Piece::Word("🚨 new commit in "),
                    Piece::Raw("repo"),
                    Piece::Word("@"),
                    Piece::Raw("branch"),
                    Piece::Word(": "),
                    Piece::Raw("short_commit"),
                    Piece::Word(" "),
                    Piece::Raw("summary"),
                ],
                _ => vec![
                    Piece::Word("[git] "),
                    Piece::Raw("repo"),
                    Piece::Word(" "),
                    Piece::Raw("summary"),
                ],
            },
        )
    } else if same(kind, "git.branch-changed") {
        Some(
            match format {
                MessageFormat::Compact => vec![
                    Piece::Word("git:"),
                    Piece::Raw("repo"),
                    Piece::Word(" branch changed "),
                    Piece::Raw("old_branch"),
                    Piece::Word(" -> "),
                    Piece::Raw("new_branch"),
                ],
                MessageFormat::Alert => vec![
                    Piece::Word("🚨 git repo "),
                    Piece::Raw("repo"),
                    Piece::Word(" branch changed "),
                    Piece::Raw("old_branch"),
                    Piece::Word(" -> "),
                    Piece::Raw("new_branch"),
                ],
                _ => vec![
                    Piece::Word("[git:"),
                    Piece::Raw("repo"),
                    Piece::Word("] "),
                    Piece::Raw("old_branch"),
                    Piece::Word(" -> "),
                    Piece::Raw("new_branch"),
                ],
            },
        )
    } else if same(kind, "git.pr-status-changed") {
        Some(
            match format {
                MessageFormat::Compact => vec![
                    Piece::Word("PR "),
                    Piece::Raw("repo"),
                    Piece::Word("#"),
                    Piece::Number("number"),
                    Piece::Word(" "),
                    Piece::Raw("old_status"),
                    Piece::Word(" -> "),
                    Piece::Raw("new_status"),
                    Piece::Word(": "),
                    Piece::Raw("title"),
                ],
                MessageFormat::Alert => vec![
                    Piece::Word("🚨 PR status changed in "),
                    Piece::Raw("repo"),
                    Piece::Word(": #"),
                    Piece::Number("number"),
                    Piece::Word(" "),
                    Piece::Raw("old_status"),
                    Piece::Word(" -> "),
                    Piece::Raw("new_status"),
                    Piece::Word(" ("),
                    Piece::Raw("title"),
                    Piece::Word(")"),
                ],
                _ => vec![
                    Piece::Word("[PR "),
                    Piece::Raw("repo"),
                    Piece::Word("#"),
                    Piece::Number("number"),
                    Piece::Word("] "),
                    Piece::Raw("old_status"),
                    Piece::Word(" -> "),
                    Piece::Raw("new_status"),
                ],
            },
        )
    } else if same(kind, "tmux.keyword") {
        Some(
            match format {
                MessageFormat::Compact => vec![
                    Piece::Word("tmux:"),
                    Piece::Raw("session"),
                    Piece::Word(" matched '"),
                    Piece::Raw("keyword"),
                    Piece::Word("' => "),
                    Piece::Raw("line"),
                ],
                MessageFormat::Alert => vec![
                    Piece::Word("🚨 tmux session "),
                    Piece::Raw("session"),
                    Piece::Word(" hit keyword '"),
                    Piece::Raw("keyword"),
                    Piece::Word("': "),
                    Piece::Raw("line"),
                ],
                _ => vec![
                    Piece::Word("[tmux:"),
                    Piece::Raw("session"),
                    Piece::Word("] "),
                    Piece::Raw("line"),
                ],
            },
        )
    } else if same(kind, "tmux.stale") {
        Some(
            match format {
                MessageFormat::Compact => vec![
                    Piece::Word("tmux:"),
                    Piece::Raw("session"),
                    Piece::Word(" pane "),
                    Piece::Raw("pane"),
                    Piece::Word(" stale for "),
                    Piece::Number("minutes"),
                    Piece::Word("m (last: "),
                    Piece::Raw("last_line"),
                    Piece::Word(")"),
                ],
                MessageFormat::Alert => vec![
                    Piece::Word("🚨 tmux session "),
                    Piece::Raw("session"),
                    Piece::Word(" pane "),
                    Piece::Raw("pane"),
                    Piece::Word(" stale for "),
                    Piece::Number("minutes"),
                    Piece::Word("m (last: "),
                    Piece::Raw("last_line"),
                    Piece::Word(")"),
                ],
                _ => vec![
                    Piece::Word("[tmux stale:"),
                    Piece::Raw("session"),
                    Piece::Word(" "),
                    Piece::Raw("pane"),
                    Piece::Word("] "),
                    Piece::Number("minutes"),
                    Piece::Word("m"),
                ],
            },
        )
    } else {
        None
    }
}

impl IncomingEvent {
    /// The text of this event in a format.
    pub fn render_default(&self, format: &MessageFormat) -> (r: Result<String, String>)
        ensures
            text::text_result(r) == default_text(self@, *format),
    {
        match format {
            MessageFormat::Raw => Ok(to_pretty_text(&self.payload)),
            _ => match pieces_for(self.canonical_kind(), *format) {
                Some(pieces) => compose_message(&self.payload, &pieces),
                None => Ok(to_text(&self.payload)),
            },
        }
    }
}

} // verus!
