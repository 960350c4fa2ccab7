//! Tokens that are filled in from the surroundings of the program.
use vstd::prelude::*;
use vstd::string::*;

use crate::compose;
use crate::compose::{cat3, join};
use crate::scan;
use crate::scan::{parse_u64, split_at_each, split_once};
use crate::table;
use crate::table::find_entry;
use crate::text;
use crate::text::{same, strip_prefix};

verus! {

// ---------------------------------------------------------------------------
// Pieces
// ---------------------------------------------------------------------------

/// A piece of a text: one that stands as it is, or one that is asked for.
#[derive(Debug, PartialEq, Eq)]
pub enum DynamicPiece {
    Text(String),
    /// The present moment.
    Now,
    /// A variable of the environment.
    Env(String),
    /// What a command prints.
    Shell(String),
    /// The last lines of a terminal session.
    TmuxTail { session: String, lines: u64 },
    /// The last lines of a file.
    FileTail { path: String, lines: u64 },
}

/// A piece of a text.
pub enum PieceView {
    Text(Seq<char>),
    Now,
    Env(Seq<char>),
    Shell(Seq<char>),
    TmuxTail { session: Seq<char>, lines: u64 },
    FileTail { path: Seq<char>, lines: u64 },
}

impl View for DynamicPiece {
    type V = PieceView;

    open spec fn view(&self) -> PieceView {
        match self {
            DynamicPiece::Text(s) => PieceView::Text(s@),
            DynamicPiece::Now => PieceView::Now,
            DynamicPiece::Env(s) => PieceView::Env(s@),
            DynamicPiece::Shell(s) => PieceView::Shell(s@),
            DynamicPiece::TmuxTail { session, lines } => PieceView::TmuxTail {
                session: session@,
                lines: *lines,
            },
            DynamicPiece::FileTail { path, lines } => PieceView::FileTail {
                path: path@,
                lines: *lines,
            },
        }
    }
}

// ---------------------------------------------------------------------------
// Tokens
// ---------------------------------------------------------------------------

/// A name and a number of lines, with a colon before the number.
pub open spec fn named_lines(argument: Seq<char>) -> Option<(Seq<char>, u64)> {
    let parts = scan::split(argument, ':');
    if parts.len() < 2 {
        None
    } else {
        match scan::number_in(parts.last(), u64::MAX as nat) {
            Some(n) => Some((compose::joined(parts.drop_last(), ":"@), n as u64)),
            None => None,
        }
    }
}

/// What a token stands for: what the event says under its name, or something of the
/// surroundings. Any other token stands for nothing.
pub open spec fn token_piece(
    token: Seq<char>,
    tokens: Seq<(Seq<char>, Seq<char>)>,
) -> Option<PieceView> {
    if let Some(value) = table::lookup(tokens, token) {
        Some(PieceView::Text(value))
    } else if token == "now"@ || token == "iso_time"@ {
        Some(PieceView::Now)
    } else if let Some(name) = text::after_prefix(token, "env:"@) {
        Some(PieceView::Env(name))
    } else if let Some(command) = text::after_prefix(token, "sh:"@) {
        Some(PieceView::Shell(command))
    } else if let Some(argument) = text::after_prefix(token, "tmux_tail:"@) {
        match named_lines(argument) {
            Some((session, lines)) => Some(PieceView::TmuxTail { session, lines }),
            None => None,
        }
    } else if let Some(argument) = text::after_prefix(token, "file_tail:"@) {
        match named_lines(argument) {
            Some((path, lines)) => Some(PieceView::FileTail { path, lines }),
            None => None,
        }
    } else {
        None
    }
}

/// The piece of a token in braces; one that stands for nothing stays as it is.
pub open spec fn braced_piece(
    token: Seq<char>,
    tokens: Seq<(Seq<char>, Seq<char>)>,
) -> PieceView {
    match token_piece(token, tokens) {
        Some(piece) => piece,
        None => PieceView::Text("{"@ + token + "}"@),
    }
}

/// A text as a piece, unless it is empty.
pub open spec fn plain_piece(s: Seq<char>) -> Seq<PieceView> {
    if s.len() == 0 {
        Seq::empty()
    } else {
        seq![PieceView::Text(s)]
    }
}

/// The pieces of a text, from left to right. What a token stands for is not searched
/// for tokens again.
pub open spec fn pieces_of(
    s: Seq<char>,
    tokens: Seq<(Seq<char>, Seq<char>)>,
) -> Seq<PieceView>
    decreases s.len(),
{
    match scan::split_first(s, '{') {
        None => plain_piece(s),
        Some((head, tail)) => match scan::split_first(tail, '}') {
            None => plain_piece(s),
            Some((token, rest)) => {
                proof {
                    scan::law_split_first_rejoins(s, '{');
                    scan::law_split_first_rejoins(tail, '}');
                }
                plain_piece(head) + seq![braced_piece(token, tokens)] + pieces_of(rest, tokens)
            },
        },
    }
}

/// A name and a number, in characters.
pub open spec fn named_view(r: Option<(String, u64)>) -> Option<(Seq<char>, u64)> {
    match r {
        Some((name, n)) => Some((name@, n)),
        None => None,
    }
}

fn read_named_lines(argument: &str) -> (r: Option<(String, u64)>)
    ensures
        named_view(r) == named_lines(argument@),
{
    let mut parts = split_at_each(argument, ':');
    let ghost all = text::views(parts@);
    assert(all.len() == parts@.len());
    if parts.len() < 2 {
        return None;
    }
    let last = parts.pop();
    assert(text::views(parts@) =~= all.drop_last());
    match last {
        Some(count) => {
            assert(count@ == all.last());
            match parse_u64(count.as_str()) {
                Some(n) => Some((join(&parts, ":"), n)),
                None => None,
            }
        },
        None => None,
    }
}

fn read_token(token: &str, context: &Vec<(String, String)>) -> (r: Option<DynamicPiece>)
    ensures
        table::opt_owned(r) == token_piece(token@, table::pairs(context@)),
{
    if let Some(value) = find_entry(context, token) {
        return Some(DynamicPiece::Text(value.clone()));
    }
    if same(token, "now") || same(token, "iso_time") {
        return Some(DynamicPiece::Now);
    }
    if let Some(name) = strip_prefix(token, "env:") {
        return Some(DynamicPiece::Env(name.to_owned()));
    }
    if let Some(command) = strip_prefix(token, "sh:") {
        return Some(DynamicPiece::Shell(command.to_owned()));
    }
    if let Some(argument) = strip_prefix(token, "tmux_tail:") {
        return match read_named_lines(argument) {
            Some((session, lines)) => Some(DynamicPiece::TmuxTail { session, lines }),
            None => None,
        };
    }
    if let Some(argument) = strip_prefix(token, "file_tail:") {
        return match read_named_lines(argument) {
            Some((path, lines)) => Some(DynamicPiece::FileTail { path, lines }),
            None => None,
        };
    }
    None
}

fn push_plain(out: &mut Vec<DynamicPiece>, s: &str)
    ensures
        text::all_views(final(out)@) == text::all_views(old(out)@) + plain_piece(s@),
{
    let ghost before = text::all_views(out@);
    if s.is_empty() {
        assert(before + plain_piece(s@) =~= before);
    } else {
        out.push(DynamicPiece::Text(s.to_owned()));
        assert(text::all_views(out@) =~= before + plain_piece(s@));
    }
}

/// The pieces of a text in which dynamic tokens are filled in. `context` holds the
/// tokens of the event.
pub fn dynamic_pieces(s: &str, context: &Vec<(String, String)>) -> (r: Vec<DynamicPiece>)
    ensures
        text::all_views(r@) == pieces_of(s@, table::pairs(context@)),
{
    let ghost tokens = table::pairs(context@);
    let ghost whole = pieces_of(s@, tokens);
    let mut out: Vec<DynamicPiece> = Vec::new();
    let mut rest: &str = s;
    assert(text::all_views(out@) + pieces_of(rest@, tokens) =~= whole);
    loop
        invariant
            tokens == table::pairs(context@),
            whole == text::all_views(out@) + pieces_of(rest@, tokens),
            whole == pieces_of(s@, tokens),
        decreases rest@.len(),
    {
        let ghost before = text::all_views(out@);
        let (head, tail) = match split_once(rest, '{') {
            Some(pair) => pair,
            None => {
                push_plain(&mut out, rest);
                return out;
            },
        };
        let (token, after) = match split_once(tail, '}') {
            Some(pair) => pair,
            None => {
                push_plain(&mut out, rest);
                return out;
            },
        };
        proof {
            scan::law_split_first_rejoins(rest@, '{');
            scan::law_split_first_rejoins(tail@, '}');
        }
        push_plain(&mut out, head);
        let ghost with_head = text::all_views(out@);
        let piece = match read_token(token, context) {
            Some(piece) => piece,
            None => DynamicPiece::Text(cat3("{", token, "}")),
        };
        let ghost view = piece@;
        assert(view == braced_piece(token@, tokens));
        out.push(piece);
        assert(text::all_views(out@) =~= with_head.push(view));
        assert(text::all_views(out@) + pieces_of(after@, tokens) =~= before + (plain_piece(head@)
            + seq![view] + pieces_of(after@, tokens)));
        rest = after;
    }
}

// ---------------------------------------------------------------------------
// Laws
// ---------------------------------------------------------------------------

/// A text without an opening brace stands as it is.
pub proof fn law_text_without_tokens_stands(s: Seq<char>, tokens: Seq<(Seq<char>, Seq<char>)>)
    requires
        !s.contains('{'),
    ensures
        pieces_of(s, tokens) == plain_piece(s),
{
    match scan::split_first(s, '{') {
        Some((head, tail)) => {
            scan::law_split_first_rejoins(s, '{');
            assert(s[head.len() as int] == '{');
        },
        None => {},
    }
}

/// Only the tokens that are listed ask for anything of the surroundings.
pub proof fn law_only_listed_tokens_act(
    token: Seq<char>,
    tokens: Seq<(Seq<char>, Seq<char>)>,
)
    requires
        token != "now"@,
        token != "iso_time"@,
        !text::begins_with(token, "env:"@),
        !text::begins_with(token, "sh:"@),
        !text::begins_with(token, "tmux_tail:"@),
        !text::begins_with(token, "file_tail:"@),
    ensures
        braced_piece(token, tokens) is Text,
{
}

} // verus!
