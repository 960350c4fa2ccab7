//! Messages put together from fixed words and fields of a payload.
use vstd::prelude::*;
use vstd::string::*;

use crate::compose;
use crate::compose::{cat3, number};
use crate::json;
use crate::json::{Json, Node};
use crate::labels;
use crate::labels::{
    agent_detail_suffix, agent_inline_suffix, agent_optional_mention_prefix, git_repo_label,
};
use crate::text;

verus! {

/// One piece of a message.
pub enum Piece {
    /// Fixed words.
    Word(&'static str),
    /// The text of a key, as it stands.
    Raw(&'static str),
    /// The text of a key, trimmed.
    Text(&'static str),
    /// The number of a key.
    Number(&'static str),
    /// The name of the repository.
    Repository,
    /// Whom the event mentions.
    Mention,
    /// What is known of an agent, in brackets.
    AgentDetail,
    /// What is known of an agent, with dots.
    AgentInline,
}

/// What is said of a key whose number is missing.
pub open spec fn missing_number(key: Seq<char>) -> Seq<char> {
    "missing integer field '"@ + key + "'"@
}

/// The number of a key, in decimal; an error where it is missing.
pub open spec fn required_number(node: Node, key: Seq<char>) -> Result<Seq<char>, Seq<char>> {
    match json::count(node, key) {
        Some(n) => Ok(compose::decimal(n as nat)),
        None => Err(missing_number(key)),
    }
}

/// The text of a key, as it stands; an error where it is missing.
pub open spec fn required_raw(node: Node, key: Seq<char>) -> Result<Seq<char>, Seq<char>> {
    match json::raw_field(node, key) {
        Some(s) => Ok(s),
        None => Err(json::missing_text(key)),
    }
}

/// What a piece stands for.
pub open spec fn piece_text(node: Node, piece: Piece) -> Result<Seq<char>, Seq<char>> {
    match piece {
        Piece::Word(s) => Ok(s@),
        Piece::Raw(key) => required_raw(node, key@),
        Piece::Text(key) => json::required(node, key@),
        Piece::Number(key) => required_number(node, key@),
        Piece::Repository => labels::repo_label(node),
        Piece::Mention => Ok(labels::mention_prefix(node)),
        Piece::AgentDetail => Ok(labels::agent_detail(node)),
        Piece::AgentInline => Ok(labels::agent_inline(node)),
    }
}

/// The pieces of a message, one after the other; the error of the first piece
/// that has one.
pub open spec fn message(node: Node, pieces: Seq<Piece>) -> Result<Seq<char>, Seq<char>>
    decreases pieces.len(),
{
    if pieces.len() == 0 {
        Ok(Seq::empty())
    } else {
        match message(node, pieces.drop_last()) {
            Err(e) => Err(e),
            Ok(front) => match piece_text(node, pieces.last()) {
                Err(e) => Err(e),
                Ok(piece) => Ok(front + piece),
            },
        }
    }
}

impl Json {
    /// The number of a key, in decimal, or an error that names the key.
    pub fn required_number(&self, key: &str) -> (r: Result<String, String>)
        ensures
            text::text_result(r) == required_number(self@, key@),
    {
        match self.count(key) {
            Some(n) => Ok(number(n)),
            None => Err(cat3("missing integer field '", key, "'")),
        }
    }

    /// The text of a key, as it stands, or an error that names the key.
    pub fn required_raw(&self, key: &str) -> (r: Result<String, String>)
        ensures
            text::text_result(r) == required_raw(self@, key@),
    {
        match self.raw_field(key) {
            Some(s) => Ok(s.to_owned()),
            None => Err(cat3("missing string field '", key, "'")),
        }
    }
}

fn piece_of(payload: &Json, piece: &Piece) -> (r: Result<String, String>)
    ensures
        text::text_result(r) == piece_text(payload@, *piece),
{
    match piece {
        Piece::Word(s) => Ok((*s).to_owned()),
        Piece::Raw(key) => payload.required_raw(key),
        Piece::Text(key) => payload.required(key),
        Piece::Number(key) => payload.required_number(key),
        Piece::Repository => git_repo_label(payload),
        Piece::Mention => Ok(agent_optional_mention_prefix(payload)),
        Piece::AgentDetail => Ok(agent_detail_suffix(payload)),
        Piece::AgentInline => Ok(agent_inline_suffix(payload)),
    }
}

proof fn lemma_error_stays(node: Node, pieces: Seq<Piece>, n: int)
    requires
        0 <= n <= pieces.len(),
        message(node, pieces.take(n)) is Err,
    ensures
        message(node, pieces) == message(node, pieces.take(n)),
    decreases pieces.len(),
{
    if n == pieces.len() {
        assert(pieces.take(n) =~= pieces);
    } else {
        assert(pieces.drop_last().take(n) =~= pieces.take(n));
        lemma_error_stays(node, pieces.drop_last(), n);
    }
}

/// Puts a message together.
pub fn compose_message(payload: &Json, pieces: &Vec<Piece>) -> (r: Result<String, String>)
    ensures
        text::text_result(r) == message(payload@, pieces@),
{
    let mut out: String = String::new();
    let mut i: usize = 0;
    assert(message(payload@, pieces@.take(0)) == Ok::<Seq<char>, Seq<char>>(out@));
    while i < pieces.len()
        invariant
            i <= pieces.len(),
            message(payload@, pieces@.take(i as int)) == Ok::<Seq<char>, Seq<char>>(out@),
        decreases pieces.len() - i,
    {
        assert(pieces@.take(i + 1).drop_last() =~= pieces@.take(i as int));
        match piece_of(payload, &pieces[i]) {
            Ok(piece) => {
                out.append(piece.as_str());
            },
            Err(e) => {
                proof {
                    lemma_error_stays(payload@, pieces@, i + 1);
                }
                return Err(e);
            },
        }
        i = i + 1;
    }
    assert(pieces@.take(i as int) =~= pieces@);
    Ok(out)
}

} // verus!
