//! JSON texts: reading and writing them with `serde_json`.
use vstd::prelude::*;

use crate::json;
use crate::json::{Json, Node, NumberNode};
use crate::numeral;
use crate::table;

verus! {

broadcast use crate::json::group_trees;

/// `serde_json::Value`: a JSON value on its way to or from a text.
#[verifier::external_type_specification]
#[verifier::external_body]
pub struct ExValue(serde_json::Value);

/// `serde_json::Error`: why a text is no JSON.
#[verifier::external_type_specification]
#[verifier::external_body]
pub struct ExJsonError(serde_json::Error);

// ---------------------------------------------------------------------------
// Values of the outside library
// ---------------------------------------------------------------------------

/// One level of a `serde_json::Value`.
pub enum Parts {
    Null,
    Bool(bool),
    Number(serde_json::Number),
    Text(String),
    List(Vec<serde_json::Value>),
    Object(Vec<(String, serde_json::Value)>),
}

/// The tree that a `serde_json::Value` holds.
pub uninterp spec fn tree_in(value: serde_json::Value) -> Node;

/// The trees that a list of `serde_json::Value`s holds.
pub open spec fn trees_in(values: Seq<serde_json::Value>) -> Seq<Node> {
    Seq::new(values.len(), |i: int| tree_in(values[i]))
}

/// The keys and trees of a list of members.
pub open spec fn members_in(entries: Seq<(String, serde_json::Value)>) -> Seq<(Seq<char>, Node)> {
    Seq::new(entries.len(), |i: int| (entries[i].0@, tree_in(entries[i].1)))
}

/// The tree of a value that is given by its uppermost level.
pub open spec fn tree_of_parts(parts: Parts) -> Node {
    match parts {
        Parts::Null => Node::Null,
        Parts::Bool(b) => Node::Bool(b),
        Parts::Number(n) => Node::Number(
            NumberNode { value: numeral::number_value(n), text: numeral::number_text(n) },
        ),
        Parts::Text(s) => Node::Text(s@),
        Parts::List(v) => Node::List(trees_in(v@)),
        Parts::Object(e) => Node::Object(members_in(e@)),
    }
}

/// The variants of `serde_json::Value`, told apart: the uppermost level of a
/// value, the members of an object in the order of their keys.
#[verifier::external_body]
pub(crate) fn unpack(value: serde_json::Value) -> (r: Parts)
    ensures
        tree_of_parts(r) == tree_in(value),
        r matches Parts::Object(e) ==> table::in_order(members_in(e@)),
{
    match value {
        serde_json::Value::Null => Parts::Null,
        serde_json::Value::Bool(b) => Parts::Bool(b),
        serde_json::Value::Number(n) => Parts::Number(n),
        serde_json::Value::String(s) => Parts::Text(s),
        serde_json::Value::Array(items) => Parts::List(items),
        serde_json::Value::Object(map) => Parts::Object(map.into_iter().collect()),
    }
}

/// The variants of `serde_json::Value`, made: the value that has the given
/// uppermost level. An object is a `serde_json::Map`, which keeps the last of
/// the members with one key and holds them in the order of the keys.
#[verifier::external_body]
pub(crate) fn pack(parts: Parts) -> (r: serde_json::Value)
    ensures
        tree_in(r) == (match tree_of_parts(parts) {
            Node::Object(m) => Node::Object(table::collected(m)),
            other => other,
        }),
{
    match parts {
        Parts::Null => serde_json::Value::Null,
        Parts::Bool(b) => serde_json::Value::Bool(b),
        Parts::Number(n) => serde_json::Value::Number(n),
        Parts::Text(s) => serde_json::Value::String(s),
        Parts::List(items) => serde_json::Value::Array(items),
        Parts::Object(entries) => serde_json::Value::Object(entries.into_iter().collect()),
    }
}

/// The `serde_json::Value` that holds a JSON value.
fn to_value(json: &Json) -> (r: serde_json::Value)
    ensures
        tree_in(r) == json::canonical(json@),
    decreases json,
{
    match json {
        Json::Null => pack(Parts::Null),
        Json::Bool(b) => pack(Parts::Bool(*b)),
        Json::Number(n) => pack(Parts::Number(n.clone())),
        Json::Text(s) => pack(Parts::Text(s.clone())),
        Json::List(items) => {
            let mut out: Vec<serde_json::Value> = Vec::new();
            let mut i: usize = 0;
            while i < items.len()
                invariant
                    i <= items.len(),
                    json matches Json::List(v) && v == items,
                    trees_in(out@) == json::canonical_items(json::nodes(items@).take(i as int)),
                decreases items.len() - i,
            {
                assert(decreases_to!(json => items@[i as int]));
                let value = to_value(&items[i]);
                let ghost done = out@;
                out.push(value);
                proof {
                    let all = json::nodes(items@);
                    assert(all.take(i + 1).drop_last() =~= all.take(i as int));
                    assert(trees_in(out@) =~= trees_in(done).push(tree_in(value)));
                }
                i = i + 1;
            }
            assert(json::nodes(items@).take(i as int) =~= json::nodes(items@));
            pack(Parts::List(out))
        },
        Json::Object(entries) => {
            let mut out: Vec<(String, serde_json::Value)> = Vec::new();
            let mut i: usize = 0;
            while i < entries.len()
                invariant
                    i <= entries.len(),
                    json matches Json::Object(v) && v == entries,
                    members_in(out@) == json::canonical_members(
                        json::members(entries@).take(i as int),
                    ),
                decreases entries.len() - i,
            {
                assert(decreases_to!(json => entries@[i as int].1));
                let key = entries[i].0.clone();
                let value = to_value(&entries[i].1);
                let ghost done = out@;
                out.push((key, value));
                proof {
                    let all = json::members(entries@);
                    assert(all.take(i + 1).drop_last() =~= all.take(i as int));
                    assert(members_in(out@) =~= members_in(done).push((key@, tree_in(value))));
                }
                i = i + 1;
            }
            assert(json::members(entries@).take(i as int) =~= json::members(entries@));
            pack(Parts::Object(out))
        },
    }
}

/// The JSON value that a `serde_json::Value` holds.
fn from_value(value: serde_json::Value) -> (r: Json)
    ensures
        r@ == tree_in(value),
    decreases tree_in(value),
{
    let ghost tree = tree_in(value);
    match unpack(value) {
        Parts::Null => Json::Null,
        Parts::Bool(b) => Json::Bool(b),
        Parts::Number(n) => Json::Number(n),
        Parts::Text(s) => Json::Text(s),
        Parts::List(items) => {
            let ghost trees = trees_in(items@);
            let mut rest = items;
            let mut out: Vec<Json> = Vec::new();
            let n = rest.len();
            let mut i: usize = 0;
            while i < n
                invariant
                    i <= n,
                    n == trees.len(),
                    tree == Node::List(trees),
                    tree == tree_in(value),
                    trees_in(rest@) == trees.skip(i as int),
                    json::nodes(out@) == trees.take(i as int),
                decreases n - i,
            {
                assert(trees_in(rest@).len() == n - i);
                let item = rest.remove(0);
                assert(tree_in(item) == trees[i as int]) by {
                    assert(trees.skip(i as int)[0] == trees[i as int]);
                }
                assert(decreases_to!(tree => tree->List_0[i as int]));
                assert(trees_in(rest@) =~= trees.skip(i + 1)) by {
                    assert forall|k: int| 0 <= k < rest@.len() implies tree_in(rest@[k])
                        == trees[i + 1 + k] by {
                        assert(trees.skip(i as int)[k + 1] == trees[i + 1 + k]);
                    }
                }
                let read = from_value(item);
                out.push(read);
                i = i + 1;
            }
            assert(json::nodes(out@) =~= trees);
            Json::List(out)
        },
        Parts::Object(entries) => {
            let ghost all = members_in(entries@);
            let mut rest = entries;
            let mut out: Vec<(String, Json)> = Vec::new();
            let n = rest.len();
            let mut i: usize = 0;
            while i < n
                invariant
                    i <= n,
                    n == all.len(),
                    tree == Node::Object(all),
                    tree == tree_in(value),
                    members_in(rest@) == all.skip(i as int),
                    json::members(out@) == all.take(i as int),
                decreases n - i,
            {
                assert(members_in(rest@).len() == n - i);
                let (key, item) = rest.remove(0);
                assert((key@, tree_in(item)) == all[i as int]) by {
                    assert(all.skip(i as int)[0] == all[i as int]);
                }
                assert(decreases_to!(tree => tree->Object_0[i as int].1));
                assert(members_in(rest@) =~= all.skip(i + 1)) by {
                    assert forall|k: int| 0 <= k < rest@.len() implies (
                    #[trigger] rest@[k].0@,
                    tree_in(rest@[k].1)) == all[i + 1 + k] by {
                        assert(all.skip(i as int)[k + 1] == all[i + 1 + k]);
                    }
                }
                let read = from_value(item);
                out.push((key, read));
                i = i + 1;
            }
            assert(json::members(out@) =~= all);
            Json::Object(out)
        },
    }
}

// ---------------------------------------------------------------------------
// Texts
// ---------------------------------------------------------------------------

/// What `serde_json::to_string` writes for a value.
pub uninterp spec fn compact_text(tree: Node) -> Seq<char>;

/// What `serde_json::to_string_pretty` writes for a value.
pub uninterp spec fn pretty_text(tree: Node) -> Seq<char>;

/// What `serde_json::from_str` reads from a text: a value, or what it says is
/// wrong.
pub uninterp spec fn read_text(text: Seq<char>) -> Result<Node, Seq<char>>;

/// What `serde_json::Error` displays.
pub uninterp spec fn error_text(error: serde_json::Error) -> Seq<char>;

/// `serde_json::to_string`: the text of a value, which depends on the value
/// alone. Writing a value into memory does not fail.
#[verifier::external_body]
pub(crate) fn write_compact(value: &serde_json::Value) -> (r: String)
    ensures
        r@ == compact_text(tree_in(*value)),
{
    serde_json::to_string(value).unwrap_or_default()
}

/// `serde_json::to_string_pretty`: the indented text of a value, which depends
/// on the value alone. Writing a value into memory does not fail.
#[verifier::external_body]
pub(crate) fn write_pretty(value: &serde_json::Value) -> (r: String)
    ensures
        r@ == pretty_text(tree_in(*value)),
{
    serde_json::to_string_pretty(value).unwrap_or_default()
}

/// `serde_json::from_str`: the value that a text stands for, or an error; which
/// of them, and what the error says, depends on the text alone.
#[verifier::external_body]
pub(crate) fn read_value(text: &str) -> (r: Result<serde_json::Value, serde_json::Error>)
    ensures
        match r {
            Ok(value) => read_text(text@) == Ok::<Node, Seq<char>>(tree_in(value)),
            Err(error) => read_text(text@) == Err::<Node, Seq<char>>(error_text(error)),
        },
{
    serde_json::from_str(text)
}

/// `serde_json::Error::to_string`: what an error says.
#[verifier::external_body]
pub(crate) fn error_message(error: &serde_json::Error) -> (r: String)
    ensures
        r@ == error_text(*error),
{
    error.to_string()
}

/// The text of a JSON value.
pub open spec fn json_text(node: Node) -> Seq<char> {
    compact_text(json::canonical(node))
}

/// The indented text of a JSON value.
pub open spec fn json_pretty(node: Node) -> Seq<char> {
    pretty_text(json::canonical(node))
}

/// A result of reading JSON, as a tree.
pub open spec fn json_result(r: Result<Json, String>) -> Result<Node, Seq<char>> {
    match r {
        Ok(json) => Ok(json@),
        Err(e) => Err(e@),
    }
}

/// Writes a JSON value on one line.
pub fn to_text(json: &Json) -> (r: String)
    ensures
        r@ == json_text(json@),
{
    let value = to_value(json);
    write_compact(&value)
}

/// Writes a JSON value on indented lines.
pub fn to_pretty_text(json: &Json) -> (r: String)
    ensures
        r@ == json_pretty(json@),
{
    let value = to_value(json);
    write_pretty(&value)
}

/// Reads a JSON value.
pub fn parse_json(text: &str) -> (r: Result<Json, String>)
    ensures
        json_result(r) == read_text(text@),
{
    match read_value(text) {
        Ok(value) => Ok(from_value(value)),
        Err(error) => Err(error_message(&error)),
    }
}

} // verus!
