//! JSON values, what event payloads are made of, and their mathematical model.
use vstd::prelude::*;

use crate::numeral;
use crate::compose;
use crate::scan;
use crate::table;
use crate::text;

verus! {

/// A JSON value. An object lists its members, in the order of their keys.
#[derive(Debug, PartialEq, Eq)]
pub enum Json {
    Null,
    Bool(bool),
    Number(serde_json::Number),
    Text(String),
    List(Vec<Json>),
    Object(Vec<(String, Json)>),
}

/// What a JSON number is: its value, where that is an integer from 0 to
/// `u64::MAX`, and its notation.
pub struct NumberNode {
    pub value: Option<u64>,
    pub text: Seq<char>,
}

/// What a JSON value is: a tree of texts, numbers, lists and members.
pub enum Node {
    Null,
    Bool(bool),
    Number(NumberNode),
    Text(Seq<char>),
    List(Seq<Node>),
    Object(Seq<(Seq<char>, Node)>),
}

/// The number that `n` is written as in decimal.
pub open spec fn whole(n: u64) -> Node {
    Node::Number(NumberNode { value: Some(n), text: compose::decimal(n as nat) })
}

/// The tree of a JSON value.
pub open spec fn node_of(json: Json) -> Node
    decreases json,
{
    match json {
        Json::Null => Node::Null,
        Json::Bool(b) => Node::Bool(b),
        Json::Number(n) => Node::Number(
            NumberNode { value: numeral::number_value(n), text: numeral::number_text(n) },
        ),
        Json::Text(s) => Node::Text(s@),
        Json::List(items) => Node::List(
            Seq::new(
                items@.len(),
                |i: int|
                    if 0 <= i < items@.len() {
                        node_of(items@[i])
                    } else {
                        Node::Null
                    },
            ),
        ),
        Json::Object(entries) => Node::Object(
            Seq::new(
                entries@.len(),
                |i: int|
                    if 0 <= i < entries@.len() {
                        (entries@[i].0@, node_of(entries@[i].1))
                    } else {
                        (Seq::<char>::empty(), Node::Null)
                    },
            ),
        ),
    }
}

impl View for Json {
    type V = Node;

    open spec fn view(&self) -> Node {
        node_of(*self)
    }
}

/// The trees of a list of JSON values.
pub open spec fn nodes(items: Seq<Json>) -> Seq<Node> {
    Seq::new(items.len(), |i: int| node_of(items[i]))
}

/// The members of an object: keys with trees.
pub open spec fn members(entries: Seq<(String, Json)>) -> Seq<(Seq<char>, Node)> {
    table::pairs(entries)
}

/// The tree of a list is the list of the trees.
pub broadcast proof fn tree_of_list(items: Vec<Json>)
    ensures
        #[trigger] node_of(Json::List(items)) == Node::List(nodes(items@)),
{
    match node_of(Json::List(items)) {
        Node::List(s) => {
            assert(s =~= nodes(items@));
        },
        _ => {},
    }
}

/// The tree of an object is the list of its members.
pub broadcast proof fn tree_of_object(entries: Vec<(String, Json)>)
    ensures
        #[trigger] node_of(Json::Object(entries)) == Node::Object(members(entries@)),
{
    match node_of(Json::Object(entries)) {
        Node::Object(s) => {
            assert(s =~= members(entries@));
        },
        _ => {},
    }
}

/// The value of a key of a JSON object.
pub open spec fn member(node: Node, key: Seq<char>) -> Option<Node> {
    match node {
        Node::Object(m) => table::lookup(m, key),
        _ => None,
    }
}

/// A JSON object with `key` set to `value`; any other value as it is.
pub open spec fn with_member(node: Node, key: Seq<char>, value: Node) -> Node {
    match node {
        Node::Object(m) => Node::Object(table::put(m, key, value)),
        _ => node,
    }
}

/// Adding a value to a list adds its tree.
pub broadcast proof fn nodes_push(items: Seq<Json>, item: Json)
    ensures
        #[trigger] nodes(items.push(item)) == nodes(items).push(node_of(item)),
{
    assert(nodes(items.push(item)) =~= nodes(items).push(node_of(item)));
}

/// The facts about trees that readers of JSON values need.
pub broadcast group group_trees {
    tree_of_list,
    tree_of_object,
    nodes_push,
    crate::table::pairs_push,
}

/// The tree of an optional JSON value.
pub open spec fn opt_node(o: Option<&Json>) -> Option<Node> {
    match o {
        Some(j) => Some(j@),
        None => None,
    }
}

/// An object without members.
pub open spec fn empty() -> Node {
    Node::Object(Seq::empty())
}

impl Node {
    /// This object with a key set; any other value as it is.
    pub open spec fn with(self, key: Seq<char>, value: Node) -> Node {
        with_member(self, key, value)
    }

    /// This object with a key set, where there is a value for it.
    pub open spec fn with_opt(self, key: Seq<char>, value: Option<Node>) -> Node {
        match value {
            Some(v) => self.with(key, v),
            None => self,
        }
    }

    /// This object with a key set to a text.
    pub open spec fn with_text(self, key: Seq<char>, value: Seq<char>) -> Node {
        self.with(key, Node::Text(value))
    }

    /// This object with a key set to a number.
    pub open spec fn with_count(self, key: Seq<char>, value: u64) -> Node {
        self.with(key, whole(value))
    }

    /// This object with a key set to a text, where there is one.
    pub open spec fn with_opt_text(self, key: Seq<char>, value: Option<Seq<char>>) -> Node {
        match value {
            Some(s) => self.with_text(key, s),
            None => self,
        }
    }

    /// This object with a key set to a number, where there is one.
    pub open spec fn with_opt_count(self, key: Seq<char>, value: Option<u64>) -> Node {
        match value {
            Some(n) => self.with_count(key, n),
            None => self,
        }
    }

    /// This object with a key set to a text, or to null where there is none.
    pub open spec fn with_text_or_null(self, key: Seq<char>, value: Option<Seq<char>>) -> Node {
        match value {
            Some(s) => self.with_text(key, s),
            None => self.with(key, Node::Null),
        }
    }

    /// This object with a key set to a number, or to null where there is none.
    pub open spec fn with_count_or_null(self, key: Seq<char>, value: Option<u64>) -> Node {
        match value {
            Some(n) => self.with_count(key, n),
            None => self.with(key, Node::Null),
        }
    }
}

// ---------------------------------------------------------------------------
// Reading a value
// ---------------------------------------------------------------------------

/// What stands below a value at a path of keys.
pub open spec fn follow(node: Node, keys: Seq<Seq<char>>) -> Option<Node>
    decreases keys.len(),
{
    if keys.len() == 0 {
        Some(node)
    } else {
        match member(node, keys[0]) {
            Some(below) => follow(below, keys.drop_first()),
            None => None,
        }
    }
}

/// What stands below a value at a path such as `/context/mention`: a slash
/// before each key.
pub open spec fn at_path(node: Node, path: Seq<char>) -> Option<Node> {
    follow(node, scan::split(path, '/').skip(1))
}

/// The characters of a value that is a text.
pub open spec fn as_text(o: Option<Node>) -> Option<Seq<char>> {
    match o {
        Some(Node::Text(s)) => Some(s),
        _ => None,
    }
}

/// The number that a value is, if it is one from 0 to `u64::MAX`.
pub open spec fn as_count(o: Option<Node>) -> Option<u64> {
    match o {
        Some(Node::Number(n)) => n.value,
        _ => None,
    }
}

/// The truth value that a value is.
pub open spec fn as_flag(o: Option<Node>) -> Option<bool> {
    match o {
        Some(Node::Bool(b)) => Some(b),
        _ => None,
    }
}

/// The items of a value that is a list.
pub open spec fn as_items(o: Option<Node>) -> Option<Seq<Node>> {
    match o {
        Some(Node::List(s)) => Some(s),
        _ => None,
    }
}

/// The text of a key, as it stands.
pub open spec fn raw_field(node: Node, key: Seq<char>) -> Option<Seq<char>> {
    as_text(member(node, key))
}

/// The text of a key, trimmed, unless it is blank.
pub open spec fn field(node: Node, key: Seq<char>) -> Option<Seq<char>> {
    text::meaningful_opt(raw_field(node, key))
}

/// The text at a path, trimmed, unless it is blank.
pub open spec fn field_at(node: Node, path: Seq<char>) -> Option<Seq<char>> {
    text::meaningful_opt(as_text(at_path(node, path)))
}

/// The number of a key.
pub open spec fn count(node: Node, key: Seq<char>) -> Option<u64> {
    as_count(member(node, key))
}

/// The truth value of a key.
pub open spec fn flag(node: Node, key: Seq<char>) -> Option<bool> {
    as_flag(member(node, key))
}

/// The list of a key.
pub open spec fn items(node: Node, key: Seq<char>) -> Option<Seq<Node>> {
    as_items(member(node, key))
}

/// What is said of a key whose text is missing.
pub open spec fn missing_text(key: Seq<char>) -> Seq<char> {
    "missing string field '"@ + key + "'"@
}

/// The text of a key, trimmed; an error where it is missing or blank.
pub open spec fn required(node: Node, key: Seq<char>) -> Result<Seq<char>, Seq<char>> {
    match field(node, key) {
        Some(s) => Ok(s),
        None => Err(missing_text(key)),
    }
}

// ---------------------------------------------------------------------------
// The order of keys
// ---------------------------------------------------------------------------

/// A value whose objects are collected, at every depth.
pub open spec fn canonical(node: Node) -> Node
    decreases node,
{
    match node {
        Node::List(s) => Node::List(canonical_items(s)),
        Node::Object(m) => Node::Object(table::collected(canonical_members(m))),
        _ => node,
    }
}

/// Each item of a list with its objects collected.
pub open spec fn canonical_items(s: Seq<Node>) -> Seq<Node>
    decreases s,
{
    if s.len() == 0 {
        Seq::empty()
    } else {
        canonical_items(s.drop_last()).push(canonical(s.last()))
    }
}

/// Each member of an object with the objects in its value collected.
pub open spec fn canonical_members(m: Seq<(Seq<char>, Node)>) -> Seq<(Seq<char>, Node)>
    decreases m,
{
    if m.len() == 0 {
        Seq::empty()
    } else {
        canonical_members(m.drop_last()).push((m.last().0, canonical(m.last().1)))
    }
}

/// After a key of an object is set, that key has the new value and every other key the
/// value it had.
pub proof fn law_with_then_member(node: Node, key: Seq<char>, value: Node, other: Seq<char>)
    requires
        node is Object,
    ensures
        node.with(key, value) is Object,
        member(node.with(key, value), key) == Some(value),
        other != key ==> member(node.with(key, value), other) == member(node, other),
{
    table::law_put_then_lookup(node->Object_0, key, value, other);
}

} // verus!
