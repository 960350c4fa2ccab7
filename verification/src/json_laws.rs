//! What holds of JSON values that are read and built.
use vstd::prelude::*;
use vstd::string::*;

use crate::json;
use crate::json::Node;
use crate::text;

verus! {

/// What stands at a key of an object after a key was set.
pub broadcast proof fn member_after_with(node: Node, key: Seq<char>, value: Node, other: Seq<char>)
    requires
        node is Object,
    ensures
        #[trigger] json::member(node.with(key, value), other) == (if other == key {
            Some(value)
        } else {
            json::member(node, other)
        }),
{
    json::law_with_then_member(node, key, value, other);
}

/// An object stays one when a key of it is set.
pub broadcast proof fn object_after_with(node: Node, key: Seq<char>, value: Node)
    requires
        node is Object,
    ensures
        (#[trigger] node.with(key, value)) is Object,
{
}

/// An object without members has none at any key.
pub broadcast proof fn member_of_empty(key: Seq<char>)
    ensures
        #[trigger] json::member(json::empty(), key) is None,
{
}

pub broadcast group group_members {
    member_after_with,
    object_after_with,
    member_of_empty,
}

/// A field holds the text of its key without the blanks around it; a text of blanks alone,
/// or a value that is no text, counts as missing.
pub proof fn law_field_is_the_trimmed_text(node: Node, key: Seq<char>)
    ensures
        match json::member(node, key) {
            Some(Node::Text(t)) => if text::trimmed(t).len() > 0 {
                json::field(node, key) == Some(text::trimmed(t))
            } else {
                json::field(node, key) is None
            },
            _ => json::field(node, key) is None,
        },
{
}

/// A count is the number of its key, where that is a whole number that is not negative.
pub proof fn law_count_is_the_number(node: Node, key: Seq<char>, n: u64)
    ensures
        json::count(node, key) == Some(n) <==> (json::member(node, key) matches Some(
            Node::Number(number),
        ) && number.value == Some(n)),
{
}

/// A key that is set where there is a text for it.
pub broadcast proof fn member_after_optional_text(
    node: Node,
    key: Seq<char>,
    value: Option<Seq<char>>,
    other: Seq<char>,
)
    requires
        node is Object,
    ensures
        node.with_opt_text(key, value) is Object,
        #[trigger] json::member(node.with_opt_text(key, value), other) == (match value {
            Some(s) => if other == key {
                Some(Node::Text(s))
            } else {
                json::member(node, other)
            },
            None => json::member(node, other),
        }),
{
    broadcast use group_members;

}

/// A key that is set where there is a value for it.
pub broadcast proof fn member_after_optional(
    node: Node,
    key: Seq<char>,
    value: Option<Node>,
    other: Seq<char>,
)
    requires
        node is Object,
    ensures
        node.with_opt(key, value) is Object,
        #[trigger] json::member(node.with_opt(key, value), other) == (if other == key && value is Some {
            value
        } else {
            json::member(node, other)
        }),
{
    broadcast use group_members;

}

/// A key that is set where there is a number for it.
pub broadcast proof fn member_after_optional_count(
    node: Node,
    key: Seq<char>,
    value: Option<u64>,
    other: Seq<char>,
)
    requires
        node is Object,
    ensures
        node.with_opt_count(key, value) is Object,
        #[trigger] json::member(node.with_opt_count(key, value), other) == (match value {
            Some(n) => if other == key {
                Some(json::whole(n))
            } else {
                json::member(node, other)
            },
            None => json::member(node, other),
        }),
{
    broadcast use group_members;

}

pub broadcast group group_optional_members {
    member_after_optional_text,
    member_after_optional,
    member_after_optional_count,
}

} // verus!
