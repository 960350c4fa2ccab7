//! How an event is read.
use vstd::prelude::*;
use vstd::string::*;

use crate::events::{EventView, MessageFormat};
use crate::json;
use crate::json::Node;
use crate::wire;

verus! {

/// The members that say nothing of the event itself, in their order.
pub open spec fn other_members(m: Seq<(Seq<char>, Node)>) -> Seq<(Seq<char>, Node)> {
    m.filter(
        |e: (Seq<char>, Node)|
            e.0 != "type"@
                && e.0 != "kind"@
                && e.0 != "event"@
                && e.0 != "channel"@
                && e.0 != "mention"@
                && e.0 != "format"@
                && e.0 != "template"@
                && e.0 != "payload"@,
    )
}

proof fn lemma_others(m: Seq<(Seq<char>, Node)>)
    ensures
        wire::others(m) == other_members(m),
    decreases m.len(),
{
    reveal(Seq::filter);
    if m.len() > 0 {
        lemma_others(m.drop_last());
    } else {
        assert(wire::others(m) =~= other_members(m));
    }
}

/// A member is a given text, or there is none where it is missing or null.
pub open spec fn holds(value: Option<Node>, text: Option<Seq<char>>) -> bool {
    match value {
        None => text is None,
        Some(Node::Null) => text is None,
        Some(Node::Text(s)) => text == Some(s),
        _ => false,
    }
}

/// A value names a format.
pub open spec fn names_format(value: Option<Node>, format: Option<MessageFormat>) -> bool {
    match value {
        None => format is None,
        Some(Node::Null) => format is None,
        Some(v) => {
            let label = match v {
                Node::Text(s) => Some(s),
                Node::Object(m) => if m.len() == 1 && m[0].1 is Null {
                    Some(m[0].0)
                } else {
                    None
                },
                _ => None,
            };
            match format {
                Some(MessageFormat::Compact) => label == Some("compact"@),
                Some(MessageFormat::Alert) => label == Some("alert"@),
                Some(MessageFormat::Inline) => label == Some("inline"@),
                Some(MessageFormat::Raw) => label == Some("raw"@),
                None => false,
            }
        },
    }
}

/// A value says what an event is: its kind under exactly one of three names, its channel,
/// mention and template where they are there, its format by its label, and its payload, which
/// is made up of the other members where none is named.
pub open spec fn describes(node: Node, e: EventView) -> bool {
    let one = Some(Node::Text(e.kind));
    let by_type = json::member(node, "type"@);
    let by_kind = json::member(node, "kind"@);
    let by_event = json::member(node, "event"@);
    &&& {
        ||| by_type == one && by_kind is None && by_event is None
        ||| by_type is None && by_kind == one && by_event is None
        ||| by_type is None && by_kind is None && by_event == one
    }
    &&& holds(json::member(node, "channel"@), e.channel)
    &&& holds(json::member(node, "mention"@), e.mention)
    &&& holds(json::member(node, "template"@), e.template)
    &&& names_format(json::member(node, "format"@), e.format)
    &&& match (node, json::member(node, "payload"@)) {
        (Node::Object(m), None) => e.payload == Node::Object(other_members(m)),
        (Node::Object(m), Some(Node::Null)) => e.payload == Node::Object(other_members(m)),
        (Node::Object(_), Some(p)) => e.payload == p,
        _ => false,
    }
}

/// What is read is what the value describes, and a value that describes an event is read.
pub proof fn law_event_is_what_is_described(node: Node, e: EventView)
    ensures
        wire::event_of(node) == Ok::<EventView, Seq<char>>(e) <==> describes(node, e),
{
    match node {
        Node::Object(m) => lemma_others(m),
        _ => {},
    }
    reveal_strlit("compact");
    reveal_strlit("alert");
    reveal_strlit("inline");
    reveal_strlit("raw");
    assert("compact"@.len() == 7);
    assert("alert"@.len() == 5);
    assert("inline"@.len() == 6);
    assert("raw"@.len() == 3);
}

/// A value that does not name its kind, or names it twice, or not by a text, is refused.
pub proof fn law_event_without_a_kind_is_refused(m: Seq<(Seq<char>, Node)>)
    ensures
        ({
            let node = Node::Object(m);
            let by_type = json::member(node, "type"@);
            let by_kind = json::member(node, "kind"@);
            let by_event = json::member(node, "event"@);
            &&& by_type is None && by_kind is None && by_event is None ==> wire::event_of(node)
                == Err::<EventView, Seq<char>>("missing field `type`"@)
            &&& by_type is Some && by_kind is Some ==> wire::event_of(node) == Err::<
                EventView,
                Seq<char>,
            >("duplicate field `type`"@)
            &&& by_type is Some && by_event is Some ==> wire::event_of(node) == Err::<
                EventView,
                Seq<char>,
            >("duplicate field `type`"@)
            &&& by_kind is Some && by_event is Some ==> wire::event_of(node) == Err::<
                EventView,
                Seq<char>,
            >("duplicate field `type`"@)
        }),
{
}

} // verus!
