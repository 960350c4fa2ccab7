//! Events as the daemon receives and its clients send them.
use vstd::prelude::*;
use vstd::string::*;

use crate::compose::cat3;
use crate::events;
use crate::events::{EventView, IncomingEvent, MessageFormat};
use crate::json;
use crate::json::{Json, Node};
use crate::native_hooks;
use crate::table;
use crate::text;
use crate::text::same;

verus! {

broadcast use crate::json::group_trees;

// ---------------------------------------------------------------------------
// Reading
// ---------------------------------------------------------------------------

/// A key that says something of the event itself.
pub open spec fn is_own_key(key: Seq<char>) -> bool {
    key == "type"@ || key == "kind"@ || key == "event"@ || key == "channel"@ || key == "mention"@
        || key == "format"@ || key == "template"@ || key == "payload"@
}

/// The members that say nothing of the event itself.
pub open spec fn others(m: Seq<(Seq<char>, Node)>) -> Seq<(Seq<char>, Node)>
    decreases m.len(),
{
    if m.len() == 0 {
        m
    } else if is_own_key(m.last().0) {
        others(m.drop_last())
    } else {
        others(m.drop_last()).push(m.last())
    }
}

/// A field that is a text or missing; null counts as missing.
pub open spec fn text_or_none(node: Node, key: Seq<char>) -> Result<Option<Seq<char>>, Seq<char>> {
    match json::member(node, key) {
        None => Ok(None),
        Some(value) => match value {
            Node::Null => Ok(None),
            Node::Text(s) => Ok(Some(s)),
            _ => Err("invalid type for field `"@ + key + "`"@),
        },
    }
}

/// The label that a value names: a text, or an object with null under that key
/// alone.
pub open spec fn label_in(value: Node) -> Option<Seq<char>> {
    match value {
        Node::Text(s) => Some(s),
        Node::Object(m) => if m.len() == 1 && m[0].1 is Null {
            Some(m[0].0)
        } else {
            None
        },
        _ => None,
    }
}

/// The format of an event, where it has one; null counts as missing.
pub open spec fn format_or_none(node: Node) -> Result<Option<MessageFormat>, Seq<char>> {
    match json::member(node, "format"@) {
        None => Ok(None),
        Some(value) => if value is Null {
            Ok(None)
        } else {
            match label_in(value) {
                None => Err("invalid type for field `format`"@),
                Some(label) => match events::format_of(label) {
                    Ok(format) => Ok(Some(format)),
                    Err(e) => Err(e),
                },
            }
        },
    }
}

/// The kind of an event, under the one name of three that it has.
pub open spec fn kind_of(node: Node) -> Result<Seq<char>, Seq<char>> {
    let by_type = json::member(node, "type"@);
    let by_kind = json::member(node, "kind"@);
    let by_event = json::member(node, "event"@);
    let one = text::or_else(by_type, text::or_else(by_kind, by_event));
    if (by_type is Some && by_kind is Some) || (by_type is Some && by_event is Some) || (by_kind
        is Some && by_event is Some) {
        Err("duplicate field `type`"@)
    } else {
        match one {
            None => Err("missing field `type`"@),
            Some(value) => match value {
                Node::Text(s) => Ok(s),
                _ => Err("invalid type for field `type`"@),
            },
        }
    }
}

/// The payload of an event: the one it names, or where it names none the members
/// that say nothing of the event itself.
pub open spec fn payload_of(node: Node) -> Node {
    match json::member(node, "payload"@) {
        Some(value) => if value is Null {
            rest_of(node)
        } else {
            value
        },
        None => rest_of(node),
    }
}

/// The members that say nothing of the event itself.
pub open spec fn rest_of(node: Node) -> Node {
    match node {
        Node::Object(m) => Node::Object(others(m)),
        _ => json::empty(),
    }
}

/// The event that a JSON value describes.
pub open spec fn event_of(node: Node) -> Result<EventView, Seq<char>> {
    if !(node is Object) {
        Err("invalid type: expected an event object"@)
    } else {
        match kind_of(node) {
            Err(e) => Err(e),
            Ok(kind) => match text_or_none(node, "channel"@) {
                Err(e) => Err(e),
                Ok(channel) => match text_or_none(node, "mention"@) {
                    Err(e) => Err(e),
                    Ok(mention) => match format_or_none(node) {
                        Err(e) => Err(e),
                        Ok(format) => match text_or_none(node, "template"@) {
                            Err(e) => Err(e),
                            Ok(template) => Ok(
                                EventView {
                                    kind,
                                    channel,
                                    mention,
                                    format,
                                    template,
                                    payload: payload_of(node),
                                },
                            ),
                        },
                    },
                },
            },
        }
    }
}

/// An optional text or an error, as they are.
pub open spec fn opt_result(r: Result<Option<String>, String>) -> Result<
    Option<Seq<char>>,
    Seq<char>,
> {
    match r {
        Ok(o) => Ok(text::opt_text(o)),
        Err(e) => Err(e@),
    }
}

/// An optional format or an error, as they are.
pub open spec fn opt_format(r: Result<Option<MessageFormat>, String>) -> Result<
    Option<MessageFormat>,
    Seq<char>,
> {
    match r {
        Ok(o) => Ok(o),
        Err(e) => Err(e@),
    }
}

fn read_text(value: &Json, key: &str) -> (r: Result<Option<String>, String>)
    ensures
        opt_result(r) == text_or_none(value@, key@),
{
    match value.get(key) {
        None => Ok(None),
        Some(Json::Null) => Ok(None),
        Some(Json::Text(s)) => Ok(Some(s.clone())),
        Some(_) => Err(cat3("invalid type for field `", key, "`")),
    }
}

fn read_label(value: &Json) -> (r: Option<&str>)
    ensures
        text::opt_str(r) == label_in(value@),
{
    match value {
        Json::Text(s) => Some(s.as_str()),
        Json::Object(entries) => {
            let ghost m = json::members(entries@);
            assert(m.len() == entries@.len());
            if entries.len() == 1 {
                assert(m[0] == (entries@[0].0@, entries@[0].1@));
                if entries[0].1.is_null() {
                    Some(entries[0].0.as_str())
                } else {
                    None
                }
            } else {
                None
            }
        },
        _ => None,
    }
}

fn read_format(value: &Json) -> (r: Result<Option<MessageFormat>, String>)
    ensures
        opt_format(r) == format_or_none(value@),
{
    match value.get("format") {
        None => Ok(None),
        Some(Json::Null) => Ok(None),
        Some(named) => match read_label(named) {
            None => Err("invalid type for field `format`".to_owned()),
            Some(label) => match MessageFormat::from_label(label) {
                Ok(format) => Ok(Some(format)),
                Err(e) => Err(e),
            },
        },
    }
}

fn read_kind(value: &Json) -> (r: Result<String, String>)
    ensures
        text::text_result(r) == kind_of(value@),
{
    let by_type = value.get("type");
    let by_kind = value.get("kind");
    let by_event = value.get("event");
    if (by_type.is_some() && by_kind.is_some()) || (by_type.is_some() && by_event.is_some()) || (
    by_kind.is_some() && by_event.is_some()) {
        return Err("duplicate field `type`".to_owned());
    }
    let one = match by_type {
        Some(v) => Some(v),
        None => match by_kind {
            Some(v) => Some(v),
            None => by_event,
        },
    };
    match one {
        None => Err("missing field `type`".to_owned()),
        Some(Json::Text(s)) => Ok(s.clone()),
        Some(_) => Err("invalid type for field `type`".to_owned()),
    }
}

fn own_key(key: &str) -> (r: bool)
    ensures
        r == is_own_key(key@),
{
    same(key, "type") || same(key, "kind") || same(key, "event") || same(key, "channel") || same(
        key,
        "mention",
    ) || same(key, "format") || same(key, "template") || same(key, "payload")
}

fn read_rest(value: &Json) -> (r: Json)
    ensures
        r@ == rest_of(value@),
{
    match value {
        Json::Object(entries) => {
            let ghost m = json::members(entries@);
            let mut out: Vec<(String, Json)> = Vec::new();
            assert(json::members(out@) =~= Seq::<(Seq<char>, Node)>::empty());
            let mut i: usize = 0;
            while i < entries.len()
                invariant
                    i <= entries.len(),
                    m == json::members(entries@),
                    json::members(out@) == others(m.take(i as int)),
                decreases entries.len() - i,
            {
                assert(m.take(i + 1).drop_last() =~= m.take(i as int));
                assert(m.take(i + 1).last() == m[i as int]);
                if !own_key(entries[i].0.as_str()) {
                    let ghost before = json::members(out@);
                    let entry = (entries[i].0.clone(), entries[i].1.clone());
                    let ghost view = (entry.0@, entry.1@);
                    out.push(entry);
                    assert(json::members(out@) =~= before.push(view));
                }
                i = i + 1;
            }
            assert(m.take(i as int) =~= m);
            Json::Object(out)
        },
        _ => Json::object(),
    }
}

/// Reads the event that a JSON value describes. A value has each member once: of one
/// that its text gave twice only the last is left.
pub fn event_from_json(value: &Json) -> (r: Result<IncomingEvent, String>)
    ensures
        native_hooks::event_result(r) == event_of(value@),
{
    if !value.is_object() {
        return Err("invalid type: expected an event object".to_owned());
    }
    let kind = match read_kind(value) {
        Ok(kind) => kind,
        Err(e) => return Err(e),
    };
    let channel = match read_text(value, "channel") {
        Ok(channel) => channel,
        Err(e) => return Err(e),
    };
    let mention = match read_text(value, "mention") {
        Ok(mention) => mention,
        Err(e) => return Err(e),
    };
    let format = match read_format(value) {
        Ok(format) => format,
        Err(e) => return Err(e),
    };
    let template = match read_text(value, "template") {
        Ok(template) => template,
        Err(e) => return Err(e),
    };
    let payload = match value.get("payload") {
        Some(named) => {
            if named.is_null() {
                read_rest(value)
            } else {
                named.clone()
            }
        },
        None => read_rest(value),
    };
    Ok(IncomingEvent { kind, channel, mention, format, template, payload })
}

// ---------------------------------------------------------------------------
// Writing
// ---------------------------------------------------------------------------

/// A format as it is written.
pub open spec fn format_label(format: Option<MessageFormat>) -> Option<Seq<char>> {
    match format {
        Some(f) => Some(events::label_of(f)),
        None => None,
    }
}

/// The JSON value that describes an event.
pub open spec fn node_of_event(event: EventView) -> Node {
    json::empty().with_text("type"@, event.kind).with_text_or_null(
        "channel"@,
        event.channel,
    ).with_text_or_null("mention"@, event.mention).with_text_or_null(
        "format"@,
        format_label(event.format),
    ).with_text_or_null("template"@, event.template).with("payload"@, event.payload)
}

/// The JSON value that describes an event.
pub fn event_to_json(event: &IncomingEvent) -> (r: Json)
    ensures
        r@ == node_of_event(event@),
{
    let label = match &event.format {
        Some(format) => Some(format.as_str().to_owned()),
        None => None,
    };
    Json::object().with_text("type", event.kind.as_str()).with_text_or_null(
        "channel",
        &event.channel,
    ).with_text_or_null("mention", &event.mention).with_text_or_null(
        "format",
        &label,
    ).with_text_or_null("template", &event.template).with("payload", event.payload.clone())
}

// ---------------------------------------------------------------------------
// Laws
// ---------------------------------------------------------------------------

/// What is read of an event that was written is that event.
pub proof fn law_written_event_is_read_back(event: EventView)
    requires
        !(event.payload is Null),
    ensures
        event_of(node_of_event(event)) == Ok::<EventView, Seq<char>>(event),
{
    lemma_names_differ();
    let label = format_label(event.format);
    let m0 = Seq::<(Seq<char>, Node)>::empty();
    let v1 = Node::Text(event.kind);
    let v2 = opt_text_node(event.channel);
    let v3 = opt_text_node(event.mention);
    let v4 = opt_text_node(label);
    let v5 = opt_text_node(event.template);
    let m1 = table::put(m0, "type"@, v1);
    let m2 = table::put(m1, "channel"@, v2);
    let m3 = table::put(m2, "mention"@, v3);
    let m4 = table::put(m3, "format"@, v4);
    let m5 = table::put(m4, "template"@, v5);
    let m6 = table::put(m5, "payload"@, event.payload);
    assert(node_of_event(event) == Node::Object(m6));
    assert forall|key: Seq<char>| #[trigger]
        table::lookup(m6, key) == (if key == "payload"@ {
            Some(event.payload)
        } else if key == "template"@ {
            Some(v5)
        } else if key == "format"@ {
            Some(v4)
        } else if key == "mention"@ {
            Some(v3)
        } else if key == "channel"@ {
            Some(v2)
        } else if key == "type"@ {
            Some(v1)
        } else {
            None
        }) by {
        table::law_put_then_lookup(m0, "type"@, v1, key);
        table::law_put_then_lookup(m1, "channel"@, v2, key);
        table::law_put_then_lookup(m2, "mention"@, v3, key);
        table::law_put_then_lookup(m3, "format"@, v4, key);
        table::law_put_then_lookup(m4, "template"@, v5, key);
        table::law_put_then_lookup(m5, "payload"@, event.payload, key);
    }
    match event.format {
        Some(format) => events::law_label_round_trip(format),
        None => {},
    }
}

/// A text, or null where there is none.
pub open spec fn opt_text_node(o: Option<Seq<char>>) -> Node {
    match o {
        Some(s) => Node::Text(s),
        None => Node::Null,
    }
}

proof fn lemma_names_differ()
    ensures
        "type"@ != "kind"@,
        "type"@ != "event"@,
        "type"@ != "channel"@,
        "type"@ != "mention"@,
        "type"@ != "format"@,
        "type"@ != "template"@,
        "type"@ != "payload"@,
        "kind"@ != "channel"@,
        "kind"@ != "mention"@,
        "kind"@ != "format"@,
        "kind"@ != "template"@,
        "kind"@ != "payload"@,
        "event"@ != "channel"@,
        "event"@ != "mention"@,
        "event"@ != "format"@,
        "event"@ != "template"@,
        "event"@ != "payload"@,
        "channel"@ != "mention"@,
        "channel"@ != "format"@,
        "channel"@ != "template"@,
        "channel"@ != "payload"@,
        "mention"@ != "format"@,
        "mention"@ != "template"@,
        "mention"@ != "payload"@,
        "format"@ != "template"@,
        "format"@ != "payload"@,
        "template"@ != "payload"@,
{
    reveal_strlit("type");
    reveal_strlit("kind");
    reveal_strlit("event");
    reveal_strlit("channel");
    reveal_strlit("mention");
    reveal_strlit("format");
    reveal_strlit("template");
    reveal_strlit("payload");
    assert("type"@[0] == 't' && "kind"@[0] == 'k');
    assert("type"@.len() == 4 && "event"@.len() == 5 && "format"@.len() == 6);
    assert("template"@.len() == 8 && "event"@[0] == 'e' && "format"@[0] == 'f');
    assert("channel"@[0] == 'c' && "mention"@[0] == 'm' && "payload"@[0] == 'p');
}

/// An event that names no payload has its other members as its payload.
pub proof fn law_members_make_up_the_payload(m: Seq<(Seq<char>, Node)>, event: EventView)
    requires
        json::member(Node::Object(m), "payload"@) is None,
        event_of(Node::Object(m)) == Ok::<EventView, Seq<char>>(event),
    ensures
        event.payload == Node::Object(others(m)),
{
}

} // verus!
