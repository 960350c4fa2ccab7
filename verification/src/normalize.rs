//! Normalizing events: one form for what several tools send.
use vstd::prelude::*;
use vstd::string::*;

use crate::compose::cat2;
use crate::events;
use crate::events::{EventView, IncomingEvent};
use crate::identity;
use crate::identity::{current_timestamp_rfc3339, fresh_event_id};
use crate::json;
use crate::json::{Json, Node};
use crate::labels::first_of;
use crate::scan;
use crate::scan::{after_part, parse_u64, replace, until_char};
use crate::table;
use crate::text;
use crate::text::{same, strip_prefix};

verus! {

broadcast use crate::json::group_trees;

// ---------------------------------------------------------------------------
// Filling in what is missing
// ---------------------------------------------------------------------------

/// A key and a value for it, where there is one.
pub type Entry = (Seq<char>, Option<Node>);

/// An object with a key set that it does not have.
pub open spec fn filled(node: Node, entry: Entry) -> Node {
    match (json::member(node, entry.0), entry.1) {
        (None, Some(value)) => node.with(entry.0, value),
        _ => node,
    }
}

/// An object with the keys set that it does not have, one after the other.
pub open spec fn filled_all(node: Node, entries: Seq<Entry>) -> Node
    decreases entries.len(),
{
    if entries.len() == 0 {
        node
    } else {
        filled(filled_all(node, entries.drop_last()), entries.last())
    }
}

/// The value of an optional text.
pub open spec fn text_value(o: Option<Seq<char>>) -> Option<Node> {
    match o {
        Some(s) => Some(Node::Text(s)),
        None => None,
    }
}

/// The value of an optional number.
pub open spec fn count_value(o: Option<u64>) -> Option<Node> {
    match o {
        Some(n) => Some(json::whole(n)),
        None => None,
    }
}

/// What some entries are.
pub open spec fn entry_views(entries: Seq<(&'static str, Option<Json>)>) -> Seq<Entry> {
    Seq::new(entries.len(), |i: int| (entries[i].0@, opt_json(entries[i].1)))
}

/// The tree of an optional value.
pub open spec fn opt_json(o: Option<Json>) -> Option<Node> {
    match o {
        Some(j) => Some(j@),
        None => None,
    }
}

fn json_text(o: Option<String>) -> (r: Option<Json>)
    ensures
        opt_json(r) == text_value(text::opt_text(o)),
{
    match o {
        Some(s) => Some(Json::Text(s)),
        None => None,
    }
}

fn json_count(o: Option<u64>) -> (r: Option<Json>)
    ensures
        opt_json(r) == count_value(o),
{
    match o {
        Some(n) => Some(Json::unsigned(n)),
        None => None,
    }
}

fn fill_all(payload: Json, entries: Vec<(&'static str, Option<Json>)>) -> (r: Json)
    ensures
        r@ == filled_all(payload@, entry_views(entries@)),
{
    let ghost all = entry_views(entries@);
    let ghost start = payload@;
    let mut out = payload;
    let mut i: usize = 0;
    assert(filled_all(start, all.take(0)) == start);
    while i < entries.len()
        invariant
            i <= entries.len(),
            all == entry_views(entries@),
            out@ == filled_all(start, all.take(i as int)),
        decreases entries.len() - i,
    {
        assert(all.take(i + 1).drop_last() =~= all.take(i as int));
        assert(all.take(i + 1).last() == (entries@[i as int].0@, opt_json(entries@[i as int].1)));
        let missing = out.get(entries[i].0).is_none();
        match &entries[i].1 {
            Some(value) => {
                if missing {
                    out.insert(entries[i].0, value.clone());
                }
            },
            None => {},
        }
        i = i + 1;
    }
    assert(all.take(i as int) =~= all);
    out
}

// ---------------------------------------------------------------------------
// The contract of native sessions
// ---------------------------------------------------------------------------

/// The events of the contract.
pub open spec fn is_contract_event(name: Seq<char>) -> bool {
    name == "started"@ || name == "blocked"@ || name == "finished"@ || name == "failed"@ || name
        == "retry-needed"@ || name == "pr-created"@ || name == "test-started"@ || name
        == "test-finished"@ || name == "test-failed"@ || name == "handoff-needed"@
}

fn in_contract(name: &str) -> (r: bool)
    ensures
        r == is_contract_event(name@),
{
    same(name, "started") || same(name, "blocked") || same(name, "finished") || same(name, "failed")
        || same(name, "retry-needed") || same(name, "pr-created") || same(name, "test-started")
        || same(name, "test-finished") || same(name, "test-failed") || same(name, "handoff-needed")
}

/// The event of the contract that a route key stands for.
pub open spec fn route_key_event(key: Seq<char>) -> Option<Seq<char>> {
    let name = if key == "pull-request.created"@ {
        "pr-created"@
    } else {
        scan::replaced(
            match text::after_prefix(key, "session."@) {
                Some(rest) => rest,
                None => key,
            },
            "."@,
            "-"@,
        )
    };
    if is_contract_event(name) {
        Some(name)
    } else {
        None
    }
}

fn event_of_route_key(key: &str) -> (r: Option<String>)
    ensures
        text::opt_text(r) == route_key_event(key@),
{
    let name = if same(key, "pull-request.created") {
        "pr-created".to_owned()
    } else {
        let rest = match strip_prefix(key, "session.") {
            Some(rest) => rest,
            None => key,
        };
        proof {
            reveal_strlit(".");
        }
        replace(rest, ".", "-")
    };
    if in_contract(name.as_str()) {
        Some(name)
    } else {
        None
    }
}

/// What of the contract a payload tells.
pub struct ContractView {
    /// The tool that sends events of this form.
    pub tool: Seq<char>,
    /// The event.
    pub event: Seq<char>,
}

/// What of the contract a payload tells, if anything: OMX names the event in its
/// context, OMC by a route key.
pub open spec fn contract_in(payload: Node) -> Option<ContractView> {
    match json::field_at(payload, "/context/normalized_event"@) {
        Some(name) => if is_contract_event(name) {
            Some(ContractView { tool: "omx"@, event: name })
        } else {
            None
        },
        None => match json::field_at(payload, "/signal/routeKey"@) {
            Some(key) => match route_key_event(key) {
                Some(event) => Some(ContractView { tool: "omc"@, event }),
                None => None,
            },
            None => None,
        },
    }
}

/// The number of the pull request in its address.
pub open spec fn pr_number_in(url: Option<Seq<char>>) -> Option<u64> {
    match url {
        Some(s) => match scan::after_first(s, "/pull/"@, 0) {
            Some(tail) => match scan::number_in(scan::until(tail, '/'), u64::MAX as nat) {
                Some(n) => Some(n as u64),
                None => None,
            },
            None => None,
        },
        None => None,
    }
}

/// The address of a pull request: the one that is given, or else a summary that
/// is one.
pub open spec fn pr_url_of(given: Option<Seq<char>>, summary: Option<Seq<char>>) -> Option<Seq<char>> {
    text::or_else(
        given,
        if pr_number_in(summary) is Some {
            summary
        } else {
            None
        },
    )
}

fn find_pr_number(url: &Option<String>) -> (r: Option<u64>)
    ensures
        r == pr_number_in(text::opt_text(*url)),
{
    match url {
        Some(s) => match after_part(s.as_str(), "/pull/") {
            Some(tail) => parse_u64(until_char(tail, '/')),
            None => None,
        },
        None => None,
    }
}

/// A number at a path.
pub open spec fn count_at(node: Node, path: Seq<char>) -> Option<u64> {
    json::as_count(json::at_path(node, path))
}

fn count_at_path(payload: &Json, path: &str) -> (r: Option<u64>)
    ensures
        r == count_at(payload@, path@),
{
    match payload.pointer(path) {
        Some(value) => value.as_u64(),
        None => None,
    }
}

/// What an event of the contract has at the top of its payload.
pub open spec fn contract_entries(payload: Node, kind: Seq<char>, c: ContractView) -> Seq<Entry> {
    let project = json::field_at(payload, "/context/projectName"@);
    let summary = text::or_else(
        json::field_at(payload, "/context/summary"@),
        json::field_at(payload, "/signal/summary"@),
    );
    let pr_url = pr_url_of(json::field_at(payload, "/context/pr_url"@), summary);
    let status = text::or_else(
        json::field_at(payload, "/context/status"@),
        text::or_else(json::field_at(payload, "/signal/phase"@), Some(c.event)),
    );
    seq![
        ("tool"@, text_value(Some(c.tool))),
        (
            "agent_name"@,
            text_value(
                text::or_else(json::field_at(payload, "/context/agent_name"@), Some(c.tool)),
            ),
        ),
        ("session_name"@, text_value(json::field_at(payload, "/context/session_name"@))),
        (
            "session_id"@,
            text_value(
                text::or_else(
                    json::field_at(payload, "/context/session_id"@),
                    json::field_at(payload, "/context/sessionId"@),
                ),
            ),
        ),
        (
            "project"@,
            text_value(text::or_else(json::field_at(payload, "/context/project"@), project)),
        ),
        (
            "repo_name"@,
            text_value(text::or_else(json::field_at(payload, "/context/repo_name"@), project)),
        ),
        (
            "repo_path"@,
            text_value(
                text::or_else(
                    json::field_at(payload, "/context/repo_path"@),
                    json::field_at(payload, "/context/projectPath"@),
                ),
            ),
        ),
        ("worktree_path"@, text_value(json::field_at(payload, "/context/worktree_path"@))),
        ("branch"@, text_value(json::field_at(payload, "/context/branch"@))),
        ("issue_number"@, count_value(count_at(payload, "/context/issue_number"@))),
        (
            "pr_number"@,
            count_value(
                text::or_else(count_at(payload, "/context/pr_number"@), pr_number_in(pr_url)),
            ),
        ),
        ("pr_url"@, text_value(pr_url)),
        ("command"@, text_value(json::field_at(payload, "/context/command"@))),
        ("tool_name"@, text_value(json::field_at(payload, "/context/tool_name"@))),
        ("test_runner"@, text_value(json::field_at(payload, "/context/test_runner"@))),
        ("status"@, text_value(status)),
        ("summary"@, text_value(summary)),
        ("error_message"@, text_value(json::field_at(payload, "/context/error_message"@))),
        ("error_summary"@, text_value(json::field_at(payload, "/context/error_summary"@))),
        ("event_timestamp"@, text_value(json::field(payload, "timestamp"@))),
        ("raw_event"@, text_value(Some(kind))),
        ("contract_event"@, text_value(Some("session."@ + c.event))),
    ]
}

fn contract_fields(payload: &Json, kind: &str, tool: &'static str, event: &str) -> (r: Vec<
    (&'static str, Option<Json>),
>)
    ensures
        entry_views(r@) == contract_entries(
            payload@,
            kind@,
            (ContractView { tool: tool@, event: event@ }),
        ),
{
    let project = payload.field_at("/context/projectName");
    let summary = first_of(
        payload.field_at("/context/summary"),
        payload.field_at("/signal/summary"),
    );
    let pr_url = match payload.field_at("/context/pr_url") {
        Some(url) => Some(url),
        None => {
            if find_pr_number(&summary).is_some() {
                text::copy_opt(&summary)
            } else {
                None
            }
        },
    };
    let pr_number = match count_at_path(payload, "/context/pr_number") {
        Some(n) => Some(n),
        None => find_pr_number(&pr_url),
    };
    let status = first_of(
        payload.field_at("/context/status"),
        first_of(payload.field_at("/signal/phase"), Some(event.to_owned())),
    );
    let r = vec![
        ("tool", json_text(Some(tool.to_owned()))),
        (
            "agent_name",
            json_text(first_of(payload.field_at("/context/agent_name"), Some(tool.to_owned()))),
        ),
        ("session_name", json_text(payload.field_at("/context/session_name"))),
        (
            "session_id",
            json_text(
                first_of(
                    payload.field_at("/context/session_id"),
                    payload.field_at("/context/sessionId"),
                ),
            ),
        ),
        (
            "project",
            json_text(first_of(payload.field_at("/context/project"), text::copy_opt(&project))),
        ),
        (
            "repo_name",
            json_text(first_of(payload.field_at("/context/repo_name"), text::copy_opt(&project))),
        ),
        (
            "repo_path",
            json_text(
                first_of(
                    payload.field_at("/context/repo_path"),
                    payload.field_at("/context/projectPath"),
                ),
            ),
        ),
        ("worktree_path", json_text(payload.field_at("/context/worktree_path"))),
        ("branch", json_text(payload.field_at("/context/branch"))),
        ("issue_number", json_count(count_at_path(payload, "/context/issue_number"))),
        ("pr_number", json_count(pr_number)),
        ("pr_url", json_text(pr_url)),
        ("command", json_text(payload.field_at("/context/command"))),
        ("tool_name", json_text(payload.field_at("/context/tool_name"))),
        ("test_runner", json_text(payload.field_at("/context/test_runner"))),
        ("status", json_text(status)),
        ("summary", json_text(summary)),
        ("error_message", json_text(payload.field_at("/context/error_message"))),
        ("error_summary", json_text(payload.field_at("/context/error_summary"))),
        ("event_timestamp", json_text(payload.field("timestamp"))),
        ("raw_event", json_text(Some(kind.to_owned()))),
        ("contract_event", json_text(Some(cat2("session.", event)))),
    ];
    assert(entry_views(r@) =~= contract_entries(
        payload@,
        kind@,
        (ContractView { tool: tool@, event: event@ }),
    ));
    r
}

// ---------------------------------------------------------------------------
// Agents
// ---------------------------------------------------------------------------

/// The status that the kind of an agent's event tells.
pub open spec fn agent_status(kind: Seq<char>) -> Option<Seq<char>> {
    if kind == "agent.started"@ {
        Some("started"@)
    } else if kind == "agent.blocked"@ {
        Some("blocked"@)
    } else if kind == "agent.finished"@ {
        Some("finished"@)
    } else if kind == "agent.failed"@ {
        Some("failed"@)
    } else {
        None
    }
}

fn status_of_agent(kind: &str) -> (r: Option<&'static str>)
    ensures
        text::opt_str(r) == agent_status(kind@),
{
    if same(kind, "agent.started") {
        Some("started")
    } else if same(kind, "agent.blocked") {
        Some("blocked")
    } else if same(kind, "agent.finished") {
        Some("finished")
    } else if same(kind, "agent.failed") {
        Some("failed")
    } else {
        None
    }
}

/// What an agent's event has at the top of its payload.
pub open spec fn agent_entries(payload: Node, status: Seq<char>) -> Seq<Entry> {
    seq![
        ("tool"@, text_value(json::field(payload, "agent_name"@))),
        ("status"@, text_value(Some(status))),
    ]
}

// ---------------------------------------------------------------------------
// Events
// ---------------------------------------------------------------------------

/// A payload that is an object: what is none becomes the value of one.
pub open spec fn as_object(payload: Node) -> Node {
    if payload is Object {
        payload
    } else {
        json::empty().with("value"@, payload)
    }
}

/// The kind of an event after normalizing.
pub open spec fn normal_kind(event: EventView) -> Seq<char> {
    match contract_in(as_object(event.payload)) {
        Some(c) => "session."@ + c.event,
        None => events::canonical_kind(event.kind),
    }
}

/// The payload of an event after what its tool says was brought into one form.
pub open spec fn unified(event: EventView) -> Node {
    let payload = as_object(event.payload);
    match contract_in(payload) {
        Some(c) => filled_all(payload, contract_entries(payload, event.kind, c)),
        None => match agent_status(events::canonical_kind(event.kind)) {
            Some(status) => filled_all(payload, agent_entries(payload, status)),
            None => payload,
        },
    }
}

/// What tells events apart and together: an identifier, the session, and when
/// the event was first seen.
pub open spec fn tracking_entries(payload: Node, id: Seq<char>, now: Seq<char>) -> Seq<Entry> {
    seq![
        ("event_id"@, text_value(Some(id))),
        ("correlation_id"@, text_value(json::field(payload, "session_id"@))),
        ("first_seen_at"@, text_value(Some(now))),
    ]
}

/// An event in normal form, given an identifier and the present moment for the
/// case that it has none yet.
pub open spec fn normalized(event: EventView, id: Seq<char>, now: Seq<char>) -> EventView {
    let payload = unified(event);
    EventView {
        kind: normal_kind(event),
        payload: filled_all(payload, tracking_entries(payload, id, now)),
        ..event
    }
}

/// Brings an event into normal form. `id` and `now` are for an event that has no
/// identifier yet and was not seen before.
pub fn normalize_event_with(event: IncomingEvent, id: String, now: String) -> (r: IncomingEvent)
    ensures
        r@ == normalized(event@, id@, now@),
{
    let IncomingEvent { kind, channel, mention, format, template, payload } = event;
    let ghost before = event@;
    let payload = if payload.is_object() {
        payload
    } else {
        Json::object().with("value", payload)
    };
    assert(payload@ == as_object(before.payload));
    let named = payload.field_at("/context/normalized_event");
    let contract: Option<(&'static str, String)> = match named {
        Some(name) => {
            if in_contract(name.as_str()) {
                Some(("omx", name))
            } else {
                None
            }
        },
        None => match payload.field_at("/signal/routeKey") {
            Some(key) => match event_of_route_key(key.as_str()) {
                Some(name) => Some(("omc", name)),
                None => None,
            },
            None => None,
        },
    };
    let kind_now = if same(kind.as_str(), "issue-opened") {
        "github.issue-opened".to_owned()
    } else {
        kind.clone()
    };
    let (kind_now, payload) = match contract {
        Some((tool, name)) => {
            let entries = contract_fields(&payload, kind.as_str(), tool, name.as_str());
            (cat2("session.", name.as_str()), fill_all(payload, entries))
        },
        None => match status_of_agent(kind_now.as_str()) {
            Some(status) => {
                let entries = vec![
                    ("tool", json_text(payload.field("agent_name"))),
                    ("status", json_text(Some(status.to_owned()))),
                ];
                assert(entry_views(entries@) =~= agent_entries(payload@, status@));
                (kind_now, fill_all(payload, entries))
            },
            None => (kind_now, payload),
        },
    };
    assert(payload@ == unified(before));
    let entries = vec![
        ("event_id", json_text(Some(id))),
        ("correlation_id", json_text(payload.field("session_id"))),
        ("first_seen_at", json_text(Some(now))),
    ];
    assert(entry_views(entries@) =~= tracking_entries(payload@, id@, now@));
    let payload = fill_all(payload, entries);
    IncomingEvent { kind: kind_now, channel, mention, format, template, payload }
}

/// Brings an event into normal form: one that has no identifier gets a fresh
/// one, and one that was not seen before is seen now.
pub fn normalize_event(event: IncomingEvent) -> (r: IncomingEvent)
    ensures
        exists|id: Seq<char>, now: Seq<char>|
            #![trigger normalized(event@, id, now)]
            r@ == normalized(event@, id, now) && identity::is_fresh_id(id)
                && identity::is_fresh_moment(now),
{
    let id = fresh_event_id();
    let now = current_timestamp_rfc3339();
    normalize_event_with(event, id, now)
}

// ---------------------------------------------------------------------------
// Laws
// ---------------------------------------------------------------------------

proof fn lemma_filled_keeps(node: Node, entries: Seq<Entry>, key: Seq<char>)
    ensures
        json::member(node, key) is Some ==> json::member(filled_all(node, entries), key)
            == json::member(node, key),
        (filled_all(node, entries) is Object) == (node is Object),
    decreases entries.len(),
{
    if entries.len() > 0 {
        lemma_filled_keeps(node, entries.drop_last(), key);
        let before = filled_all(node, entries.drop_last());
        match (before, entries.last().1) {
            (Node::Object(m), Some(value)) => table::law_put_then_lookup(
                m,
                entries.last().0,
                value,
                key,
            ),
            _ => {},
        }
    }
}

/// What an event says of itself is never changed by normalizing: every key that
/// its payload has keeps its value.
pub proof fn law_normalizing_keeps_what_is_said(
    event: EventView,
    id: Seq<char>,
    now: Seq<char>,
    key: Seq<char>,
)
    requires
        json::member(event.payload, key) is Some,
    ensures
        json::member(normalized(event, id, now).payload, key) == json::member(event.payload, key),
{
    let payload = as_object(event.payload);
    match contract_in(payload) {
        Some(c) => lemma_filled_keeps(payload, contract_entries(payload, event.kind, c), key),
        None => match agent_status(events::canonical_kind(event.kind)) {
            Some(status) => lemma_filled_keeps(payload, agent_entries(payload, status), key),
            None => {},
        },
    }
    lemma_filled_keeps(unified(event), tracking_entries(unified(event), id, now), key);
}

proof fn lemma_filled_has(node: Node, entries: Seq<Entry>, i: int)
    requires
        node is Object,
        0 <= i < entries.len(),
        entries[i].1 is Some,
    ensures
        json::member(filled_all(node, entries), entries[i].0) is Some,
    decreases entries.len(),
{
    let before = filled_all(node, entries.drop_last());
    lemma_filled_keeps(node, entries.drop_last(), entries[i].0);
    let last = entries.last();
    match (before, last.1) {
        (Node::Object(m), Some(value)) => table::law_put_then_lookup(
            m,
            last.0,
            value,
            entries[i].0,
        ),
        _ => {},
    }
    if i < entries.len() - 1 {
        lemma_filled_has(node, entries.drop_last(), i);
    }
}

/// After normalizing an event has an identifier and a moment at which it was
/// first seen.
pub proof fn law_normalized_event_can_be_tracked(event: EventView, id: Seq<char>, now: Seq<char>)
    ensures
        json::member(normalized(event, id, now).payload, "event_id"@) is Some,
        json::member(normalized(event, id, now).payload, "first_seen_at"@) is Some,
{
    let payload = as_object(event.payload);
    match contract_in(payload) {
        Some(c) => lemma_filled_keeps(payload, contract_entries(payload, event.kind, c), ""@),
        None => match agent_status(events::canonical_kind(event.kind)) {
            Some(status) => lemma_filled_keeps(payload, agent_entries(payload, status), ""@),
            None => {},
        },
    }
    let entries = tracking_entries(unified(event), id, now);
    lemma_filled_has(unified(event), entries, 0);
    lemma_filled_has(unified(event), entries, 2);
}

} // verus!
