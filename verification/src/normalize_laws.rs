//! What an event in normal form says.
use vstd::prelude::*;
use vstd::string::*;

use crate::compose;
use crate::cron_laws;
use crate::events::EventView;
use crate::events;
use crate::json::Node;
use crate::json;
use crate::json_laws;
use crate::normalize::{ContractView, Entry};
use crate::normalize;
use crate::scan;
use crate::scan_laws;
use crate::text;

verus! {

broadcast use json_laws::group_members;

/// A text of a payload, where there is one.
pub open spec fn text_node(o: Option<Seq<char>>) -> Option<Node> {
    match o {
        Some(s) => Some(Node::Text(s)),
        None => None,
    }
}

/// A number of a payload, where there is one.
pub open spec fn count_node(o: Option<u64>) -> Option<Node> {
    match o {
        Some(n) => Some(json::whole(n)),
        None => None,
    }
}

/// The first of two texts that is there.
pub open spec fn first_of(a: Option<Seq<char>>, b: Option<Seq<char>>) -> Option<Seq<char>> {
    if a is Some {
        a
    } else {
        b
    }
}

/// A key has the value that it had before, and where it had none the given one.
pub open spec fn filled_in(before: Node, after: Node, key: Seq<char>, value: Option<Node>) -> bool {
    json::member(after, key) == (if json::member(before, key) is Some {
        json::member(before, key)
    } else {
        value
    })
}

/// No key stands twice among some entries.
spec fn keys_differ(entries: Seq<Entry>) -> bool {
    forall|i: int, j: int|
        #![trigger entries[i], entries[j]]
        0 <= i < j < entries.len() ==> entries[i].0 != entries[j].0
}

proof fn lemma_others_stay(node: Node, entries: Seq<Entry>, key: Seq<char>)
    requires
        node is Object,
        forall|i: int| 0 <= i < entries.len() ==> (#[trigger] entries[i]).0 != key,
    ensures
        normalize::filled_all(node, entries) is Object,
        json::member(normalize::filled_all(node, entries), key) == json::member(node, key),
    decreases entries.len(),
{
    if entries.len() > 0 {
        let front = entries.drop_last();
        assert forall|i: int| 0 <= i < front.len() implies (#[trigger] front[i]).0 != key by {
            assert(entries[i].0 != key);
        }
        lemma_others_stay(node, front, key);
        assert(entries[entries.len() - 1].0 != key);
    }
}

proof fn lemma_is_filled_in(node: Node, entries: Seq<Entry>, i: int)
    requires
        node is Object,
        keys_differ(entries),
        0 <= i < entries.len(),
    ensures
        normalize::filled_all(node, entries) is Object,
        filled_in(node, normalize::filled_all(node, entries), entries[i].0, entries[i].1),
    decreases entries.len(),
{
    let front = entries.drop_last();
    let key = entries[i].0;
    if i == entries.len() - 1 {
        assert forall|j: int| 0 <= j < front.len() implies (#[trigger] front[j]).0 != key by {
            assert(entries[j].0 != entries[i].0);
        }
        lemma_others_stay(node, front, key);
    } else {
        assert(keys_differ(front)) by {
            assert forall|a: int, b: int|
                #![trigger front[a], front[b]]
                0 <= a < b < front.len() implies front[a].0 != front[b].0 by {
                assert(entries[a].0 != entries[b].0);
            }
        }
        assert(front[i] == entries[i]);
        lemma_is_filled_in(node, front, i);
        assert(entries[i].0 != entries[entries.len() - 1].0);
    }
}

proof fn lemma_names()
    ensures
        "tool"@ != "agent_name"@,
        "tool"@ != "session_name"@,
        "tool"@ != "session_id"@,
        "tool"@ != "project"@,
        "tool"@ != "repo_name"@,
        "tool"@ != "repo_path"@,
        "tool"@ != "worktree_path"@,
        "tool"@ != "branch"@,
        "tool"@ != "issue_number"@,
        "tool"@ != "pr_number"@,
        "tool"@ != "pr_url"@,
        "tool"@ != "command"@,
        "tool"@ != "tool_name"@,
        "tool"@ != "test_runner"@,
        "tool"@ != "status"@,
        "tool"@ != "summary"@,
        "tool"@ != "error_message"@,
        "tool"@ != "error_summary"@,
        "tool"@ != "event_timestamp"@,
        "tool"@ != "raw_event"@,
        "tool"@ != "contract_event"@,
        "tool"@ != "event_id"@,
        "tool"@ != "correlation_id"@,
        "tool"@ != "first_seen_at"@,
        "agent_name"@ != "session_name"@,
        "agent_name"@ != "session_id"@,
        "agent_name"@ != "project"@,
        "agent_name"@ != "repo_name"@,
        "agent_name"@ != "repo_path"@,
        "agent_name"@ != "worktree_path"@,
        "agent_name"@ != "branch"@,
        "agent_name"@ != "issue_number"@,
        "agent_name"@ != "pr_number"@,
        "agent_name"@ != "pr_url"@,
        "agent_name"@ != "command"@,
        "agent_name"@ != "tool_name"@,
        "agent_name"@ != "test_runner"@,
        "agent_name"@ != "status"@,
        "agent_name"@ != "summary"@,
        "agent_name"@ != "error_message"@,
        "agent_name"@ != "error_summary"@,
        "agent_name"@ != "event_timestamp"@,
        "agent_name"@ != "raw_event"@,
        "agent_name"@ != "contract_event"@,
        "agent_name"@ != "event_id"@,
        "agent_name"@ != "correlation_id"@,
        "agent_name"@ != "first_seen_at"@,
        "session_name"@ != "session_id"@,
        "session_name"@ != "project"@,
        "session_name"@ != "repo_name"@,
        "session_name"@ != "repo_path"@,
        "session_name"@ != "worktree_path"@,
        "session_name"@ != "branch"@,
        "session_name"@ != "issue_number"@,
        "session_name"@ != "pr_number"@,
        "session_name"@ != "pr_url"@,
        "session_name"@ != "command"@,
        "session_name"@ != "tool_name"@,
        "session_name"@ != "test_runner"@,
        "session_name"@ != "status"@,
        "session_name"@ != "summary"@,
        "session_name"@ != "error_message"@,
        "session_name"@ != "error_summary"@,
        "session_name"@ != "event_timestamp"@,
        "session_name"@ != "raw_event"@,
        "session_name"@ != "contract_event"@,
        "session_name"@ != "event_id"@,
        "session_name"@ != "correlation_id"@,
        "session_name"@ != "first_seen_at"@,
        "session_id"@ != "project"@,
        "session_id"@ != "repo_name"@,
        "session_id"@ != "repo_path"@,
        "session_id"@ != "worktree_path"@,
        "session_id"@ != "branch"@,
        "session_id"@ != "issue_number"@,
        "session_id"@ != "pr_number"@,
        "session_id"@ != "pr_url"@,
        "session_id"@ != "command"@,
        "session_id"@ != "tool_name"@,
        "session_id"@ != "test_runner"@,
        "session_id"@ != "status"@,
        "session_id"@ != "summary"@,
        "session_id"@ != "error_message"@,
        "session_id"@ != "error_summary"@,
        "session_id"@ != "event_timestamp"@,
        "session_id"@ != "raw_event"@,
        "session_id"@ != "contract_event"@,
        "session_id"@ != "event_id"@,
        "session_id"@ != "correlation_id"@,
        "session_id"@ != "first_seen_at"@,
        "project"@ != "repo_name"@,
        "project"@ != "repo_path"@,
        "project"@ != "worktree_path"@,
        "project"@ != "branch"@,
        "project"@ != "issue_number"@,
        "project"@ != "pr_number"@,
        "project"@ != "pr_url"@,
        "project"@ != "command"@,
        "project"@ != "tool_name"@,
        "project"@ != "test_runner"@,
        "project"@ != "status"@,
        "project"@ != "summary"@,
        "project"@ != "error_message"@,
        "project"@ != "error_summary"@,
        "project"@ != "event_timestamp"@,
        "project"@ != "raw_event"@,
        "project"@ != "contract_event"@,
        "project"@ != "event_id"@,
        "project"@ != "correlation_id"@,
        "project"@ != "first_seen_at"@,
        "repo_name"@ != "repo_path"@,
        "repo_name"@ != "worktree_path"@,
        "repo_name"@ != "branch"@,
        "repo_name"@ != "issue_number"@,
        "repo_name"@ != "pr_number"@,
        "repo_name"@ != "pr_url"@,
        "repo_name"@ != "command"@,
        "repo_name"@ != "tool_name"@,
        "repo_name"@ != "test_runner"@,
        "repo_name"@ != "status"@,
        "repo_name"@ != "summary"@,
        "repo_name"@ != "error_message"@,
        "repo_name"@ != "error_summary"@,
        "repo_name"@ != "event_timestamp"@,
        "repo_name"@ != "raw_event"@,
        "repo_name"@ != "contract_event"@,
        "repo_name"@ != "event_id"@,
        "repo_name"@ != "correlation_id"@,
        "repo_name"@ != "first_seen_at"@,
        "repo_path"@ != "worktree_path"@,
        "repo_path"@ != "branch"@,
        "repo_path"@ != "issue_number"@,
        "repo_path"@ != "pr_number"@,
        "repo_path"@ != "pr_url"@,
        "repo_path"@ != "command"@,
        "repo_path"@ != "tool_name"@,
        "repo_path"@ != "test_runner"@,
        "repo_path"@ != "status"@,
        "repo_path"@ != "summary"@,
        "repo_path"@ != "error_message"@,
        "repo_path"@ != "error_summary"@,
        "repo_path"@ != "event_timestamp"@,
        "repo_path"@ != "raw_event"@,
        "repo_path"@ != "contract_event"@,
        "repo_path"@ != "event_id"@,
        "repo_path"@ != "correlation_id"@,
        "repo_path"@ != "first_seen_at"@,
        "worktree_path"@ != "branch"@,
        "worktree_path"@ != "issue_number"@,
        "worktree_path"@ != "pr_number"@,
        "worktree_path"@ != "pr_url"@,
        "worktree_path"@ != "command"@,
        "worktree_path"@ != "tool_name"@,
        "worktree_path"@ != "test_runner"@,
        "worktree_path"@ != "status"@,
        "worktree_path"@ != "summary"@,
        "worktree_path"@ != "error_message"@,
        "worktree_path"@ != "error_summary"@,
        "worktree_path"@ != "event_timestamp"@,
        "worktree_path"@ != "raw_event"@,
        "worktree_path"@ != "contract_event"@,
        "worktree_path"@ != "event_id"@,
        "worktree_path"@ != "correlation_id"@,
        "worktree_path"@ != "first_seen_at"@,
        "branch"@ != "issue_number"@,
        "branch"@ != "pr_number"@,
        "branch"@ != "pr_url"@,
        "branch"@ != "command"@,
        "branch"@ != "tool_name"@,
        "branch"@ != "test_runner"@,
        "branch"@ != "status"@,
        "branch"@ != "summary"@,
        "branch"@ != "error_message"@,
        "branch"@ != "error_summary"@,
        "branch"@ != "event_timestamp"@,
        "branch"@ != "raw_event"@,
        "branch"@ != "contract_event"@,
        "branch"@ != "event_id"@,
        "branch"@ != "correlation_id"@,
        "branch"@ != "first_seen_at"@,
        "issue_number"@ != "pr_number"@,
        "issue_number"@ != "pr_url"@,
        "issue_number"@ != "command"@,
        "issue_number"@ != "tool_name"@,
        "issue_number"@ != "test_runner"@,
        "issue_number"@ != "status"@,
        "issue_number"@ != "summary"@,
        "issue_number"@ != "error_message"@,
        "issue_number"@ != "error_summary"@,
        "issue_number"@ != "event_timestamp"@,
        "issue_number"@ != "raw_event"@,
        "issue_number"@ != "contract_event"@,
        "issue_number"@ != "event_id"@,
        "issue_number"@ != "correlation_id"@,
        "issue_number"@ != "first_seen_at"@,
        "pr_number"@ != "pr_url"@,
        "pr_number"@ != "command"@,
        "pr_number"@ != "tool_name"@,
        "pr_number"@ != "test_runner"@,
        "pr_number"@ != "status"@,
        "pr_number"@ != "summary"@,
        "pr_number"@ != "error_message"@,
        "pr_number"@ != "error_summary"@,
        "pr_number"@ != "event_timestamp"@,
        "pr_number"@ != "raw_event"@,
        "pr_number"@ != "contract_event"@,
        "pr_number"@ != "event_id"@,
        "pr_number"@ != "correlation_id"@,
        "pr_number"@ != "first_seen_at"@,
        "pr_url"@ != "command"@,
        "pr_url"@ != "tool_name"@,
        "pr_url"@ != "test_runner"@,
        "pr_url"@ != "status"@,
        "pr_url"@ != "summary"@,
        "pr_url"@ != "error_message"@,
        "pr_url"@ != "error_summary"@,
        "pr_url"@ != "event_timestamp"@,
        "pr_url"@ != "raw_event"@,
        "pr_url"@ != "contract_event"@,
        "pr_url"@ != "event_id"@,
        "pr_url"@ != "correlation_id"@,
        "pr_url"@ != "first_seen_at"@,
        "command"@ != "tool_name"@,
        "command"@ != "test_runner"@,
        "command"@ != "status"@,
        "command"@ != "summary"@,
        "command"@ != "error_message"@,
        "command"@ != "error_summary"@,
        "command"@ != "event_timestamp"@,
        "command"@ != "raw_event"@,
        "command"@ != "contract_event"@,
        "command"@ != "event_id"@,
        "command"@ != "correlation_id"@,
        "command"@ != "first_seen_at"@,
        "tool_name"@ != "test_runner"@,
        "tool_name"@ != "status"@,
        "tool_name"@ != "summary"@,
        "tool_name"@ != "error_message"@,
        "tool_name"@ != "error_summary"@,
        "tool_name"@ != "event_timestamp"@,
        "tool_name"@ != "raw_event"@,
        "tool_name"@ != "contract_event"@,
        "tool_name"@ != "event_id"@,
        "tool_name"@ != "correlation_id"@,
        "tool_name"@ != "first_seen_at"@,
        "test_runner"@ != "status"@,
        "test_runner"@ != "summary"@,
        "test_runner"@ != "error_message"@,
        "test_runner"@ != "error_summary"@,
        "test_runner"@ != "event_timestamp"@,
        "test_runner"@ != "raw_event"@,
        "test_runner"@ != "contract_event"@,
        "test_runner"@ != "event_id"@,
        "test_runner"@ != "correlation_id"@,
        "test_runner"@ != "first_seen_at"@,
        "status"@ != "summary"@,
        "status"@ != "error_message"@,
        "status"@ != "error_summary"@,
        "status"@ != "event_timestamp"@,
        "status"@ != "raw_event"@,
        "status"@ != "contract_event"@,
        "status"@ != "event_id"@,
        "status"@ != "correlation_id"@,
        "status"@ != "first_seen_at"@,
        "summary"@ != "error_message"@,
        "summary"@ != "error_summary"@,
        "summary"@ != "event_timestamp"@,
        "summary"@ != "raw_event"@,
        "summary"@ != "contract_event"@,
        "summary"@ != "event_id"@,
        "summary"@ != "correlation_id"@,
        "summary"@ != "first_seen_at"@,
        "error_message"@ != "error_summary"@,
        "error_message"@ != "event_timestamp"@,
        "error_message"@ != "raw_event"@,
        "error_message"@ != "contract_event"@,
        "error_message"@ != "event_id"@,
        "error_message"@ != "correlation_id"@,
        "error_message"@ != "first_seen_at"@,
        "error_summary"@ != "event_timestamp"@,
        "error_summary"@ != "raw_event"@,
        "error_summary"@ != "contract_event"@,
        "error_summary"@ != "event_id"@,
        "error_summary"@ != "correlation_id"@,
        "error_summary"@ != "first_seen_at"@,
        "event_timestamp"@ != "raw_event"@,
        "event_timestamp"@ != "contract_event"@,
        "event_timestamp"@ != "event_id"@,
        "event_timestamp"@ != "correlation_id"@,
        "event_timestamp"@ != "first_seen_at"@,
        "raw_event"@ != "contract_event"@,
        "raw_event"@ != "event_id"@,
        "raw_event"@ != "correlation_id"@,
        "raw_event"@ != "first_seen_at"@,
        "contract_event"@ != "event_id"@,
        "contract_event"@ != "correlation_id"@,
        "contract_event"@ != "first_seen_at"@,
        "event_id"@ != "correlation_id"@,
        "event_id"@ != "first_seen_at"@,
        "correlation_id"@ != "first_seen_at"@,
{
    reveal_strlit("tool");
    reveal_strlit("agent_name");
    reveal_strlit("session_name");
    reveal_strlit("session_id");
    reveal_strlit("project");
    reveal_strlit("repo_name");
    reveal_strlit("repo_path");
    reveal_strlit("worktree_path");
    reveal_strlit("branch");
    reveal_strlit("issue_number");
    reveal_strlit("pr_number");
    reveal_strlit("pr_url");
    reveal_strlit("command");
    reveal_strlit("tool_name");
    reveal_strlit("test_runner");
    reveal_strlit("status");
    reveal_strlit("summary");
    reveal_strlit("error_message");
    reveal_strlit("error_summary");
    reveal_strlit("event_timestamp");
    reveal_strlit("raw_event");
    reveal_strlit("contract_event");
    reveal_strlit("event_id");
    reveal_strlit("correlation_id");
    reveal_strlit("first_seen_at");
    assert("tool"@.len() == 4);
    assert("agent_name"@.len() == 10);
    assert("agent_name"@[0] == 'a');
    assert("session_name"@.len() == 12);
    assert("session_name"@[0] == 's');
    assert("session_id"@.len() == 10);
    assert("session_id"@[0] == 's');
    assert("project"@.len() == 7);
    assert("project"@[0] == 'p');
    assert("repo_name"@.len() == 9);
    assert("repo_name"@[0] == 'r');
    assert("repo_name"@[1] == 'e');
    assert("repo_name"@[5] == 'n');
    assert("repo_path"@.len() == 9);
    assert("repo_path"@[0] == 'r');
    assert("repo_path"@[1] == 'e');
    assert("repo_path"@[5] == 'p');
    assert("worktree_path"@.len() == 13);
    assert("worktree_path"@[0] == 'w');
    assert("branch"@.len() == 6);
    assert("branch"@[0] == 'b');
    assert("issue_number"@.len() == 12);
    assert("issue_number"@[0] == 'i');
    assert("pr_number"@.len() == 9);
    assert("pr_number"@[0] == 'p');
    assert("pr_url"@.len() == 6);
    assert("pr_url"@[0] == 'p');
    assert("command"@.len() == 7);
    assert("command"@[0] == 'c');
    assert("tool_name"@.len() == 9);
    assert("tool_name"@[0] == 't');
    assert("test_runner"@.len() == 11);
    assert("status"@.len() == 6);
    assert("status"@[0] == 's');
    assert("summary"@.len() == 7);
    assert("summary"@[0] == 's');
    assert("error_message"@.len() == 13);
    assert("error_message"@[0] == 'e');
    assert("error_message"@[6] == 'm');
    assert("error_summary"@.len() == 13);
    assert("error_summary"@[0] == 'e');
    assert("error_summary"@[6] == 's');
    assert("event_timestamp"@.len() == 15);
    assert("raw_event"@.len() == 9);
    assert("raw_event"@[0] == 'r');
    assert("raw_event"@[1] == 'a');
    assert("contract_event"@.len() == 14);
    assert("contract_event"@[2] == 'n');
    assert("event_id"@.len() == 8);
    assert("correlation_id"@.len() == 14);
    assert("correlation_id"@[2] == 'r');
    assert("first_seen_at"@.len() == 13);
    assert("first_seen_at"@[0] == 'f');
}

proof fn lemma_contract_keys(p: Node, kind: Seq<char>, c: ContractView)
    ensures
        keys_differ(normalize::contract_entries(p, kind, c)),
        normalize::contract_entries(p, kind, c).len() == 22,
        forall|i: int|
            0 <= i < 22 ==> {
                &&& (#[trigger] normalize::contract_entries(p, kind, c)[i]).0 != "event_id"@
                &&& normalize::contract_entries(p, kind, c)[i].0 != "correlation_id"@
                &&& normalize::contract_entries(p, kind, c)[i].0 != "first_seen_at"@
            },
{
    lemma_names();
}

proof fn lemma_tracked(p: Node, id: Seq<char>, now: Seq<char>, key: Seq<char>)
    requires
        p is Object,
    ensures
        ({
            let after = normalize::filled_all(p, normalize::tracking_entries(p, id, now));
            &&& filled_in(p, after, "event_id"@, Some(Node::Text(id)))
            &&& filled_in(
                p,
                after,
                "correlation_id"@,
                text_node(json::field(p, "session_id"@)),
            )
            &&& filled_in(p, after, "first_seen_at"@, Some(Node::Text(now)))
            &&& key != "event_id"@ && key != "correlation_id"@ && key != "first_seen_at"@
                ==> json::member(after, key) == json::member(p, key)
        }),
{
    let entries = normalize::tracking_entries(p, id, now);
    lemma_names();
    assert(keys_differ(entries));
    lemma_is_filled_in(p, entries, 0);
    lemma_is_filled_in(p, entries, 1);
    lemma_is_filled_in(p, entries, 2);
    if key != "event_id"@ && key != "correlation_id"@ && key != "first_seen_at"@ {
        lemma_others_stay(p, entries, key);
    }
}

/// Normalizing leaves the channel, the mention, the format and the template of an event as
/// they are, and gives it an identifier, the session it belongs to and the moment at which it
/// was first seen, where it has none.
pub proof fn law_event_is_tracked(event: EventView, id: Seq<char>, now: Seq<char>)
    ensures
        ({
            let n = normalize::normalized(event, id, now);
            let p = normalize::unified(event);
            &&& n.channel == event.channel
            &&& n.mention == event.mention
            &&& n.format == event.format
            &&& n.template == event.template
            &&& n.payload is Object
            &&& filled_in(p, n.payload, "event_id"@, Some(Node::Text(id)))
            &&& filled_in(
                p,
                n.payload,
                "correlation_id"@,
                text_node(json::field(p, "session_id"@)),
            )
            &&& filled_in(p, n.payload, "first_seen_at"@, Some(Node::Text(now)))
        }),
{
    lemma_unified_is_object(event);
    lemma_tracked(normalize::unified(event), id, now, ""@);
    lemma_filled_is_object(
        normalize::unified(event),
        normalize::tracking_entries(normalize::unified(event), id, now),
    );
}

proof fn lemma_filled_is_object(node: Node, entries: Seq<Entry>)
    requires
        node is Object,
    ensures
        normalize::filled_all(node, entries) is Object,
    decreases entries.len(),
{
    if entries.len() > 0 {
        lemma_filled_is_object(node, entries.drop_last());
    }
}

proof fn lemma_unified_is_object(event: EventView)
    ensures
        normalize::unified(event) is Object,
{
    let p = normalize::as_object(event.payload);
    match normalize::contract_in(p) {
        Some(c) => lemma_filled_is_object(p, normalize::contract_entries(p, event.kind, c)),
        None => match normalize::agent_status(events::canonical_kind(event.kind)) {
            Some(status) => lemma_filled_is_object(p, normalize::agent_entries(p, status)),
            None => {},
        },
    }
}

/// A payload that is no object becomes the value of one.
pub proof fn law_bare_value_is_kept(event: EventView, id: Seq<char>, now: Seq<char>)
    requires
        !(event.payload is Object),
    ensures
        json::member(normalize::normalized(event, id, now).payload, "value"@) == Some(
            event.payload,
        ),
{
    let p = normalize::as_object(event.payload);
    reveal_strlit("context");
    reveal_strlit("signal");
    reveal_strlit("value");
    assert("context"@.len() == 7);
    assert("signal"@.len() == 6);
    assert("value"@.len() == 5);
    lemma_value_is_no_contract(p);
    reveal_strlit("event_id");
    reveal_strlit("correlation_id");
    reveal_strlit("first_seen_at");
    reveal_strlit("tool");
    reveal_strlit("status");
    assert("value"@.len() == 5);
    lemma_unified_is_object(event);
    lemma_tracked(normalize::unified(event), id, now, "value"@);
    match normalize::agent_status(events::canonical_kind(event.kind)) {
        Some(status) => {
            assert forall|i: int| 0 <= i < 2 implies (#[trigger] normalize::agent_entries(
                p,
                status,
            )[i]).0 != "value"@ by {}
            lemma_others_stay(p, normalize::agent_entries(p, status), "value"@);
        },
        None => {},
    }
}

proof fn lemma_value_is_no_contract(p: Node)
    requires
        json::member(p, "context"@) is None,
        json::member(p, "signal"@) is None,
    ensures
        normalize::contract_in(p) is None,
{
    lemma_first_key_of_paths();
}

proof fn lemma_first_key_of_paths()
    ensures
        scan::split("/context/normalized_event"@, '/').skip(1).len() == 2,
        scan::split("/context/normalized_event"@, '/').skip(1)[0] == "context"@,
        scan::split("/signal/routeKey"@, '/').skip(1).len() == 2,
        scan::split("/signal/routeKey"@, '/').skip(1)[0] == "signal"@,
{
    reveal_strlit("/context/normalized_event");
    reveal_strlit("/signal/routeKey");
    reveal_strlit("context");
    reveal_strlit("normalized_event");
    reveal_strlit("signal");
    reveal_strlit("routeKey");
    assert(!"context"@.contains('/'));
    assert(!"normalized_event"@.contains('/'));
    assert(!"signal"@.contains('/'));
    assert(!"routeKey"@.contains('/'));
    lemma_two_keys("context"@, "normalized_event"@);
    lemma_two_keys("signal"@, "routeKey"@);
    assert("/context/normalized_event"@ =~= seq!['/'] + "context"@ + seq!['/']
        + "normalized_event"@);
    assert("/signal/routeKey"@ =~= seq!['/'] + "signal"@ + seq!['/'] + "routeKey"@);
}

proof fn lemma_split_grows(s: Seq<char>, word: Seq<char>)
    requires
        !word.contains('/'),
    ensures
        scan::split(s + word, '/').len() == scan::split(s, '/').len(),
        scan::split(s, '/').len() > 0,
        scan::split(s + word, '/').last() == scan::split(s, '/').last() + word,
        scan::split(s + word, '/').drop_last() == scan::split(s, '/').drop_last(),
    decreases word.len(),
{
    lemma_split_is_not_empty(s);
    if word.len() == 0 {
        assert(s + word =~= s);
        assert(scan::split(s, '/').last() + word =~= scan::split(s, '/').last());
    } else {
        let front = word.drop_last();
        assert(!front.contains('/')) by {
            if front.contains('/') {
                let i = choose|i: int| 0 <= i < front.len() && front[i] == '/';
                assert(word[i] == '/');
            }
        }
        assert(word[word.len() - 1] != '/');
        lemma_split_grows(s, front);
        assert((s + word).drop_last() =~= s + front);
        let before = scan::split(s + front, '/');
        assert(scan::split(s, '/').last() + word =~= before.last().push(word.last()));
        assert(scan::split(s + word, '/').drop_last() =~= before.drop_last());
    }
}

proof fn lemma_split_is_not_empty(s: Seq<char>)
    ensures
        scan::split(s, '/').len() > 0,
    decreases s.len(),
{
    if s.len() > 0 {
        lemma_split_is_not_empty(s.drop_last());
    }
}

proof fn lemma_two_keys(a: Seq<char>, b: Seq<char>)
    requires
        !a.contains('/'),
        !b.contains('/'),
    ensures
        scan::split(seq!['/'] + a + seq!['/'] + b, '/').skip(1) == seq![a, b],
{
    let one = seq!['/'];
    assert(one.drop_last() =~= Seq::empty());
    reveal_with_fuel(scan::split, 2);
    let first = scan::split(one, '/');
    assert(first =~= seq![Seq::<char>::empty(), Seq::<char>::empty()]);
    lemma_split_grows(one, a);
    let second = scan::split(one + a, '/');
    assert(first.last() + a =~= a);
    assert(second =~= second.drop_last().push(second.last()));
    assert(second =~= seq![Seq::<char>::empty(), a]);
    let two = one + a + seq!['/'];
    assert(two.drop_last() =~= one + a);
    let third = scan::split(two, '/');
    assert(third =~= seq![Seq::<char>::empty(), a, Seq::<char>::empty()]);
    lemma_split_grows(two, b);
    let all = scan::split(two + b, '/');
    assert(third.last() + b =~= b);
    assert(all =~= all.drop_last().push(all.last()));
    assert(all =~= seq![Seq::<char>::empty(), a, b]);
    assert(all.skip(1) =~= seq![a, b]);
}

/// What an event of a coding session says in one form, whichever tool sent it: each key that
/// it has at the top stays, and every other is taken from where the tool puts it.
pub open spec fn says_in_one_form(
    event: EventView,
    after: Node,
    tool: Seq<char>,
    happened: Seq<char>,
) -> bool {
    let p = event.payload;
    let summary = first_of(
        json::field_at(p, "/context/summary"@),
        json::field_at(p, "/signal/summary"@),
    );
    let pr_url = match json::field_at(p, "/context/pr_url"@) {
        Some(url) => Some(url),
        None => if normalize::pr_number_in(summary) is Some {
            summary
        } else {
            None
        },
    };
    &&& filled_in(p, after, "tool"@, text_node(Some(tool)))
    &&& filled_in(
        p,
        after,
        "agent_name"@,
        text_node(first_of(json::field_at(p, "/context/agent_name"@), Some(tool))),
    )
    &&& filled_in(p, after, "session_name"@, text_node(json::field_at(p, "/context/session_name"@)))
    &&& filled_in(
        p,
        after,
        "session_id"@,
        text_node(
            first_of(
                json::field_at(p, "/context/session_id"@),
                json::field_at(p, "/context/sessionId"@),
            ),
        ),
    )
    &&& filled_in(
        p,
        after,
        "project"@,
        text_node(
            first_of(
                json::field_at(p, "/context/project"@),
                json::field_at(p, "/context/projectName"@),
            ),
        ),
    )
    &&& filled_in(
        p,
        after,
        "repo_name"@,
        text_node(
            first_of(
                json::field_at(p, "/context/repo_name"@),
                json::field_at(p, "/context/projectName"@),
            ),
        ),
    )
    &&& filled_in(
        p,
        after,
        "repo_path"@,
        text_node(
            first_of(
                json::field_at(p, "/context/repo_path"@),
                json::field_at(p, "/context/projectPath"@),
            ),
        ),
    )
    &&& filled_in(
        p,
        after,
        "worktree_path"@,
        text_node(json::field_at(p, "/context/worktree_path"@)),
    )
    &&& filled_in(p, after, "branch"@, text_node(json::field_at(p, "/context/branch"@)))
    &&& filled_in(
        p,
        after,
        "issue_number"@,
        count_node(json::as_count(json::at_path(p, "/context/issue_number"@))),
    )
    &&& filled_in(
        p,
        after,
        "pr_number"@,
        count_node(
            match json::as_count(json::at_path(p, "/context/pr_number"@)) {
                Some(n) => Some(n),
                None => normalize::pr_number_in(pr_url),
            },
        ),
    )
    &&& filled_in(p, after, "pr_url"@, text_node(pr_url))
    &&& filled_in(p, after, "command"@, text_node(json::field_at(p, "/context/command"@)))
    &&& filled_in(p, after, "tool_name"@, text_node(json::field_at(p, "/context/tool_name"@)))
    &&& filled_in(p, after, "test_runner"@, text_node(json::field_at(p, "/context/test_runner"@)))
    &&& filled_in(
        p,
        after,
        "status"@,
        text_node(
            first_of(
                json::field_at(p, "/context/status"@),
                first_of(json::field_at(p, "/signal/phase"@), Some(happened)),
            ),
        ),
    )
    &&& filled_in(p, after, "summary"@, text_node(summary))
    &&& filled_in(
        p,
        after,
        "error_message"@,
        text_node(json::field_at(p, "/context/error_message"@)),
    )
    &&& filled_in(
        p,
        after,
        "error_summary"@,
        text_node(json::field_at(p, "/context/error_summary"@)),
    )
    &&& filled_in(p, after, "event_timestamp"@, text_node(json::field(p, "timestamp"@)))
    &&& filled_in(p, after, "raw_event"@, text_node(Some(event.kind)))
    &&& filled_in(p, after, "contract_event"@, text_node(Some("session."@ + happened)))
}

proof fn lemma_contract(event: EventView, id: Seq<char>, now: Seq<char>, c: ContractView)
    requires
        event.payload is Object,
        normalize::contract_in(event.payload) == Some(c),
    ensures
        normalize::normalized(event, id, now).kind == "session."@ + c.event,
        says_in_one_form(
            event,
            normalize::normalized(event, id, now).payload,
            c.tool,
            c.event,
        ),
{
    let p = event.payload;
    let entries = normalize::contract_entries(p, event.kind, c);
    let middle = normalize::filled_all(p, entries);
    let after = normalize::normalized(event, id, now).payload;
    lemma_contract_keys(p, event.kind, c);
    lemma_names();
    assert(normalize::unified(event) == middle);
    lemma_is_filled_in(p, entries, 0);
    lemma_tracked(middle, id, now, "tool"@);
    lemma_is_filled_in(p, entries, 1);
    lemma_tracked(middle, id, now, "agent_name"@);
    lemma_is_filled_in(p, entries, 2);
    lemma_tracked(middle, id, now, "session_name"@);
    lemma_is_filled_in(p, entries, 3);
    lemma_tracked(middle, id, now, "session_id"@);
    lemma_is_filled_in(p, entries, 4);
    lemma_tracked(middle, id, now, "project"@);
    lemma_is_filled_in(p, entries, 5);
    lemma_tracked(middle, id, now, "repo_name"@);
    lemma_is_filled_in(p, entries, 6);
    lemma_tracked(middle, id, now, "repo_path"@);
    lemma_is_filled_in(p, entries, 7);
    lemma_tracked(middle, id, now, "worktree_path"@);
    lemma_is_filled_in(p, entries, 8);
    lemma_tracked(middle, id, now, "branch"@);
    lemma_is_filled_in(p, entries, 9);
    lemma_tracked(middle, id, now, "issue_number"@);
    lemma_is_filled_in(p, entries, 10);
    lemma_tracked(middle, id, now, "pr_number"@);
    lemma_is_filled_in(p, entries, 11);
    lemma_tracked(middle, id, now, "pr_url"@);
    lemma_is_filled_in(p, entries, 12);
    lemma_tracked(middle, id, now, "command"@);
    lemma_is_filled_in(p, entries, 13);
    lemma_tracked(middle, id, now, "tool_name"@);
    lemma_is_filled_in(p, entries, 14);
    lemma_tracked(middle, id, now, "test_runner"@);
    lemma_is_filled_in(p, entries, 15);
    lemma_tracked(middle, id, now, "status"@);
    lemma_is_filled_in(p, entries, 16);
    lemma_tracked(middle, id, now, "summary"@);
    lemma_is_filled_in(p, entries, 17);
    lemma_tracked(middle, id, now, "error_message"@);
    lemma_is_filled_in(p, entries, 18);
    lemma_tracked(middle, id, now, "error_summary"@);
    lemma_is_filled_in(p, entries, 19);
    lemma_tracked(middle, id, now, "event_timestamp"@);
    lemma_is_filled_in(p, entries, 20);
    lemma_tracked(middle, id, now, "raw_event"@);
    lemma_is_filled_in(p, entries, 21);
    lemma_tracked(middle, id, now, "contract_event"@);
}

/// The events of the contract between the tools and the router.
pub open spec fn is_stage(name: Seq<char>) -> bool {
    name == "started"@ || name == "blocked"@ || name == "finished"@ || name == "failed"@ || name
        == "retry-needed"@ || name == "pr-created"@ || name == "test-started"@ || name
        == "test-finished"@ || name == "test-failed"@ || name == "handoff-needed"@
}

/// An event that OMX sends, with the stage in its context, is one of a session in that stage.
pub proof fn law_omx_event_is_one_of_a_session(
    event: EventView,
    id: Seq<char>,
    now: Seq<char>,
    stage: Seq<char>,
)
    requires
        event.payload is Object,
        json::field_at(event.payload, "/context/normalized_event"@) == Some(stage),
        is_stage(stage),
    ensures
        normalize::normalized(event, id, now).kind == "session."@ + stage,
        says_in_one_form(event, normalize::normalized(event, id, now).payload, "omx"@, stage),
{
    lemma_contract(event, id, now, ContractView { tool: "omx"@, event: stage });
}

/// An event that OMC sends, with a route key in its signal, is one of a session in the stage
/// that the key names.
pub proof fn law_omc_event_is_one_of_a_session(
    event: EventView,
    id: Seq<char>,
    now: Seq<char>,
    key: Seq<char>,
    stage: Seq<char>,
)
    requires
        event.payload is Object,
        json::field_at(event.payload, "/context/normalized_event"@) is None,
        json::field_at(event.payload, "/signal/routeKey"@) == Some(key),
        is_stage(stage),
        key == "session."@ + stage || (key == "pull-request.created"@ && stage == "pr-created"@),
        !stage.contains('.'),
        "pull-request.created"@ != "session."@ + stage,
    ensures
        normalize::normalized(event, id, now).kind == "session."@ + stage,
        says_in_one_form(event, normalize::normalized(event, id, now).payload, "omc"@, stage),
{
    if key == "session."@ + stage {
        reveal_strlit("session.");
        assert(key.subrange(0, 8) =~= "session."@);
        assert(key.skip(8) =~= stage);
        lemma_no_point(stage);
    }
    assert(normalize::route_key_event(key) == Some(stage));
    lemma_contract(event, id, now, ContractView { tool: "omc"@, event: stage });
}

proof fn lemma_no_point(s: Seq<char>)
    requires
        !s.contains('.'),
    ensures
        scan::replaced(s, "."@, "-"@) == s,
    decreases s.len(),
{
    reveal_strlit(".");
    if s.len() > 0 {
        let rest = s.skip(1);
        assert(s[0] != '.');
        if text::begins_with(s, "."@) {
            assert(s.subrange(0, 1)[0] == "."@[0]);
        }
        assert(!rest.contains('.')) by {
            if rest.contains('.') {
                let i = choose|i: int| 0 <= i < rest.len() && rest[i] == '.';
                assert(s[i + 1] == '.');
            }
        }
        lemma_no_point(rest);
        assert(seq![s[0]] + rest =~= s);
    }
}

/// An event that neither tool sent keeps its kind, and says nothing that it did not, but for
/// the tool and the status of an agent.
pub proof fn law_other_events_keep_their_kind(
    event: EventView,
    id: Seq<char>,
    now: Seq<char>,
    key: Seq<char>,
)
    requires
        event.payload is Object,
        json::field_at(event.payload, "/context/normalized_event"@) is None,
        json::field_at(event.payload, "/signal/routeKey"@) is None,
        key != "event_id"@,
        key != "correlation_id"@,
        key != "first_seen_at"@,
    ensures
        ({
            let kind = events::canonical_kind(event.kind);
            let n = normalize::normalized(event, id, now);
            let agent = kind == "agent.started"@ || kind == "agent.blocked"@ || kind
                == "agent.finished"@ || kind == "agent.failed"@;
            &&& n.kind == kind
            &&& !agent ==> json::member(n.payload, key) == json::member(event.payload, key)
            &&& agent && key != "tool"@ && key != "status"@ ==> json::member(n.payload, key)
                == json::member(event.payload, key)
            &&& agent ==> filled_in(
                event.payload,
                n.payload,
                "tool"@,
                text_node(json::field(event.payload, "agent_name"@)),
            )
            &&& kind == "agent.started"@ ==> filled_in(
                event.payload,
                n.payload,
                "status"@,
                Some(Node::Text("started"@)),
            )
            &&& kind == "agent.blocked"@ ==> filled_in(
                event.payload,
                n.payload,
                "status"@,
                Some(Node::Text("blocked"@)),
            )
            &&& kind == "agent.finished"@ ==> filled_in(
                event.payload,
                n.payload,
                "status"@,
                Some(Node::Text("finished"@)),
            )
            &&& kind == "agent.failed"@ ==> filled_in(
                event.payload,
                n.payload,
                "status"@,
                Some(Node::Text("failed"@)),
            )
        }),
{
    let p = event.payload;
    let kind = events::canonical_kind(event.kind);
    lemma_names();
    lemma_agent_kinds();
    lemma_unified_is_object(event);
    let middle = normalize::unified(event);
    lemma_tracked(middle, id, now, key);
    lemma_tracked(middle, id, now, "tool"@);
    lemma_tracked(middle, id, now, "status"@);
    match normalize::agent_status(kind) {
        Some(status) => {
            let entries = normalize::agent_entries(p, status);
            assert(keys_differ(entries));
            lemma_is_filled_in(p, entries, 0);
            lemma_is_filled_in(p, entries, 1);
            if key != "tool"@ && key != "status"@ {
                assert forall|i: int| 0 <= i < entries.len() implies (#[trigger] entries[i]).0
                    != key by {}
                lemma_others_stay(p, entries, key);
            }
        },
        None => {},
    }
}

proof fn lemma_agent_kinds()
    ensures
        "agent.started"@ != "agent.blocked"@,
        "agent.started"@ != "agent.finished"@,
        "agent.started"@ != "agent.failed"@,
        "agent.blocked"@ != "agent.finished"@,
        "agent.blocked"@ != "agent.failed"@,
        "agent.finished"@ != "agent.failed"@,
{
    reveal_strlit("agent.started");
    reveal_strlit("agent.blocked");
    reveal_strlit("agent.finished");
    reveal_strlit("agent.failed");
    assert("agent.started"@.len() == 13);
    assert("agent.started"@[6] == 's');
    assert("agent.blocked"@.len() == 13);
    assert("agent.blocked"@[6] == 'b');
    assert("agent.finished"@.len() == 14);
    assert("agent.failed"@.len() == 12);
}

/// The number of a pull request stands in its address behind the first `/pull/`, up to the next
/// slash.
pub proof fn law_number_of_a_pull_request(before: Seq<char>, n: u64, rest: Seq<char>)
    requires
        forall|i: int|
            0 <= i < before.len() ==> !#[trigger] text::occurs_at(
                before + "/pull/"@ + compose::decimal(n as nat),
                "/pull/"@,
                i,
            ) && !text::occurs_at(
                before + "/pull/"@ + (compose::decimal(n as nat) + seq!['/'] + rest),
                "/pull/"@,
                i,
            ),
    ensures
        normalize::pr_number_in(Some(before + "/pull/"@ + compose::decimal(n as nat))) == Some(n),
        normalize::pr_number_in(
            Some(before + "/pull/"@ + (compose::decimal(n as nat) + seq!['/'] + rest)),
        ) == Some(n),
        normalize::pr_number_in(None) is None,
{
    let digits = compose::decimal(n as nat);
    let tail = digits + seq!['/'] + rest;
    assert forall|i: int| 0 <= i < before.len() implies !#[trigger] text::occurs_at(
        before + "/pull/"@ + tail,
        "/pull/"@,
        i,
    ) by {
        assert(!text::occurs_at(before + "/pull/"@ + digits, "/pull/"@, i));
    }
    scan_laws::law_after_first_occurrence(before, "/pull/"@, digits);
    scan_laws::law_after_first_occurrence(before, "/pull/"@, tail);
    cron_laws::law_decimal_is_read_back(n as nat);
    if digits.contains('/') {
        let i = choose|i: int| 0 <= i < digits.len() && digits[i] == '/';
        assert(scan::is_digit(digits[i]));
    }
    scan_laws::law_first_separator_parts(digits, '/', rest);
    scan_laws::law_number_of_a_text(n as nat, u64::MAX as nat);
}

} // verus!
