//! What each state file of a workspace tells when it changes.
use vstd::prelude::*;
use vstd::string::*;

use crate::compose;
use crate::config::WorkspaceMonitorView;
use crate::events::EventView;
use crate::glob;
use crate::json;
use crate::json::Node;
use crate::json_laws;
use crate::text;
use crate::workspace_diff;
use crate::workspace_diff::MatchView;

verus! {

/// A text of a payload, where there is one.
pub open spec fn text_node(o: Option<Seq<char>>) -> Option<Node> {
    match o {
        Some(s) => Some(Node::Text(s)),
        None => None,
    }
}

/// A number of a payload, where there is one.
pub open spec fn count_node(o: Option<u64>) -> Option<Node> {
    match o {
        Some(n) => Some(json::whole(n)),
        None => None,
    }
}

/// A text of a payload, unless it is empty.
pub open spec fn unless_empty(s: Seq<char>) -> Option<Node> {
    if s.len() > 0 {
        Some(Node::Text(s))
    } else {
        None
    }
}

/// A monitor lets a kind through: one of its patterns fits, or it has none.
pub open spec fn lets_through(monitor: WorkspaceMonitorView, kind: Seq<char>) -> bool {
    monitor.events.len() == 0 || exists|i: int|
        0 <= i < monitor.events.len() && glob::fits(#[trigger] monitor.events[i], kind)
}

proof fn lemma_lets_through(patterns: Seq<Seq<char>>, kind: Seq<char>)
    ensures
        workspace_diff::some_fits(patterns, kind) <==> exists|i: int|
            0 <= i < patterns.len() && glob::fits(#[trigger] patterns[i], kind),
    decreases patterns.len(),
{
    if patterns.len() > 0 {
        let front = patterns.drop_last();
        lemma_lets_through(front, kind);
        assert(patterns[patterns.len() - 1] == patterns.last());
        if workspace_diff::some_fits(front, kind) {
            let i = choose|i: int|
                0 <= i < front.len() && glob::fits(#[trigger] front[i], kind);
            assert(glob::fits(patterns[i], kind));
        }
        if exists|i: int| 0 <= i < patterns.len() && glob::fits(#[trigger] patterns[i], kind) {
            let i = choose|i: int|
                0 <= i < patterns.len() && glob::fits(#[trigger] patterns[i], kind);
            if i < front.len() {
                assert(glob::fits(front[i], kind));
            }
        }
    }
}

/// An event of a workspace goes where its monitor says, and says where the file lies and which
/// tool wrote it.
pub open spec fn goes_out(m: MatchView, e: EventView, kind: Seq<char>, node: Node) -> bool {
    &&& e.kind == kind
    &&& e.channel == m.monitor.channel
    &&& e.mention == m.monitor.mention
    &&& e.format == m.monitor.format
    &&& e.template is None
    &&& json::member(e.payload, "workspace_root"@) == unless_empty(m.workspace_root)
    &&& json::member(e.payload, "workspace_name"@) == unless_empty(m.workspace_name)
    &&& json::member(e.payload, "monitor_path"@) == unless_empty(m.monitor.path)
    &&& json::member(e.payload, "state_family"@) == unless_empty(m.state_family)
    &&& json::member(e.payload, "state_dir"@) == unless_empty(m.watch_dir)
    &&& json::member(e.payload, "state_file"@) == unless_empty(m.state_file)
    &&& json::member(e.payload, "tool"@) == text_node(json::field(node, "tool"@))
}

/// What stands under a key of a file, where there is a file.
pub open spec fn said(o: Option<Node>, key: Seq<char>) -> Option<Seq<char>> {
    match o {
        Some(node) => json::field(node, key),
        None => None,
    }
}

/// The number under a key of a file, where there is a file.
pub open spec fn counted(o: Option<Node>, key: Seq<char>) -> Option<u64> {
    match o {
        Some(node) => json::count(node, key),
        None => None,
    }
}

/// The number under a key of a file, or zero.
pub open spec fn number(o: Option<Node>, key: Seq<char>) -> int {
    match counted(o, key) {
        Some(n) => n as int,
        None => 0,
    }
}

/// The flag under a key of a file is set.
pub open spec fn is_set(o: Option<Node>, key: Seq<char>) -> bool {
    match o {
        Some(node) => json::member(node, key) == Some(Node::Bool(true)),
        None => false,
    }
}

/// A session file that appears tells of a session that started.
#[verifier::rlimit(60)]
pub proof fn law_started_session_is_told(m: MatchView, previous: Option<Node>, now: Node)
    requires
        m.state_file == "session.json"@,
        previous is None,
    ensures
        ({
            let r = workspace_diff::allowed_change(m, previous, Some(now));
            &&& (r is Some <==> (true) && lets_through(m.monitor, "workspace.session.started"@))
            &&& match r {
                Some(e) => {
                    &&& goes_out(m, e, "workspace.session.started"@, now)
                    &&& json::member(e.payload, "session_id"@) == text_node(
                        json::field(now, "session_id"@),
                    )
                    &&& json::member(e.payload, "started_at"@) == text_node(
                        json::field(now, "started_at"@),
                    )
                    &&& json::member(e.payload, "pid"@) == count_node(json::count(now, "pid"@))
                    &&& json::member(e.payload, "cwd"@) == text_node(json::field(now, "cwd"@))
                    &&& json::member(e.payload, "summary"@) == Some(
                        Node::Text("workspace session started"@),
                    )
                },
                None => true,
            }
        }),
{
    broadcast use {json_laws::group_members, json_laws::group_optional_members};

    lemma_lets_through(m.monitor.events, "workspace.session.started"@);
    reveal_strlit("session.json");
    assert("session.json"@.len() == 12);
    reveal_strlit("workspace.session.started");
    reveal_strlit("issue-opened");
    assert("workspace.session.started"@.len() == 25);
    assert("issue-opened"@.len() == 12);
    reveal_strlit("workspace_root");
    reveal_strlit("workspace_name");
    reveal_strlit("monitor_path");
    reveal_strlit("state_family");
    reveal_strlit("state_dir");
    reveal_strlit("state_file");
    reveal_strlit("tool");
    reveal_strlit("session_id");
    reveal_strlit("started_at");
    reveal_strlit("pid");
    reveal_strlit("cwd");
    reveal_strlit("summary");
    assert("workspace_root"@.len() == 14);
    assert("workspace_root"@[10] == 'r');
    assert("workspace_name"@.len() == 14);
    assert("workspace_name"@[10] == 'n');
    assert("monitor_path"@.len() == 12);
    assert("monitor_path"@[0] == 'm');
    assert("state_family"@.len() == 12);
    assert("state_family"@[0] == 's');
    assert("state_dir"@.len() == 9);
    assert("state_file"@.len() == 10);
    assert("state_file"@[1] == 't');
    assert("state_file"@[3] == 't');
    assert("tool"@.len() == 4);
    assert("session_id"@.len() == 10);
    assert("session_id"@[1] == 'e');
    assert("started_at"@.len() == 10);
    assert("started_at"@[1] == 't');
    assert("started_at"@[3] == 'r');
    assert("pid"@.len() == 3);
    assert("pid"@[0] == 'p');
    assert("cwd"@.len() == 3);
    assert("cwd"@[0] == 'c');
    assert("summary"@.len() == 7);
}

/// A session file with another session tells of that one and of the one before.
#[verifier::rlimit(60)]
pub proof fn law_rotated_session_is_told(m: MatchView, previous: Option<Node>, now: Node)
    requires
        m.state_file == "session.json"@,
        previous is Some,
    ensures
        ({
            let r = workspace_diff::allowed_change(m, previous, Some(now));
            &&& (
                r is Some <==> (said(previous, "session_id"@) != json::field(now, "session_id"@))
                    && lets_through(m.monitor, "workspace.session.started"@)
            )
            &&& match r {
                Some(e) => {
                    &&& goes_out(m, e, "workspace.session.started"@, now)
                    &&& json::member(e.payload, "session_id"@) == text_node(
                        json::field(now, "session_id"@),
                    )
                    &&& json::member(
                        e.payload,
                        "previous_session_id"@,
                    ) == text_node(said(previous, "session_id"@))
                    &&& json::member(e.payload, "started_at"@) == text_node(
                        json::field(now, "started_at"@),
                    )
                    &&& json::member(e.payload, "pid"@) == count_node(json::count(now, "pid"@))
                    &&& json::member(e.payload, "cwd"@) == text_node(json::field(now, "cwd"@))
                    &&& json::member(e.payload, "summary"@) == Some(
                        Node::Text("workspace session rotated"@),
                    )
                },
                None => true,
            }
        }),
{
    broadcast use {json_laws::group_members, json_laws::group_optional_members};

    lemma_lets_through(m.monitor.events, "workspace.session.started"@);
    reveal_strlit("session.json");
    assert("session.json"@.len() == 12);
    reveal_strlit("workspace.session.started");
    reveal_strlit("issue-opened");
    assert("workspace.session.started"@.len() == 25);
    assert("issue-opened"@.len() == 12);
    reveal_strlit("workspace_root");
    reveal_strlit("workspace_name");
    reveal_strlit("monitor_path");
    reveal_strlit("state_family");
    reveal_strlit("state_dir");
    reveal_strlit("state_file");
    reveal_strlit("tool");
    reveal_strlit("session_id");
    reveal_strlit("previous_session_id");
    reveal_strlit("started_at");
    reveal_strlit("pid");
    reveal_strlit("cwd");
    reveal_strlit("summary");
    assert("workspace_root"@.len() == 14);
    assert("workspace_root"@[10] == 'r');
    assert("workspace_name"@.len() == 14);
    assert("workspace_name"@[10] == 'n');
    assert("monitor_path"@.len() == 12);
    assert("monitor_path"@[0] == 'm');
    assert("state_family"@.len() == 12);
    assert("state_family"@[0] == 's');
    assert("state_dir"@.len() == 9);
    assert("state_file"@.len() == 10);
    assert("state_file"@[1] == 't');
    assert("state_file"@[3] == 't');
    assert("tool"@.len() == 4);
    assert("session_id"@.len() == 10);
    assert("session_id"@[1] == 'e');
    assert("previous_session_id"@.len() == 19);
    assert("started_at"@.len() == 10);
    assert("started_at"@[1] == 't');
    assert("started_at"@[3] == 'r');
    assert("pid"@.len() == 3);
    assert("pid"@[0] == 'p');
    assert("cwd"@.len() == 3);
    assert("cwd"@[0] == 'c');
    assert("summary"@.len() == 7);
}

/// A turn is told when there are more of them than before or the last one is another, with how
/// many there are and how many more.
#[verifier::rlimit(60)]
pub proof fn law_turn_is_told(m: MatchView, previous: Option<Node>, now: Node)
    requires
        m.state_file == "hud-state.json"@,
    ensures
        ({
            let r = workspace_diff::allowed_change(m, previous, Some(now));
            let turns = number(Some(now), "turn_count"@);
            let before = number(previous, "turn_count"@);
            let delta = if turns > before {
                turns - before
            } else {
                0
            };
            &&& (
                r is Some <==> (
                    json::count(now, "turn_count"@) is Some
                        && (
                            previous is None
                                || json::count(now, "turn_count"@)->0 > number(
                                    previous,
                                    "turn_count"@,
                                )
                                || said(
                                    previous,
                                    "last_turn_at"@,
                                ) != json::field(now, "last_turn_at"@)
                        )
                )
                    && lets_through(m.monitor, "workspace.turn.complete"@)
            )
            &&& match r {
                Some(e) => {
                    &&& goes_out(m, e, "workspace.turn.complete"@, now)
                    &&& json::member(e.payload, "turn_count"@) == count_node(
                        json::count(now, "turn_count"@),
                    )
                    &&& json::member(e.payload, "turn_delta"@) == Some(json::whole(delta as u64))
                    &&& json::member(e.payload, "last_turn_at"@) == text_node(
                        json::field(now, "last_turn_at"@),
                    )
                    &&& json::member(e.payload, "last_agent_output"@) == text_node(
                        json::field(now, "last_agent_output"@),
                    )
                    &&& json::member(e.payload, "summary"@) == Some(
                        Node::Text(
                            "turn "@ + compose::decimal(
                                number(Some(now), "turn_count"@) as nat,
                            ) + " complete"@,
                        ),
                    )
                },
                None => true,
            }
        }),
{
    broadcast use {json_laws::group_members, json_laws::group_optional_members};

    lemma_lets_through(m.monitor.events, "workspace.turn.complete"@);
    reveal_strlit("hud-state.json");
    reveal_strlit("session.json");
    assert("hud-state.json"@.len() == 14);
    assert("session.json"@.len() == 12);
    reveal_strlit("workspace.turn.complete");
    reveal_strlit("issue-opened");
    assert("workspace.turn.complete"@.len() == 23);
    assert("issue-opened"@.len() == 12);
    reveal_strlit("workspace_root");
    reveal_strlit("workspace_name");
    reveal_strlit("monitor_path");
    reveal_strlit("state_family");
    reveal_strlit("state_dir");
    reveal_strlit("state_file");
    reveal_strlit("tool");
    reveal_strlit("turn_count");
    reveal_strlit("turn_delta");
    reveal_strlit("last_turn_at");
    reveal_strlit("last_agent_output");
    reveal_strlit("summary");
    assert("workspace_root"@.len() == 14);
    assert("workspace_root"@[10] == 'r');
    assert("workspace_name"@.len() == 14);
    assert("workspace_name"@[10] == 'n');
    assert("monitor_path"@.len() == 12);
    assert("monitor_path"@[0] == 'm');
    assert("state_family"@.len() == 12);
    assert("state_family"@[0] == 's');
    assert("state_dir"@.len() == 9);
    assert("state_file"@.len() == 10);
    assert("state_file"@[0] == 's');
    assert("tool"@.len() == 4);
    assert("turn_count"@.len() == 10);
    assert("turn_count"@[0] == 't');
    assert("turn_count"@[5] == 'c');
    assert("turn_delta"@.len() == 10);
    assert("turn_delta"@[0] == 't');
    assert("turn_delta"@[5] == 'd');
    assert("last_turn_at"@.len() == 12);
    assert("last_turn_at"@[0] == 'l');
    assert("last_agent_output"@.len() == 17);
    assert("summary"@.len() == 7);
}

/// Metrics that change are told whole.
pub proof fn law_metrics_are_told(m: MatchView, previous: Option<Node>, now: Node)
    requires
        m.state_file == "metrics.json"@,
    ensures
        ({
            let r = workspace_diff::allowed_change(m, previous, Some(now));
            &&& (
                r is Some <==> (previous is None || previous != Some(now))
                    && lets_through(m.monitor, "workspace.metrics.updated"@)
            )
            &&& match r {
                Some(e) => {
                    &&& goes_out(m, e, "workspace.metrics.updated"@, now)
                    &&& json::member(e.payload, "summary"@) == Some(
                        Node::Text("workspace metrics updated"@),
                    )
                    &&& json::member(e.payload, "metrics"@) == Some(now)
                },
                None => true,
            }
        }),
{
    broadcast use {json_laws::group_members, json_laws::group_optional_members};

    lemma_lets_through(m.monitor.events, "workspace.metrics.updated"@);
    reveal_strlit("metrics.json");
    reveal_strlit("session.json");
    reveal_strlit("hud-state.json");
    reveal_strlit("notify-hook-state.json");
    reveal_strlit("skill-active-state.json");
    assert("metrics.json"@.len() == 12);
    assert("metrics.json"@[0] == 'm');
    assert("session.json"@.len() == 12);
    assert("session.json"@[0] == 's');
    assert("hud-state.json"@.len() == 14);
    assert("notify-hook-state.json"@.len() == 22);
    assert("skill-active-state.json"@.len() == 23);
    reveal_strlit("workspace.metrics.updated");
    reveal_strlit("issue-opened");
    assert("workspace.metrics.updated"@.len() == 25);
    assert("issue-opened"@.len() == 12);
    reveal_strlit("workspace_root");
    reveal_strlit("workspace_name");
    reveal_strlit("monitor_path");
    reveal_strlit("state_family");
    reveal_strlit("state_dir");
    reveal_strlit("state_file");
    reveal_strlit("tool");
    reveal_strlit("summary");
    reveal_strlit("metrics");
    assert("workspace_root"@.len() == 14);
    assert("workspace_root"@[10] == 'r');
    assert("workspace_name"@.len() == 14);
    assert("workspace_name"@[10] == 'n');
    assert("monitor_path"@.len() == 12);
    assert("monitor_path"@[0] == 'm');
    assert("state_family"@.len() == 12);
    assert("state_family"@[0] == 's');
    assert("state_dir"@.len() == 9);
    assert("state_file"@.len() == 10);
    assert("tool"@.len() == 4);
    assert("summary"@.len() == 7);
    assert("summary"@[0] == 's');
    assert("metrics"@.len() == 7);
    assert("metrics"@[0] == 'm');
}

/// Injections are told when their number is another, with how many there are and how many more.
#[verifier::rlimit(60)]
pub proof fn law_injections_are_told(m: MatchView, previous: Option<Node>, now: Node)
    requires
        m.state_file == "tmux-hook-state.json"@,
    ensures
        ({
            let r = workspace_diff::allowed_change(m, previous, Some(now));
            let total = number(Some(now), "total_injections"@);
            let before = number(previous, "total_injections"@);
            let delta = if total > before {
                total - before
            } else {
                0
            };
            &&& (
                r is Some <==> (
                    json::count(now, "total_injections"@) is Some
                        && (
                            previous is None
                                || json::count(now, "total_injections"@)->0 != number(
                                    previous,
                                    "total_injections"@,
                                )
                        )
                )
                    && lets_through(m.monitor, "workspace.tmux.injection"@)
            )
            &&& match r {
                Some(e) => {
                    &&& goes_out(m, e, "workspace.tmux.injection"@, now)
                    &&& json::member(e.payload, "total_injections"@) == count_node(
                        json::count(now, "total_injections"@),
                    )
                    &&& json::member(
                        e.payload,
                        "injection_delta"@,
                    ) == Some(json::whole(delta as u64))
                    &&& json::member(e.payload, "last_reason"@) == text_node(
                        json::field(now, "last_reason"@),
                    )
                    &&& json::member(e.payload, "last_event_at"@) == text_node(
                        json::field(now, "last_event_at"@),
                    )
                    &&& json::member(e.payload, "summary"@) == Some(
                        Node::Text("tmux injection state changed"@),
                    )
                },
                None => true,
            }
        }),
{
    broadcast use {json_laws::group_members, json_laws::group_optional_members};

    lemma_lets_through(m.monitor.events, "workspace.tmux.injection"@);
    reveal_strlit("tmux-hook-state.json");
    reveal_strlit("session.json");
    reveal_strlit("hud-state.json");
    reveal_strlit("notify-hook-state.json");
    reveal_strlit("skill-active-state.json");
    reveal_strlit("metrics.json");
    assert("tmux-hook-state.json"@.len() == 20);
    assert("session.json"@.len() == 12);
    assert("hud-state.json"@.len() == 14);
    assert("notify-hook-state.json"@.len() == 22);
    assert("skill-active-state.json"@.len() == 23);
    assert("metrics.json"@.len() == 12);
    reveal_strlit("workspace.tmux.injection");
    reveal_strlit("issue-opened");
    assert("workspace.tmux.injection"@.len() == 24);
    assert("issue-opened"@.len() == 12);
    reveal_strlit("workspace_root");
    reveal_strlit("workspace_name");
    reveal_strlit("monitor_path");
    reveal_strlit("state_family");
    reveal_strlit("state_dir");
    reveal_strlit("state_file");
    reveal_strlit("tool");
    reveal_strlit("total_injections");
    reveal_strlit("injection_delta");
    reveal_strlit("last_reason");
    reveal_strlit("last_event_at");
    reveal_strlit("summary");
    assert("workspace_root"@.len() == 14);
    assert("workspace_root"@[10] == 'r');
    assert("workspace_name"@.len() == 14);
    assert("workspace_name"@[10] == 'n');
    assert("monitor_path"@.len() == 12);
    assert("monitor_path"@[0] == 'm');
    assert("state_family"@.len() == 12);
    assert("state_family"@[0] == 's');
    assert("state_dir"@.len() == 9);
    assert("state_file"@.len() == 10);
    assert("tool"@.len() == 4);
    assert("total_injections"@.len() == 16);
    assert("injection_delta"@.len() == 15);
    assert("last_reason"@.len() == 11);
    assert("last_event_at"@.len() == 13);
    assert("summary"@.len() == 7);
}

/// A change of the nudges of a team leader is told.
pub proof fn law_nudges_are_told(m: MatchView, previous: Option<Node>, now: Node)
    requires
        m.state_file == "team-leader-nudge.json"@,
    ensures
        ({
            let r = workspace_diff::allowed_change(m, previous, Some(now));
            &&& (
                r is Some <==> (previous is None || previous != Some(now))
                    && lets_through(m.monitor, "workspace.team.nudged"@)
            )
            &&& match r {
                Some(e) => {
                    &&& goes_out(m, e, "workspace.team.nudged"@, now)
                    &&& json::member(e.payload, "last_nudged_by_team"@) == text_node(
                        json::field(now, "last_nudged_by_team"@),
                    )
                    &&& json::member(e.payload, "last_idle_nudged_by_team"@) == text_node(
                        json::field(now, "last_idle_nudged_by_team"@),
                    )
                    &&& json::member(e.payload, "summary"@) == Some(
                        Node::Text("team leader nudge state changed"@),
                    )
                },
                None => true,
            }
        }),
{
    broadcast use {json_laws::group_members, json_laws::group_optional_members};

    lemma_lets_through(m.monitor.events, "workspace.team.nudged"@);
    reveal_strlit("team-leader-nudge.json");
    reveal_strlit("session.json");
    reveal_strlit("hud-state.json");
    reveal_strlit("notify-hook-state.json");
    reveal_strlit("skill-active-state.json");
    reveal_strlit("metrics.json");
    reveal_strlit("tmux-hook-state.json");
    assert("team-leader-nudge.json"@.len() == 22);
    assert("team-leader-nudge.json"@[0] == 't');
    assert("session.json"@.len() == 12);
    assert("hud-state.json"@.len() == 14);
    assert("notify-hook-state.json"@.len() == 22);
    assert("notify-hook-state.json"@[0] == 'n');
    assert("skill-active-state.json"@.len() == 23);
    assert("metrics.json"@.len() == 12);
    assert("tmux-hook-state.json"@.len() == 20);
    reveal_strlit("workspace.team.nudged");
    reveal_strlit("issue-opened");
    assert("workspace.team.nudged"@.len() == 21);
    assert("issue-opened"@.len() == 12);
    reveal_strlit("workspace_root");
    reveal_strlit("workspace_name");
    reveal_strlit("monitor_path");
    reveal_strlit("state_family");
    reveal_strlit("state_dir");
    reveal_strlit("state_file");
    reveal_strlit("tool");
    reveal_strlit("last_nudged_by_team");
    reveal_strlit("last_idle_nudged_by_team");
    reveal_strlit("summary");
    assert("workspace_root"@.len() == 14);
    assert("workspace_root"@[10] == 'r');
    assert("workspace_name"@.len() == 14);
    assert("workspace_name"@[10] == 'n');
    assert("monitor_path"@.len() == 12);
    assert("monitor_path"@[0] == 'm');
    assert("state_family"@.len() == 12);
    assert("state_family"@[0] == 's');
    assert("state_dir"@.len() == 9);
    assert("state_file"@.len() == 10);
    assert("tool"@.len() == 4);
    assert("last_nudged_by_team"@.len() == 19);
    assert("last_idle_nudged_by_team"@.len() == 24);
    assert("summary"@.len() == 7);
}

/// A fallback of the notifications is told when it is new or another process.
#[verifier::rlimit(60)]
pub proof fn law_fallback_is_told(m: MatchView, previous: Option<Node>, now: Node)
    requires
        m.state_file == "notify-fallback-state.json"@,
    ensures
        ({
            let r = workspace_diff::allowed_change(m, previous, Some(now));
            &&& (
                r is Some <==> (
                    previous is None || counted(previous, "pid"@) != json::count(now, "pid"@)
                )
                    && lets_through(m.monitor, "workspace.session.blocked"@)
            )
            &&& match r {
                Some(e) => {
                    &&& goes_out(m, e, "workspace.session.blocked"@, now)
                    &&& json::member(e.payload, "pid"@) == count_node(json::count(now, "pid"@))
                    &&& json::member(e.payload, "parent_pid"@) == count_node(
                        json::count(now, "parent_pid"@),
                    )
                    &&& json::member(e.payload, "notify_script"@) == text_node(
                        json::field(now, "notify_script"@),
                    )
                    &&& json::member(e.payload, "started_at"@) == text_node(
                        json::field(now, "started_at"@),
                    )
                    &&& json::member(e.payload, "cwd"@) == text_node(json::field(now, "cwd"@))
                    &&& json::member(e.payload, "summary"@) == Some(
                        Node::Text("notify fallback monitor active"@),
                    )
                },
                None => true,
            }
        }),
{
    broadcast use {json_laws::group_members, json_laws::group_optional_members};

    lemma_lets_through(m.monitor.events, "workspace.session.blocked"@);
    reveal_strlit("notify-fallback-state.json");
    reveal_strlit("session.json");
    reveal_strlit("hud-state.json");
    reveal_strlit("notify-hook-state.json");
    reveal_strlit("skill-active-state.json");
    reveal_strlit("metrics.json");
    reveal_strlit("tmux-hook-state.json");
    reveal_strlit("team-leader-nudge.json");
    assert("notify-fallback-state.json"@.len() == 26);
    assert("session.json"@.len() == 12);
    assert("hud-state.json"@.len() == 14);
    assert("notify-hook-state.json"@.len() == 22);
    assert("skill-active-state.json"@.len() == 23);
    assert("metrics.json"@.len() == 12);
    assert("tmux-hook-state.json"@.len() == 20);
    assert("team-leader-nudge.json"@.len() == 22);
    reveal_strlit("workspace.session.blocked");
    reveal_strlit("issue-opened");
    assert("workspace.session.blocked"@.len() == 25);
    assert("issue-opened"@.len() == 12);
    reveal_strlit("workspace_root");
    reveal_strlit("workspace_name");
    reveal_strlit("monitor_path");
    reveal_strlit("state_family");
    reveal_strlit("state_dir");
    reveal_strlit("state_file");
    reveal_strlit("tool");
    reveal_strlit("pid");
    reveal_strlit("parent_pid");
    reveal_strlit("notify_script");
    reveal_strlit("started_at");
    reveal_strlit("cwd");
    reveal_strlit("summary");
    assert("workspace_root"@.len() == 14);
    assert("workspace_root"@[10] == 'r');
    assert("workspace_name"@.len() == 14);
    assert("workspace_name"@[10] == 'n');
    assert("monitor_path"@.len() == 12);
    assert("monitor_path"@[0] == 'm');
    assert("state_family"@.len() == 12);
    assert("state_family"@[0] == 's');
    assert("state_dir"@.len() == 9);
    assert("state_file"@.len() == 10);
    assert("state_file"@[0] == 's');
    assert("state_file"@[3] == 't');
    assert("tool"@.len() == 4);
    assert("pid"@.len() == 3);
    assert("pid"@[0] == 'p');
    assert("parent_pid"@.len() == 10);
    assert("parent_pid"@[0] == 'p');
    assert("notify_script"@.len() == 13);
    assert("started_at"@.len() == 10);
    assert("started_at"@[0] == 's');
    assert("started_at"@[3] == 'r');
    assert("cwd"@.len() == 3);
    assert("cwd"@[0] == 'c');
    assert("summary"@.len() == 7);
}

/// Missions are told when they were updated at another time, with how many there are.
pub proof fn law_missions_are_told(m: MatchView, previous: Option<Node>, now: Node)
    requires
        m.state_file == "mission-state.json"@,
    ensures
        ({
            let r = workspace_diff::allowed_change(m, previous, Some(now));
            &&& (
                r is Some <==> (
                    previous is None
                        || said(previous, "updatedAt"@) != json::field(now, "updatedAt"@)
                )
                    && lets_through(m.monitor, "workspace.mission.updated"@)
            )
            &&& match r {
                Some(e) => {
                    &&& goes_out(m, e, "workspace.mission.updated"@, now)
                    &&& json::member(e.payload, "updated_at"@) == text_node(
                        json::field(now, "updatedAt"@),
                    )
                    &&& json::member(e.payload, "mission_count"@) == (
                        match json::items(now, "missions"@) {
                            Some(list) => Some(json::whole(list.len() as u64)),
                            None => None,
                        }
                    )
                    &&& json::member(e.payload, "summary"@) == Some(
                        Node::Text("mission state updated"@),
                    )
                },
                None => true,
            }
        }),
{
    broadcast use {json_laws::group_members, json_laws::group_optional_members};

    lemma_lets_through(m.monitor.events, "workspace.mission.updated"@);
    reveal_strlit("mission-state.json");
    reveal_strlit("session.json");
    reveal_strlit("hud-state.json");
    reveal_strlit("notify-hook-state.json");
    reveal_strlit("skill-active-state.json");
    reveal_strlit("metrics.json");
    reveal_strlit("tmux-hook-state.json");
    reveal_strlit("team-leader-nudge.json");
    reveal_strlit("notify-fallback-state.json");
    assert("mission-state.json"@.len() == 18);
    assert("session.json"@.len() == 12);
    assert("hud-state.json"@.len() == 14);
    assert("notify-hook-state.json"@.len() == 22);
    assert("skill-active-state.json"@.len() == 23);
    assert("metrics.json"@.len() == 12);
    assert("tmux-hook-state.json"@.len() == 20);
    assert("team-leader-nudge.json"@.len() == 22);
    assert("notify-fallback-state.json"@.len() == 26);
    reveal_strlit("workspace.mission.updated");
    reveal_strlit("issue-opened");
    assert("workspace.mission.updated"@.len() == 25);
    assert("issue-opened"@.len() == 12);
    reveal_strlit("workspace_root");
    reveal_strlit("workspace_name");
    reveal_strlit("monitor_path");
    reveal_strlit("state_family");
    reveal_strlit("state_dir");
    reveal_strlit("state_file");
    reveal_strlit("tool");
    reveal_strlit("updated_at");
    reveal_strlit("mission_count");
    reveal_strlit("summary");
    assert("workspace_root"@.len() == 14);
    assert("workspace_root"@[10] == 'r');
    assert("workspace_name"@.len() == 14);
    assert("workspace_name"@[10] == 'n');
    assert("monitor_path"@.len() == 12);
    assert("monitor_path"@[0] == 'm');
    assert("state_family"@.len() == 12);
    assert("state_family"@[0] == 's');
    assert("state_dir"@.len() == 9);
    assert("state_file"@.len() == 10);
    assert("state_file"@[0] == 's');
    assert("tool"@.len() == 4);
    assert("updated_at"@.len() == 10);
    assert("updated_at"@[0] == 'u');
    assert("mission_count"@.len() == 13);
    assert("summary"@.len() == 7);
}

/// A change of a team is told.
pub proof fn law_team_is_told(m: MatchView, previous: Option<Node>, now: Node)
    requires
        m.state_file == "team-state.json"@,
    ensures
        ({
            let r = workspace_diff::allowed_change(m, previous, Some(now));
            &&& (
                r is Some <==> (previous is None || previous != Some(now))
                    && lets_through(m.monitor, "workspace.team.updated"@)
            )
            &&& match r {
                Some(e) => {
                    &&& goes_out(m, e, "workspace.team.updated"@, now)
                    &&& json::member(e.payload, "summary"@) == Some(
                        Node::Text("team state updated"@),
                    )
                },
                None => true,
            }
        }),
{
    broadcast use {json_laws::group_members, json_laws::group_optional_members};

    lemma_lets_through(m.monitor.events, "workspace.team.updated"@);
    reveal_strlit("team-state.json");
    reveal_strlit("session.json");
    reveal_strlit("hud-state.json");
    reveal_strlit("notify-hook-state.json");
    reveal_strlit("skill-active-state.json");
    reveal_strlit("metrics.json");
    reveal_strlit("tmux-hook-state.json");
    reveal_strlit("team-leader-nudge.json");
    reveal_strlit("notify-fallback-state.json");
    reveal_strlit("mission-state.json");
    assert("team-state.json"@.len() == 15);
    assert("session.json"@.len() == 12);
    assert("hud-state.json"@.len() == 14);
    assert("notify-hook-state.json"@.len() == 22);
    assert("skill-active-state.json"@.len() == 23);
    assert("metrics.json"@.len() == 12);
    assert("tmux-hook-state.json"@.len() == 20);
    assert("team-leader-nudge.json"@.len() == 22);
    assert("notify-fallback-state.json"@.len() == 26);
    assert("mission-state.json"@.len() == 18);
    reveal_strlit("workspace.team.updated");
    reveal_strlit("issue-opened");
    assert("workspace.team.updated"@.len() == 22);
    assert("issue-opened"@.len() == 12);
    reveal_strlit("workspace_root");
    reveal_strlit("workspace_name");
    reveal_strlit("monitor_path");
    reveal_strlit("state_family");
    reveal_strlit("state_dir");
    reveal_strlit("state_file");
    reveal_strlit("tool");
    reveal_strlit("summary");
    assert("workspace_root"@.len() == 14);
    assert("workspace_root"@[10] == 'r');
    assert("workspace_name"@.len() == 14);
    assert("workspace_name"@[10] == 'n');
    assert("monitor_path"@.len() == 12);
    assert("monitor_path"@[0] == 'm');
    assert("state_family"@.len() == 12);
    assert("state_family"@[0] == 's');
    assert("state_dir"@.len() == 9);
    assert("state_file"@.len() == 10);
    assert("tool"@.len() == 4);
    assert("summary"@.len() == 7);
}

/// A change of the subagents is told as one of the team.
pub proof fn law_subagents_are_told(m: MatchView, previous: Option<Node>, now: Node)
    requires
        m.state_file == "subagent-tracking.json"@,
    ensures
        ({
            let r = workspace_diff::allowed_change(m, previous, Some(now));
            &&& (
                r is Some <==> (previous is None || previous != Some(now))
                    && lets_through(m.monitor, "workspace.team.updated"@)
            )
            &&& match r {
                Some(e) => {
                    &&& goes_out(m, e, "workspace.team.updated"@, now)
                    &&& json::member(e.payload, "summary"@) == Some(
                        Node::Text("subagent tracking updated"@),
                    )
                },
                None => true,
            }
        }),
{
    broadcast use {json_laws::group_members, json_laws::group_optional_members};

    lemma_lets_through(m.monitor.events, "workspace.team.updated"@);
    reveal_strlit("subagent-tracking.json");
    reveal_strlit("session.json");
    reveal_strlit("hud-state.json");
    reveal_strlit("notify-hook-state.json");
    reveal_strlit("skill-active-state.json");
    reveal_strlit("metrics.json");
    reveal_strlit("tmux-hook-state.json");
    reveal_strlit("team-leader-nudge.json");
    reveal_strlit("notify-fallback-state.json");
    reveal_strlit("mission-state.json");
    reveal_strlit("team-state.json");
    assert("subagent-tracking.json"@.len() == 22);
    assert("subagent-tracking.json"@[0] == 's');
    assert("session.json"@.len() == 12);
    assert("hud-state.json"@.len() == 14);
    assert("notify-hook-state.json"@.len() == 22);
    assert("notify-hook-state.json"@[0] == 'n');
    assert("skill-active-state.json"@.len() == 23);
    assert("metrics.json"@.len() == 12);
    assert("tmux-hook-state.json"@.len() == 20);
    assert("team-leader-nudge.json"@.len() == 22);
    assert("team-leader-nudge.json"@[0] == 't');
    assert("notify-fallback-state.json"@.len() == 26);
    assert("mission-state.json"@.len() == 18);
    assert("team-state.json"@.len() == 15);
    reveal_strlit("workspace.team.updated");
    reveal_strlit("issue-opened");
    assert("workspace.team.updated"@.len() == 22);
    assert("issue-opened"@.len() == 12);
    reveal_strlit("workspace_root");
    reveal_strlit("workspace_name");
    reveal_strlit("monitor_path");
    reveal_strlit("state_family");
    reveal_strlit("state_dir");
    reveal_strlit("state_file");
    reveal_strlit("tool");
    reveal_strlit("summary");
    assert("workspace_root"@.len() == 14);
    assert("workspace_root"@[10] == 'r');
    assert("workspace_name"@.len() == 14);
    assert("workspace_name"@[10] == 'n');
    assert("monitor_path"@.len() == 12);
    assert("monitor_path"@[0] == 'm');
    assert("state_family"@.len() == 12);
    assert("state_family"@[0] == 's');
    assert("state_dir"@.len() == 9);
    assert("state_file"@.len() == 10);
    assert("tool"@.len() == 4);
    assert("summary"@.len() == 7);
}

/// A skill that becomes active is told as such.
#[verifier::rlimit(60)]
pub proof fn law_activated_skill_is_told(m: MatchView, previous: Option<Node>, now: Node)
    requires
        m.state_file == "skill-active-state.json"@,
        !is_set(previous, "active"@) && is_set(Some(now), "active"@),
    ensures
        ({
            let r = workspace_diff::allowed_change(m, previous, Some(now));
            &&& (r is Some <==> (true) && lets_through(m.monitor, "workspace.skill.activated"@))
            &&& match r {
                Some(e) => {
                    &&& goes_out(m, e, "workspace.skill.activated"@, now)
                    &&& json::member(e.payload, "active"@) == Some(
                        Node::Bool(is_set(Some(now), "active"@)),
                    )
                    &&& json::member(e.payload, "skill"@) == text_node(json::field(now, "skill"@))
                    &&& json::member(e.payload, "phase"@) == text_node(json::field(now, "phase"@))
                    &&& json::member(e.payload, "keyword"@) == text_node(
                        json::field(now, "keyword"@),
                    )
                    &&& json::member(e.payload, "source_kind"@) == text_node(
                        json::field(now, "source"@),
                    )
                    &&& json::member(
                        e.payload,
                        "previous_skill"@,
                    ) == text_node(said(previous, "skill"@))
                    &&& json::member(
                        e.payload,
                        "previous_phase"@,
                    ) == text_node(said(previous, "phase"@))
                    &&& json::member(e.payload, "summary"@) == Some(
                        Node::Text("workspace skill state changed"@),
                    )
                },
                None => true,
            }
        }),
{
    broadcast use {json_laws::group_members, json_laws::group_optional_members};

    lemma_lets_through(m.monitor.events, "workspace.skill.activated"@);
    reveal_strlit("skill-active-state.json");
    reveal_strlit("session.json");
    reveal_strlit("hud-state.json");
    reveal_strlit("notify-hook-state.json");
    assert("skill-active-state.json"@.len() == 23);
    assert("session.json"@.len() == 12);
    assert("hud-state.json"@.len() == 14);
    assert("notify-hook-state.json"@.len() == 22);
    reveal_strlit("workspace.skill.activated");
    reveal_strlit("issue-opened");
    assert("workspace.skill.activated"@.len() == 25);
    assert("issue-opened"@.len() == 12);
    reveal_strlit("workspace_root");
    reveal_strlit("workspace_name");
    reveal_strlit("monitor_path");
    reveal_strlit("state_family");
    reveal_strlit("state_dir");
    reveal_strlit("state_file");
    reveal_strlit("tool");
    reveal_strlit("active");
    reveal_strlit("skill");
    reveal_strlit("phase");
    reveal_strlit("keyword");
    reveal_strlit("source_kind");
    reveal_strlit("previous_skill");
    reveal_strlit("previous_phase");
    reveal_strlit("summary");
    assert("workspace_root"@.len() == 14);
    assert("workspace_root"@[0] == 'w');
    assert("workspace_root"@[10] == 'r');
    assert("workspace_name"@.len() == 14);
    assert("workspace_name"@[0] == 'w');
    assert("workspace_name"@[10] == 'n');
    assert("monitor_path"@.len() == 12);
    assert("monitor_path"@[0] == 'm');
    assert("state_family"@.len() == 12);
    assert("state_family"@[0] == 's');
    assert("state_dir"@.len() == 9);
    assert("state_file"@.len() == 10);
    assert("tool"@.len() == 4);
    assert("active"@.len() == 6);
    assert("skill"@.len() == 5);
    assert("skill"@[0] == 's');
    assert("phase"@.len() == 5);
    assert("phase"@[0] == 'p');
    assert("keyword"@.len() == 7);
    assert("keyword"@[0] == 'k');
    assert("source_kind"@.len() == 11);
    assert("previous_skill"@.len() == 14);
    assert("previous_skill"@[0] == 'p');
    assert("previous_skill"@[9] == 's');
    assert("previous_phase"@.len() == 14);
    assert("previous_phase"@[0] == 'p');
    assert("previous_phase"@[9] == 'p');
    assert("summary"@.len() == 7);
    assert("summary"@[0] == 's');
}

/// A skill that is active no longer is told as such.
#[verifier::rlimit(60)]
pub proof fn law_deactivated_skill_is_told(m: MatchView, previous: Option<Node>, now: Node)
    requires
        m.state_file == "skill-active-state.json"@,
        is_set(previous, "active"@) && !is_set(Some(now), "active"@),
    ensures
        ({
            let r = workspace_diff::allowed_change(m, previous, Some(now));
            &&& (r is Some <==> (true) && lets_through(m.monitor, "workspace.skill.deactivated"@))
            &&& match r {
                Some(e) => {
                    &&& goes_out(m, e, "workspace.skill.deactivated"@, now)
                    &&& json::member(e.payload, "active"@) == Some(
                        Node::Bool(is_set(Some(now), "active"@)),
                    )
                    &&& json::member(e.payload, "skill"@) == text_node(json::field(now, "skill"@))
                    &&& json::member(e.payload, "phase"@) == text_node(json::field(now, "phase"@))
                    &&& json::member(e.payload, "keyword"@) == text_node(
                        json::field(now, "keyword"@),
                    )
                    &&& json::member(e.payload, "source_kind"@) == text_node(
                        json::field(now, "source"@),
                    )
                    &&& json::member(
                        e.payload,
                        "previous_skill"@,
                    ) == text_node(said(previous, "skill"@))
                    &&& json::member(
                        e.payload,
                        "previous_phase"@,
                    ) == text_node(said(previous, "phase"@))
                    &&& json::member(e.payload, "summary"@) == Some(
                        Node::Text("workspace skill state changed"@),
                    )
                },
                None => true,
            }
        }),
{
    broadcast use {json_laws::group_members, json_laws::group_optional_members};

    lemma_lets_through(m.monitor.events, "workspace.skill.deactivated"@);
    reveal_strlit("skill-active-state.json");
    reveal_strlit("session.json");
    reveal_strlit("hud-state.json");
    reveal_strlit("notify-hook-state.json");
    assert("skill-active-state.json"@.len() == 23);
    assert("session.json"@.len() == 12);
    assert("hud-state.json"@.len() == 14);
    assert("notify-hook-state.json"@.len() == 22);
    reveal_strlit("workspace.skill.deactivated");
    reveal_strlit("issue-opened");
    assert("workspace.skill.deactivated"@.len() == 27);
    assert("issue-opened"@.len() == 12);
    reveal_strlit("workspace_root");
    reveal_strlit("workspace_name");
    reveal_strlit("monitor_path");
    reveal_strlit("state_family");
    reveal_strlit("state_dir");
    reveal_strlit("state_file");
    reveal_strlit("tool");
    reveal_strlit("active");
    reveal_strlit("skill");
    reveal_strlit("phase");
    reveal_strlit("keyword");
    reveal_strlit("source_kind");
    reveal_strlit("previous_skill");
    reveal_strlit("previous_phase");
    reveal_strlit("summary");
    assert("workspace_root"@.len() == 14);
    assert("workspace_root"@[0] == 'w');
    assert("workspace_root"@[10] == 'r');
    assert("workspace_name"@.len() == 14);
    assert("workspace_name"@[0] == 'w');
    assert("workspace_name"@[10] == 'n');
    assert("monitor_path"@.len() == 12);
    assert("monitor_path"@[0] == 'm');
    assert("state_family"@.len() == 12);
    assert("state_family"@[0] == 's');
    assert("state_dir"@.len() == 9);
    assert("state_file"@.len() == 10);
    assert("tool"@.len() == 4);
    assert("active"@.len() == 6);
    assert("skill"@.len() == 5);
    assert("skill"@[0] == 's');
    assert("phase"@.len() == 5);
    assert("phase"@[0] == 'p');
    assert("keyword"@.len() == 7);
    assert("keyword"@[0] == 'k');
    assert("source_kind"@.len() == 11);
    assert("previous_skill"@.len() == 14);
    assert("previous_skill"@[0] == 'p');
    assert("previous_skill"@[9] == 's');
    assert("previous_phase"@.len() == 14);
    assert("previous_phase"@[0] == 'p');
    assert("previous_phase"@[9] == 'p');
    assert("summary"@.len() == 7);
    assert("summary"@[0] == 's');
}

/// A skill in another phase is told as such.
#[verifier::rlimit(60)]
pub proof fn law_phase_skill_is_told(m: MatchView, previous: Option<Node>, now: Node)
    requires
        m.state_file == "skill-active-state.json"@,
        is_set(previous, "active"@) == is_set(Some(now), "active"@)
            && said(previous, "phase"@) != json::field(now, "phase"@),
    ensures
        ({
            let r = workspace_diff::allowed_change(m, previous, Some(now));
            &&& (r is Some <==> (true) && lets_through(m.monitor, "workspace.skill.phase-changed"@))
            &&& match r {
                Some(e) => {
                    &&& goes_out(m, e, "workspace.skill.phase-changed"@, now)
                    &&& json::member(e.payload, "active"@) == Some(
                        Node::Bool(is_set(Some(now), "active"@)),
                    )
                    &&& json::member(e.payload, "skill"@) == text_node(json::field(now, "skill"@))
                    &&& json::member(e.payload, "phase"@) == text_node(json::field(now, "phase"@))
                    &&& json::member(e.payload, "keyword"@) == text_node(
                        json::field(now, "keyword"@),
                    )
                    &&& json::member(e.payload, "source_kind"@) == text_node(
                        json::field(now, "source"@),
                    )
                    &&& json::member(
                        e.payload,
                        "previous_skill"@,
                    ) == text_node(said(previous, "skill"@))
                    &&& json::member(
                        e.payload,
                        "previous_phase"@,
                    ) == text_node(said(previous, "phase"@))
                    &&& json::member(e.payload, "summary"@) == Some(
                        Node::Text("workspace skill state changed"@),
                    )
                },
                None => true,
            }
        }),
{
    broadcast use {json_laws::group_members, json_laws::group_optional_members};

    lemma_lets_through(m.monitor.events, "workspace.skill.phase-changed"@);
    reveal_strlit("skill-active-state.json");
    reveal_strlit("session.json");
    reveal_strlit("hud-state.json");
    reveal_strlit("notify-hook-state.json");
    assert("skill-active-state.json"@.len() == 23);
    assert("session.json"@.len() == 12);
    assert("hud-state.json"@.len() == 14);
    assert("notify-hook-state.json"@.len() == 22);
    reveal_strlit("workspace.skill.phase-changed");
    reveal_strlit("issue-opened");
    assert("workspace.skill.phase-changed"@.len() == 29);
    assert("issue-opened"@.len() == 12);
    reveal_strlit("workspace_root");
    reveal_strlit("workspace_name");
    reveal_strlit("monitor_path");
    reveal_strlit("state_family");
    reveal_strlit("state_dir");
    reveal_strlit("state_file");
    reveal_strlit("tool");
    reveal_strlit("active");
    reveal_strlit("skill");
    reveal_strlit("phase");
    reveal_strlit("keyword");
    reveal_strlit("source_kind");
    reveal_strlit("previous_skill");
    reveal_strlit("previous_phase");
    reveal_strlit("summary");
    assert("workspace_root"@.len() == 14);
    assert("workspace_root"@[0] == 'w');
    assert("workspace_root"@[10] == 'r');
    assert("workspace_name"@.len() == 14);
    assert("workspace_name"@[0] == 'w');
    assert("workspace_name"@[10] == 'n');
    assert("monitor_path"@.len() == 12);
    assert("monitor_path"@[0] == 'm');
    assert("state_family"@.len() == 12);
    assert("state_family"@[0] == 's');
    assert("state_dir"@.len() == 9);
    assert("state_file"@.len() == 10);
    assert("tool"@.len() == 4);
    assert("active"@.len() == 6);
    assert("skill"@.len() == 5);
    assert("skill"@[0] == 's');
    assert("phase"@.len() == 5);
    assert("phase"@[0] == 'p');
    assert("keyword"@.len() == 7);
    assert("keyword"@[0] == 'k');
    assert("source_kind"@.len() == 11);
    assert("previous_skill"@.len() == 14);
    assert("previous_skill"@[0] == 'p');
    assert("previous_skill"@[9] == 's');
    assert("previous_phase"@.len() == 14);
    assert("previous_phase"@[0] == 'p');
    assert("previous_phase"@[9] == 'p');
    assert("summary"@.len() == 7);
    assert("summary"@[0] == 's');
}

/// Another skill in the same phase is told as one that becomes active.
#[verifier::rlimit(60)]
pub proof fn law_replaced_skill_is_told(m: MatchView, previous: Option<Node>, now: Node)
    requires
        m.state_file == "skill-active-state.json"@,
        is_set(previous, "active"@) == is_set(Some(now), "active"@)
            && said(previous, "phase"@) == json::field(now, "phase"@)
            && said(previous, "skill"@) != json::field(now, "skill"@),
    ensures
        ({
            let r = workspace_diff::allowed_change(m, previous, Some(now));
            &&& (r is Some <==> (true) && lets_through(m.monitor, "workspace.skill.activated"@))
            &&& match r {
                Some(e) => {
                    &&& goes_out(m, e, "workspace.skill.activated"@, now)
                    &&& json::member(e.payload, "active"@) == Some(
                        Node::Bool(is_set(Some(now), "active"@)),
                    )
                    &&& json::member(e.payload, "skill"@) == text_node(json::field(now, "skill"@))
                    &&& json::member(e.payload, "phase"@) == text_node(json::field(now, "phase"@))
                    &&& json::member(e.payload, "keyword"@) == text_node(
                        json::field(now, "keyword"@),
                    )
                    &&& json::member(e.payload, "source_kind"@) == text_node(
                        json::field(now, "source"@),
                    )
                    &&& json::member(
                        e.payload,
                        "previous_skill"@,
                    ) == text_node(said(previous, "skill"@))
                    &&& json::member(
                        e.payload,
                        "previous_phase"@,
                    ) == text_node(said(previous, "phase"@))
                    &&& json::member(e.payload, "summary"@) == Some(
                        Node::Text("workspace skill state changed"@),
                    )
                },
                None => true,
            }
        }),
{
    broadcast use {json_laws::group_members, json_laws::group_optional_members};

    lemma_lets_through(m.monitor.events, "workspace.skill.activated"@);
    reveal_strlit("skill-active-state.json");
    reveal_strlit("session.json");
    reveal_strlit("hud-state.json");
    reveal_strlit("notify-hook-state.json");
    assert("skill-active-state.json"@.len() == 23);
    assert("session.json"@.len() == 12);
    assert("hud-state.json"@.len() == 14);
    assert("notify-hook-state.json"@.len() == 22);
    reveal_strlit("workspace.skill.activated");
    reveal_strlit("issue-opened");
    assert("workspace.skill.activated"@.len() == 25);
    assert("issue-opened"@.len() == 12);
    reveal_strlit("workspace_root");
    reveal_strlit("workspace_name");
    reveal_strlit("monitor_path");
    reveal_strlit("state_family");
    reveal_strlit("state_dir");
    reveal_strlit("state_file");
    reveal_strlit("tool");
    reveal_strlit("active");
    reveal_strlit("skill");
    reveal_strlit("phase");
    reveal_strlit("keyword");
    reveal_strlit("source_kind");
    reveal_strlit("previous_skill");
    reveal_strlit("previous_phase");
    reveal_strlit("summary");
    assert("workspace_root"@.len() == 14);
    assert("workspace_root"@[0] == 'w');
    assert("workspace_root"@[10] == 'r');
    assert("workspace_name"@.len() == 14);
    assert("workspace_name"@[0] == 'w');
    assert("workspace_name"@[10] == 'n');
    assert("monitor_path"@.len() == 12);
    assert("monitor_path"@[0] == 'm');
    assert("state_family"@.len() == 12);
    assert("state_family"@[0] == 's');
    assert("state_dir"@.len() == 9);
    assert("state_file"@.len() == 10);
    assert("tool"@.len() == 4);
    assert("active"@.len() == 6);
    assert("skill"@.len() == 5);
    assert("skill"@[0] == 's');
    assert("phase"@.len() == 5);
    assert("phase"@[0] == 'p');
    assert("keyword"@.len() == 7);
    assert("keyword"@[0] == 'k');
    assert("source_kind"@.len() == 11);
    assert("previous_skill"@.len() == 14);
    assert("previous_skill"@[0] == 'p');
    assert("previous_skill"@[9] == 's');
    assert("previous_phase"@.len() == 14);
    assert("previous_phase"@[0] == 'p');
    assert("previous_phase"@[9] == 'p');
    assert("summary"@.len() == 7);
    assert("summary"@[0] == 's');
}

/// A file of skills that says the same of them as before tells nothing.
pub proof fn law_same_skill_is_not_told(m: MatchView, previous: Option<Node>, now: Node)
    requires
        m.state_file == "skill-active-state.json"@,
        is_set(previous, "active"@) == is_set(Some(now), "active"@),
        said(previous, "phase"@) == json::field(now, "phase"@),
        said(previous, "skill"@) == json::field(now, "skill"@),
    ensures
        workspace_diff::allowed_change(m, previous, Some(now)) is None,
{
    reveal_strlit("skill-active-state.json");
    reveal_strlit("session.json");
    reveal_strlit("hud-state.json");
    reveal_strlit("notify-hook-state.json");
    assert("skill-active-state.json"@.len() == 23);
    assert("session.json"@.len() == 12);
    assert("hud-state.json"@.len() == 14);
    assert("notify-hook-state.json"@.len() == 22);
}

/// A session file that goes away tells of a session that ended, as it was.
pub proof fn law_ended_session_is_told(m: MatchView, then: Node)
    requires
        m.state_file == "session.json"@,
    ensures
        ({
            let r = workspace_diff::allowed_change(m, Some(then), None);
            &&& (r is Some <==> lets_through(m.monitor, "workspace.session.ended"@))
            &&& match r {
                Some(e) => {
                    &&& goes_out(m, e, "workspace.session.ended"@, then)
                    &&& json::member(e.payload, "session_id"@) == text_node(
                        json::field(then, "session_id"@),
                    )
                    &&& json::member(e.payload, "started_at"@) == text_node(
                        json::field(then, "started_at"@),
                    )
                    &&& json::member(e.payload, "pid"@) == count_node(json::count(then, "pid"@))
                    &&& json::member(e.payload, "summary"@) == Some(
                        Node::Text("workspace session ended"@),
                    )
                },
                None => true,
            }
        }),
{
    broadcast use {json_laws::group_members, json_laws::group_optional_members};

    lemma_lets_through(m.monitor.events, "workspace.session.ended"@);
    reveal_strlit("workspace.session.ended");
    reveal_strlit("issue-opened");
    assert("workspace.session.ended"@.len() == 23);
    assert("issue-opened"@.len() == 12);
    reveal_strlit("workspace_root");
    reveal_strlit("workspace_name");
    reveal_strlit("monitor_path");
    reveal_strlit("state_family");
    reveal_strlit("state_dir");
    reveal_strlit("state_file");
    reveal_strlit("tool");
    reveal_strlit("session_id");
    reveal_strlit("started_at");
    reveal_strlit("pid");
    reveal_strlit("summary");
    assert("workspace_root"@.len() == 14);
    assert("workspace_root"@[10] == 'r');
    assert("workspace_name"@.len() == 14);
    assert("workspace_name"@[10] == 'n');
    assert("monitor_path"@.len() == 12);
    assert("monitor_path"@[0] == 'm');
    assert("state_family"@.len() == 12);
    assert("state_family"@[0] == 's');
    assert("state_dir"@.len() == 9);
    assert("state_file"@.len() == 10);
    assert("state_file"@[1] == 't');
    assert("state_file"@[3] == 't');
    assert("tool"@.len() == 4);
    assert("session_id"@.len() == 10);
    assert("session_id"@[1] == 'e');
    assert("started_at"@.len() == 10);
    assert("started_at"@[1] == 't');
    assert("started_at"@[3] == 'r');
    assert("pid"@.len() == 3);
    assert("summary"@.len() == 7);
}

/// The keys of the turns that a file lists.
pub open spec fn turns_in(o: Option<Node>) -> Seq<Seq<char>> {
    match o {
        Some(node) => match json::member(node, "recent_turns"@) {
            Some(Node::Object(m)) => m.map_values(|e: (Seq<char>, Node)| e.0),
            _ => Seq::empty(),
        },
        None => Seq::empty(),
    }
}

/// The turns of a list that are not in another.
pub open spec fn turns_added(now: Seq<Seq<char>>, before: Seq<Seq<char>>) -> Seq<Node> {
    now.filter(|key: Seq<char>| !before.contains(key)).map_values(
        |key: Seq<char>| Node::Text(key),
    )
}

proof fn lemma_turns_added(now: Seq<Seq<char>>, before: Seq<Seq<char>>)
    ensures
        workspace_diff::new_keys(now, before) == turns_added(now, before),
    decreases now.len(),
{
    reveal(Seq::filter);
    let fresh = |key: Seq<char>| !before.contains(key);
    if now.len() > 0 {
        let front = now.drop_last();
        lemma_turns_added(front, before);
        if fresh(now.last()) {
            assert(now.filter(fresh) == front.filter(fresh).push(now.last()));
            assert(turns_added(now, before) =~= turns_added(front, before).push(
                Node::Text(now.last()),
            ));
        } else {
            assert(now.filter(fresh) == front.filter(fresh));
        }
    } else {
        assert(workspace_diff::new_keys(now, before) =~= turns_added(now, before));
    }
}

proof fn lemma_turns_in(o: Option<Node>)
    ensures
        workspace_diff::turn_keys(o) == turns_in(o),
{
    match o {
        Some(node) => match json::member(node, "recent_turns"@) {
            Some(Node::Object(m)) => {
                assert(workspace_diff::turn_keys(o) =~= turns_in(o));
            },
            _ => {},
        },
        None => {},
    }
}

/// The turns of agents are told when one is listed that was not before, or the last one is
/// at another time; those that are new are listed.
pub proof fn law_agent_turns_are_told(m: MatchView, previous: Option<Node>, now: Node)
    requires
        m.state_file == "notify-hook-state.json"@,
    ensures
        ({
            let r = workspace_diff::allowed_change(m, previous, Some(now));
            let added = turns_added(turns_in(Some(now)), turns_in(previous));
            &&& (
                r is Some <==> (
                    added.len() > 0
                        || said(previous, "last_event_at"@) != json::field(now, "last_event_at"@)
                )
                    && lets_through(m.monitor, "workspace.agent.turn"@)
            )
            &&& match r {
                Some(e) => {
                    &&& goes_out(m, e, "workspace.agent.turn"@, now)
                    &&& json::member(e.payload, "turn_count"@) == Some(
                        json::whole(turns_in(Some(now)).len() as u64),
                    )
                    &&& json::member(e.payload, "last_event_at"@) == text_node(
                        json::field(now, "last_event_at"@),
                    )
                    &&& json::member(e.payload, "recent_turn_keys"@) == (
                        if added.len() > 0 { Some(Node::List(added)) } else { None }
                    )
                    &&& json::member(e.payload, "summary"@) == Some(
                        Node::Text("agent turn activity observed"@),
                    )
                },
                None => true,
            }
        }),
{
    broadcast use {json_laws::group_members, json_laws::group_optional_members};

    lemma_lets_through(m.monitor.events, "workspace.agent.turn"@);
    lemma_turns_in(previous);
    lemma_turns_in(Some(now));
    lemma_turns_added(turns_in(Some(now)), turns_in(previous));
    reveal_strlit("notify-hook-state.json");
    reveal_strlit("session.json");
    reveal_strlit("hud-state.json");
    assert("notify-hook-state.json"@.len() == 22);
    assert("session.json"@.len() == 12);
    assert("hud-state.json"@.len() == 14);
    reveal_strlit("workspace.agent.turn");
    reveal_strlit("issue-opened");
    assert("workspace.agent.turn"@.len() == 20);
    assert("issue-opened"@.len() == 12);
    reveal_strlit("workspace_root");
    reveal_strlit("workspace_name");
    reveal_strlit("monitor_path");
    reveal_strlit("state_family");
    reveal_strlit("state_dir");
    reveal_strlit("state_file");
    reveal_strlit("tool");
    reveal_strlit("turn_count");
    reveal_strlit("last_event_at");
    reveal_strlit("recent_turn_keys");
    reveal_strlit("summary");
    assert("workspace_root"@.len() == 14);
    assert("workspace_root"@[10] == 'r');
    assert("workspace_name"@.len() == 14);
    assert("workspace_name"@[10] == 'n');
    assert("monitor_path"@.len() == 12);
    assert("monitor_path"@[0] == 'm');
    assert("state_family"@.len() == 12);
    assert("state_family"@[0] == 's');
    assert("state_dir"@.len() == 9);
    assert("state_file"@.len() == 10);
    assert("state_file"@[0] == 's');
    assert("tool"@.len() == 4);
    assert("turn_count"@.len() == 10);
    assert("turn_count"@[0] == 't');
    assert("last_event_at"@.len() == 13);
    assert("recent_turn_keys"@.len() == 16);
    assert("summary"@.len() == 7);
}

/// A name that begins or ends like this is none of the files that have a name of their own.
proof fn lemma_other_file(file: Seq<char>)
    requires
        text::begins_with(file, "checkpoints/"@) || text::finishes_with(
            file,
            "idle-notif-cooldown.json"@,
        ),
    ensures
        file != "session.json"@,
        file != "hud-state.json"@,
        file != "notify-hook-state.json"@,
        file != "skill-active-state.json"@,
        file != "metrics.json"@,
        file != "tmux-hook-state.json"@,
        file != "team-leader-nudge.json"@,
        file != "notify-fallback-state.json"@,
        file != "mission-state.json"@,
        file != "team-state.json"@,
        file != "subagent-tracking.json"@,
{
    reveal_strlit("checkpoints/");
    reveal_strlit("idle-notif-cooldown.json");
    assert("checkpoints/"@.len() == 12);
    assert("idle-notif-cooldown.json"@.len() == 24);
    if text::begins_with(file, "checkpoints/"@) {
        assert(file.subrange(0, 12)[11] == '/');
        assert(file[11] == '/');
    } else {
        let at = file.len() - 24;
        assert(file.subrange(at, at + 24)[5] == 'n');
        assert(file.subrange(at, at + 24)[10] == '-');
        assert(file.subrange(at, at + 24)[11] == 'c');
        assert(file.subrange(at, at + 24)[18] == 'n');
        assert(file[at + 11] == 'c' && file[at + 10] == '-' && file[at + 18] == 'n');
    }
    reveal_strlit("session.json");
    assert("session.json"@.len() == 12);
    assert("session.json"@[11] == 'n');
    reveal_strlit("hud-state.json");
    assert("hud-state.json"@.len() == 14);
    assert("hud-state.json"@[11] == 's');
    reveal_strlit("notify-hook-state.json");
    assert("notify-hook-state.json"@.len() == 22);
    assert("notify-hook-state.json"@[11] == '-');
    reveal_strlit("skill-active-state.json");
    assert("skill-active-state.json"@.len() == 23);
    assert("skill-active-state.json"@[11] == 'e');
    reveal_strlit("metrics.json");
    assert("metrics.json"@.len() == 12);
    assert("metrics.json"@[11] == 'n');
    reveal_strlit("tmux-hook-state.json");
    assert("tmux-hook-state.json"@.len() == 20);
    assert("tmux-hook-state.json"@[11] == 't');
    reveal_strlit("team-leader-nudge.json");
    assert("team-leader-nudge.json"@.len() == 22);
    assert("team-leader-nudge.json"@[11] == '-');
    reveal_strlit("notify-fallback-state.json");
    assert("notify-fallback-state.json"@.len() == 26);
    assert("notify-fallback-state.json"@[11] == 'b');
    assert("notify-fallback-state.json"@[13] == 'c');
    assert("notify-fallback-state.json"@[12] == 'a');
    reveal_strlit("mission-state.json");
    assert("mission-state.json"@.len() == 18);
    assert("mission-state.json"@[11] == 't');
    reveal_strlit("team-state.json");
    assert("team-state.json"@.len() == 15);
    assert("team-state.json"@[11] == 'j');
    reveal_strlit("subagent-tracking.json");
    assert("subagent-tracking.json"@.len() == 22);
    assert("subagent-tracking.json"@[11] == 'a');
}

/// A checkpoint is told when it was made at another time.
pub proof fn law_checkpoint_is_told(m: MatchView, previous: Option<Node>, now: Node)
    requires
        text::begins_with(m.state_file, "checkpoints/"@),
    ensures
        ({
            let r = workspace_diff::allowed_change(m, previous, Some(now));
            &&& (
                r is Some <==> (
                    previous is None
                        || said(previous, "created_at"@) != json::field(now, "created_at"@)
                )
                    && lets_through(m.monitor, "workspace.session.checkpointed"@)
            )
            &&& match r {
                Some(e) => {
                    &&& goes_out(m, e, "workspace.session.checkpointed"@, now)
                    &&& json::member(e.payload, "created_at"@) == text_node(
                        json::field(now, "created_at"@),
                    )
                    &&& json::member(e.payload, "trigger"@) == text_node(
                        json::field(now, "trigger"@),
                    )
                    &&& json::member(e.payload, "todo_summary"@) == text_node(
                        json::field(now, "todo_summary"@),
                    )
                    &&& json::member(e.payload, "summary"@) == Some(
                        Node::Text("workspace checkpoint captured"@),
                    )
                },
                None => true,
            }
        }),
{
    broadcast use {json_laws::group_members, json_laws::group_optional_members};

    lemma_lets_through(m.monitor.events, "workspace.session.checkpointed"@);
    lemma_other_file(m.state_file);
    reveal_strlit("workspace.session.checkpointed");
    reveal_strlit("issue-opened");
    assert("workspace.session.checkpointed"@.len() == 30);
    assert("issue-opened"@.len() == 12);
    reveal_strlit("workspace_root");
    reveal_strlit("workspace_name");
    reveal_strlit("monitor_path");
    reveal_strlit("state_family");
    reveal_strlit("state_dir");
    reveal_strlit("state_file");
    reveal_strlit("tool");
    reveal_strlit("created_at");
    reveal_strlit("trigger");
    reveal_strlit("todo_summary");
    reveal_strlit("summary");
    assert("workspace_root"@.len() == 14);
    assert("workspace_root"@[10] == 'r');
    assert("workspace_name"@.len() == 14);
    assert("workspace_name"@[10] == 'n');
    assert("monitor_path"@.len() == 12);
    assert("monitor_path"@[0] == 'm');
    assert("state_family"@.len() == 12);
    assert("state_family"@[0] == 's');
    assert("state_dir"@.len() == 9);
    assert("state_file"@.len() == 10);
    assert("state_file"@[0] == 's');
    assert("tool"@.len() == 4);
    assert("created_at"@.len() == 10);
    assert("created_at"@[0] == 'c');
    assert("trigger"@.len() == 7);
    assert("trigger"@[0] == 't');
    assert("todo_summary"@.len() == 12);
    assert("todo_summary"@[0] == 't');
    assert("summary"@.len() == 7);
    assert("summary"@[0] == 's');
}

/// A change of the idle times of a session is told as one that is blocked.
pub proof fn law_idle_session_is_told(m: MatchView, previous: Option<Node>, now: Node)
    requires
        text::finishes_with(m.state_file, "idle-notif-cooldown.json"@),
        !text::begins_with(m.state_file, "checkpoints/"@),
    ensures
        ({
            let r = workspace_diff::allowed_change(m, previous, Some(now));
            &&& (
                r is Some <==> (previous is None || previous != Some(now))
                    && lets_through(m.monitor, "workspace.session.blocked"@)
            )
            &&& match r {
                Some(e) => {
                    &&& goes_out(m, e, "workspace.session.blocked"@, now)
                    &&& json::member(e.payload, "summary"@) == Some(
                        Node::Text("workspace session idle cooldown updated"@),
                    )
                },
                None => true,
            }
        }),
{
    broadcast use {json_laws::group_members, json_laws::group_optional_members};

    lemma_lets_through(m.monitor.events, "workspace.session.blocked"@);
    lemma_other_file(m.state_file);
    reveal_strlit("workspace.session.blocked");
    reveal_strlit("issue-opened");
    assert("workspace.session.blocked"@.len() == 25);
    assert("issue-opened"@.len() == 12);
    reveal_strlit("workspace_root");
    reveal_strlit("workspace_name");
    reveal_strlit("monitor_path");
    reveal_strlit("state_family");
    reveal_strlit("state_dir");
    reveal_strlit("state_file");
    reveal_strlit("tool");
    reveal_strlit("summary");
    assert("workspace_root"@.len() == 14);
    assert("workspace_root"@[10] == 'r');
    assert("workspace_name"@.len() == 14);
    assert("workspace_name"@[10] == 'n');
    assert("monitor_path"@.len() == 12);
    assert("monitor_path"@[0] == 'm');
    assert("state_family"@.len() == 12);
    assert("state_family"@[0] == 's');
    assert("state_dir"@.len() == 9);
    assert("state_file"@.len() == 10);
    assert("tool"@.len() == 4);
    assert("summary"@.len() == 7);
}

/// Every other file tells nothing.
pub proof fn law_other_files_tell_nothing(
    m: MatchView,
    previous: Option<Node>,
    current: Option<Node>,
)
    requires
        m.state_file != "session.json"@,
        m.state_file != "hud-state.json"@,
        m.state_file != "notify-hook-state.json"@,
        m.state_file != "skill-active-state.json"@,
        m.state_file != "metrics.json"@,
        m.state_file != "tmux-hook-state.json"@,
        m.state_file != "team-leader-nudge.json"@,
        m.state_file != "notify-fallback-state.json"@,
        m.state_file != "mission-state.json"@,
        m.state_file != "team-state.json"@,
        m.state_file != "subagent-tracking.json"@,
        !text::begins_with(m.state_file, "checkpoints/"@),
        !text::finishes_with(m.state_file, "idle-notif-cooldown.json"@),
    ensures
        workspace_diff::allowed_change(m, previous, current) is None,
{
}

} // verus!
