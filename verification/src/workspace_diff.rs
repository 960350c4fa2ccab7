//! What changed in the state files of a workspace.
use vstd::prelude::*;
use vstd::string::*;

use crate::compose;
use crate::compose::{cat3, number};
use crate::config::{WorkspaceMonitor, WorkspaceMonitorView};
use crate::events;
use crate::events::{EventView, IncomingEvent};
use crate::glob;
use crate::glob::glob_match;
use crate::json;
use crate::json::{Json, Node};
use crate::text;
use crate::text::{copy_opt, ends_with, same, same_opt, starts_with};

verus! {

broadcast use {crate::json::group_trees, crate::text::views_push};

/// A state file that belongs to a workspace that is watched.
#[derive(Debug)]
pub struct WorkspaceMatch<'a> {
    pub monitor: &'a WorkspaceMonitor,
    pub workspace_root: String,
    pub workspace_name: String,
    pub state_family: String,
    pub watch_dir: String,
    /// The file below the watched directory.
    pub state_file: String,
}

/// A state file that belongs to a workspace that is watched.
pub struct MatchView {
    pub monitor: WorkspaceMonitorView,
    pub workspace_root: Seq<char>,
    pub workspace_name: Seq<char>,
    pub state_family: Seq<char>,
    pub watch_dir: Seq<char>,
    pub state_file: Seq<char>,
}

impl<'a> View for WorkspaceMatch<'a> {
    type V = MatchView;

    open spec fn view(&self) -> MatchView {
        MatchView {
            monitor: self.monitor@,
            workspace_root: self.workspace_root@,
            workspace_name: self.workspace_name@,
            state_family: self.state_family@,
            watch_dir: self.watch_dir@,
            state_file: self.state_file@,
        }
    }
}

/// An event of a workspace.
pub open spec fn workspace_event(m: MatchView, kind: Seq<char>, payload: Node) -> EventView {
    EventView {
        kind,
        channel: m.monitor.channel,
        mention: m.monitor.mention,
        format: m.monitor.format,
        template: None,
        payload,
    }
}

fn make_event(matched: &WorkspaceMatch, kind: &str, payload: Json) -> (r: IncomingEvent)
    ensures
        r@ == workspace_event(matched@, kind@, payload@),
{
    IncomingEvent::workspace(kind.to_owned(), payload, copy_opt(&matched.monitor.channel)).with_mention(
        copy_opt(&matched.monitor.mention),
    ).with_format(matched.monitor.format)
}

/// A text that is not empty.
pub open spec fn filled(s: Seq<char>) -> Option<Seq<char>> {
    if s.len() == 0 {
        None
    } else {
        Some(s)
    }
}

fn if_filled(s: &String) -> (r: Option<String>)
    ensures
        text::opt_text(r) == filled(s@),
{
    if s.as_str().is_empty() {
        None
    } else {
        Some(s.clone())
    }
}

/// What every event of a workspace says.
pub open spec fn base(m: MatchView, node: Node) -> Node {
    json::empty().with_opt_text("workspace_root"@, filled(m.workspace_root)).with_opt_text(
        "workspace_name"@,
        filled(m.workspace_name),
    ).with_opt_text("monitor_path"@, filled(m.monitor.path)).with_opt_text(
        "state_family"@,
        filled(m.state_family),
    ).with_opt_text("state_dir"@, filled(m.watch_dir)).with_opt_text(
        "state_file"@,
        filled(m.state_file),
    ).with_opt_text("tool"@, json::field(node, "tool"@))
}

fn base_payload(matched: &WorkspaceMatch, current: &Json) -> (r: Json)
    ensures
        r@ == base(matched@, current@),
{
    Json::object().with_opt_text(
        "workspace_root",
        &if_filled(&matched.workspace_root),
    ).with_opt_text("workspace_name", &if_filled(&matched.workspace_name)).with_opt_text(
        "monitor_path",
        &if_filled(&matched.monitor.path),
    ).with_opt_text("state_family", &if_filled(&matched.state_family)).with_opt_text(
        "state_dir",
        &if_filled(&matched.watch_dir),
    ).with_opt_text("state_file", &if_filled(&matched.state_file)).with_opt_text(
        "tool",
        &current.field("tool"),
    )
}

/// The text of a key of a value that may be missing.
pub open spec fn field_of(o: Option<Node>, key: Seq<char>) -> Option<Seq<char>> {
    match o {
        Some(node) => json::field(node, key),
        None => None,
    }
}

fn field_in(o: Option<&Json>, key: &str) -> (r: Option<String>)
    ensures
        text::opt_text(r) == field_of(json::opt_node(o), key@),
{
    match o {
        Some(value) => value.field(key),
        None => None,
    }
}

/// The number of a key of a value that may be missing, or none.
pub open spec fn count_of(o: Option<Node>, key: Seq<char>) -> Option<u64> {
    match o {
        Some(node) => json::count(node, key),
        None => None,
    }
}

fn count_in(o: Option<&Json>, key: &str) -> (r: Option<u64>)
    ensures
        r == count_of(json::opt_node(o), key@),
{
    match o {
        Some(value) => value.count(key),
        None => None,
    }
}

/// A number, or 0 where there is none.
pub open spec fn or_zero(o: Option<u64>) -> u64 {
    match o {
        Some(n) => n,
        None => 0,
    }
}

fn number_or_zero(o: Option<u64>) -> (r: u64)
    ensures
        r == or_zero(o),
{
    match o {
        Some(n) => n,
        None => 0,
    }
}

/// The difference of two numbers, none where the first is not greater.
pub open spec fn more_than(a: u64, b: u64) -> u64 {
    if a > b {
        (a - b) as u64
    } else {
        0
    }
}

fn difference(a: u64, b: u64) -> (r: u64)
    ensures
        r == more_than(a, b),
{
    if a > b {
        a - b
    } else {
        0
    }
}

/// One event, or none.
pub open spec fn one(event: Option<EventView>) -> Option<Seq<EventView>> {
    match event {
        Some(e) => Some(seq![e]),
        None => None,
    }
}

/// Some events, or none.
pub open spec fn event_list(r: Option<Vec<IncomingEvent>>) -> Option<Seq<EventView>> {
    match r {
        Some(v) => Some(text::all_views(v@)),
        None => None,
    }
}

fn just(event: IncomingEvent) -> (r: Option<Vec<IncomingEvent>>)
    ensures
        event_list(r) == one(Some(event@)),
{
    let ghost view = event@;
    let mut out: Vec<IncomingEvent> = Vec::new();
    out.push(event);
    assert(text::all_views(out@) =~= seq![view]);
    Some(out)
}

// ---------------------------------------------------------------------------
// Sessions
// ---------------------------------------------------------------------------

/// The event of a session file that appeared, changed its session or went away.
pub open spec fn session_change(m: MatchView, previous: Option<Node>, current: Option<Node>) -> Option<
    EventView,
> {
    match (previous, current) {
        (None, Some(now)) => Some(
            workspace_event(
                m,
                "workspace.session.started"@,
                base(m, now).with_opt_text(
                    "session_id"@,
                    json::field(now, "session_id"@),
                ).with_opt_text("started_at"@, json::field(now, "started_at"@)).with_opt_count(
                    "pid"@,
                    json::count(now, "pid"@),
                ).with_opt_text("cwd"@, json::field(now, "cwd"@)).with_text(
                    "summary"@,
                    "workspace session started"@,
                ),
            ),
        ),
        (Some(then), Some(now)) => if json::field(then, "session_id"@) != json::field(
            now,
            "session_id"@,
        ) {
            Some(
                workspace_event(
                    m,
                    "workspace.session.started"@,
                    base(m, now).with_opt_text(
                        "session_id"@,
                        json::field(now, "session_id"@),
                    ).with_opt_text(
                        "previous_session_id"@,
                        json::field(then, "session_id"@),
                    ).with_opt_text("started_at"@, json::field(now, "started_at"@)).with_opt_count(
                        "pid"@,
                        json::count(now, "pid"@),
                    ).with_opt_text("cwd"@, json::field(now, "cwd"@)).with_text(
                        "summary"@,
                        "workspace session rotated"@,
                    ),
                ),
            )
        } else {
            None
        },
        (Some(then), None) => Some(
            workspace_event(
                m,
                "workspace.session.ended"@,
                base(m, then).with_opt_text(
                    "session_id"@,
                    json::field(then, "session_id"@),
                ).with_opt_text("started_at"@, json::field(then, "started_at"@)).with_opt_count(
                    "pid"@,
                    json::count(then, "pid"@),
                ).with_text("summary"@, "workspace session ended"@),
            ),
        ),
        (None, None) => None,
    }
}

/// What changed in a session file.
pub fn diff_session(
    matched: &WorkspaceMatch,
    previous: Option<&Json>,
    current: Option<&Json>,
) -> (r: Option<Vec<IncomingEvent>>)
    ensures
        event_list(r) == one(
            session_change(matched@, json::opt_node(previous), json::opt_node(current)),
        ),
{
    match (previous, current) {
        (None, Some(now)) => just(
            make_event(
                matched,
                "workspace.session.started",
                base_payload(matched, now).with_opt_text(
                    "session_id",
                    &now.field("session_id"),
                ).with_opt_text("started_at", &now.field("started_at")).with_opt_count(
                    "pid",
                    now.count("pid"),
                ).with_opt_text("cwd", &now.field("cwd")).with_text(
                    "summary",
                    "workspace session started",
                ),
            ),
        ),
        (Some(earlier), Some(now)) => {
            let before = earlier.field("session_id");
            let after = now.field("session_id");
            if same_opt(&before, &after) {
                return None;
            }
            just(
                make_event(
                    matched,
                    "workspace.session.started",
                    base_payload(matched, now).with_opt_text("session_id", &after).with_opt_text(
                        "previous_session_id",
                        &before,
                    ).with_opt_text("started_at", &now.field("started_at")).with_opt_count(
                        "pid",
                        now.count("pid"),
                    ).with_opt_text("cwd", &now.field("cwd")).with_text(
                        "summary",
                        "workspace session rotated",
                    ),
                ),
            )
        },
        (Some(earlier), None) => just(
            make_event(
                matched,
                "workspace.session.ended",
                base_payload(matched, earlier).with_opt_text(
                    "session_id",
                    &earlier.field("session_id"),
                ).with_opt_text("started_at", &earlier.field("started_at")).with_opt_count(
                    "pid",
                    earlier.count("pid"),
                ).with_text("summary", "workspace session ended"),
            ),
        ),
        (None, None) => None,
    }
}

// ---------------------------------------------------------------------------
// Turns
// ---------------------------------------------------------------------------

/// The event of a turn that is complete.
pub open spec fn turn_change(m: MatchView, previous: Option<Node>, current: Option<Node>) -> Option<
    EventView,
> {
    match current {
        None => None,
        Some(now) => match json::count(now, "turn_count"@) {
            None => None,
            Some(turns) => {
                let before = or_zero(count_of(previous, "turn_count"@));
                let moved = field_of(previous, "last_turn_at"@) != json::field(
                    now,
                    "last_turn_at"@,
                );
                if previous is Some && turns <= before && !moved {
                    None
                } else {
                    Some(
                        workspace_event(
                            m,
                            "workspace.turn.complete"@,
                            base(m, now).with_count("turn_count"@, turns).with_count(
                                "turn_delta"@,
                                more_than(turns, before),
                            ).with_opt_text(
                                "last_turn_at"@,
                                json::field(now, "last_turn_at"@),
                            ).with_opt_text(
                                "last_agent_output"@,
                                json::field(now, "last_agent_output"@),
                            ).with_text(
                                "summary"@,
                                "turn "@ + compose::decimal(turns as nat) + " complete"@,
                            ),
                        ),
                    )
                }
            },
        },
    }
}

/// What changed in the state of the display.
pub fn diff_hud_state(
    matched: &WorkspaceMatch,
    previous: Option<&Json>,
    current: Option<&Json>,
) -> (r: Option<Vec<IncomingEvent>>)
    ensures
        event_list(r) == one(
            turn_change(matched@, json::opt_node(previous), json::opt_node(current)),
        ),
{
    let now = match current {
        Some(now) => now,
        None => return None,
    };
    let turns = match now.count("turn_count") {
        Some(n) => n,
        None => return None,
    };
    let before = number_or_zero(count_in(previous, "turn_count"));
    let last_turn_at = now.field("last_turn_at");
    let moved = !same_opt(&field_in(previous, "last_turn_at"), &last_turn_at);
    if previous.is_some() && turns <= before && !moved {
        return None;
    }
    let summary = cat3("turn ", number(turns).as_str(), " complete");
    just(
        make_event(
            matched,
            "workspace.turn.complete",
            base_payload(matched, now).with_count("turn_count", turns).with_count(
                "turn_delta",
                difference(turns, before),
            ).with_opt_text("last_turn_at", &last_turn_at).with_opt_text(
                "last_agent_output",
                &now.field("last_agent_output"),
            ).with_text("summary", summary.as_str()),
        ),
    )
}

/// The keys of the recent turns.
pub open spec fn turn_keys(o: Option<Node>) -> Seq<Seq<char>> {
    match o {
        Some(node) => match json::member(node, "recent_turns"@) {
            Some(Node::Object(m)) => Seq::new(m.len(), |i: int| m[i].0),
            _ => Seq::empty(),
        },
        None => Seq::empty(),
    }
}

/// The keys of a list that another list does not have, as texts.
pub open spec fn new_keys(keys: Seq<Seq<char>>, known: Seq<Seq<char>>) -> Seq<Node>
    decreases keys.len(),
{
    if keys.len() == 0 {
        Seq::empty()
    } else if known.contains(keys.last()) {
        new_keys(keys.drop_last(), known)
    } else {
        new_keys(keys.drop_last(), known).push(Node::Text(keys.last()))
    }
}

/// An object with a list, where the list is not empty.
pub open spec fn with_items(node: Node, key: Seq<char>, items: Seq<Node>) -> Node {
    if items.len() == 0 {
        node
    } else {
        node.with(key, Node::List(items))
    }
}

/// The event of an agent's turns.
pub open spec fn agent_turn_change(
    m: MatchView,
    previous: Option<Node>,
    current: Option<Node>,
) -> Option<EventView> {
    match current {
        None => None,
        Some(now) => {
            let added = new_keys(turn_keys(current), turn_keys(previous));
            let moved = field_of(previous, "last_event_at"@) != json::field(now, "last_event_at"@);
            if added.len() == 0 && !moved {
                None
            } else {
                Some(
                    workspace_event(
                        m,
                        "workspace.agent.turn"@,
                        with_items(
                            base(m, now).with_count(
                                "turn_count"@,
                                turn_keys(current).len() as u64,
                            ).with_opt_text(
                                "last_event_at"@,
                                json::field(now, "last_event_at"@),
                            ),
                            "recent_turn_keys"@,
                            added,
                        ).with_text("summary"@, "agent turn activity observed"@),
                    ),
                )
            }
        },
    }
}

fn recent_turn_keys(o: Option<&Json>) -> (r: Vec<String>)
    ensures
        text::views(r@) == turn_keys(json::opt_node(o)),
{
    let mut out: Vec<String> = Vec::new();
    assert(text::views(out@) =~= Seq::<Seq<char>>::empty());
    match o {
        Some(value) => match value.get("recent_turns") {
            Some(Json::Object(entries)) => {
                let ghost m = json::members(entries@);
                let ghost all = Seq::new(m.len(), |i: int| m[i].0);
                let mut i: usize = 0;
                while i < entries.len()
                    invariant
                        i <= entries.len(),
                        m == json::members(entries@),
                        all == Seq::new(m.len(), |i: int| m[i].0),
                        text::views(out@) == all.take(i as int),
                    decreases entries.len() - i,
                {
                    out.push(entries[i].0.clone());
                    assert(text::views(out@) =~= all.take(i + 1));
                    i = i + 1;
                }
                assert(all.take(i as int) =~= all);
            },
            _ => {},
        },
        None => {},
    }
    out
}

fn added_keys(keys: &Vec<String>, known: &Vec<String>) -> (r: Vec<Json>)
    ensures
        json::nodes(r@) == new_keys(text::views(keys@), text::views(known@)),
{
    let ghost all = text::views(keys@);
    let mut out: Vec<Json> = Vec::new();
    assert(json::nodes(out@) =~= Seq::<Node>::empty());
    let mut i: usize = 0;
    while i < keys.len()
        invariant
            i <= keys.len(),
            all == text::views(keys@),
            json::nodes(out@) == new_keys(all.take(i as int), text::views(known@)),
        decreases keys.len() - i,
    {
        assert(all.take(i + 1).drop_last() =~= all.take(i as int));
        assert(all.take(i + 1).last() == keys@[i as int]@);
        if !text::list_has(known, keys[i].as_str()) {
            out.push(Json::text(keys[i].as_str()));
        }
        i = i + 1;
    }
    assert(all.take(i as int) =~= all);
    out
}

/// What changed in the state of the notification hook.
pub fn diff_notify_hook_state(
    matched: &WorkspaceMatch,
    previous: Option<&Json>,
    current: Option<&Json>,
) -> (r: Option<Vec<IncomingEvent>>)
    ensures
        event_list(r) == one(
            agent_turn_change(matched@, json::opt_node(previous), json::opt_node(current)),
        ),
{
    let now = match current {
        Some(now) => now,
        None => return None,
    };
    let keys = recent_turn_keys(current);
    let added = added_keys(&keys, &recent_turn_keys(previous));
    let last_event_at = now.field("last_event_at");
    let moved = !same_opt(&field_in(previous, "last_event_at"), &last_event_at);
    assert(json::nodes(added@).len() == added@.len());
    assert(text::views(keys@).len() == keys@.len());
    if added.len() == 0 && !moved {
        return None;
    }
    let payload = base_payload(matched, now).with_count(
        "turn_count",
        keys.len() as u64,
    ).with_opt_text("last_event_at", &last_event_at);
    let payload = if added.len() == 0 {
        payload
    } else {
        payload.with("recent_turn_keys", Json::List(added))
    };
    just(
        make_event(
            matched,
            "workspace.agent.turn",
            payload.with_text("summary", "agent turn activity observed"),
        ),
    )
}

// ---------------------------------------------------------------------------
// Skills
// ---------------------------------------------------------------------------

/// The truth value of a key of a value that may be missing; false where there is
/// none.
pub open spec fn flag_of(o: Option<Node>, key: Seq<char>) -> bool {
    match o {
        Some(node) => json::flag(node, key) == Some(true),
        None => false,
    }
}

fn flag_in(o: Option<&Json>, key: &str) -> (r: bool)
    ensures
        r == flag_of(json::opt_node(o), key@),
{
    match o {
        Some(value) => match value.flag(key) {
            Some(b) => b,
            None => false,
        },
        None => false,
    }
}

/// The kind of the event of a change of skills.
pub open spec fn skill_kind(previous: Option<Node>, now: Node) -> Option<Seq<char>> {
    let before = flag_of(previous, "active"@);
    let after = flag_of(Some(now), "active"@);
    if !before && after {
        Some("workspace.skill.activated"@)
    } else if before && !after {
        Some("workspace.skill.deactivated"@)
    } else if field_of(previous, "phase"@) != json::field(now, "phase"@) {
        Some("workspace.skill.phase-changed"@)
    } else if field_of(previous, "skill"@) != json::field(now, "skill"@) {
        Some("workspace.skill.activated"@)
    } else {
        None
    }
}

/// The event of a change of skills.
pub open spec fn skill_change(m: MatchView, previous: Option<Node>, current: Option<Node>) -> Option<
    EventView,
> {
    match current {
        None => None,
        Some(now) => match skill_kind(previous, now) {
            None => None,
            Some(kind) => Some(
                workspace_event(
                    m,
                    kind,
                    base(m, now).with(
                        "active"@,
                        Node::Bool(flag_of(current, "active"@)),
                    ).with_opt_text("skill"@, json::field(now, "skill"@)).with_opt_text(
                        "phase"@,
                        json::field(now, "phase"@),
                    ).with_opt_text("keyword"@, json::field(now, "keyword"@)).with_opt_text(
                        "source_kind"@,
                        json::field(now, "source"@),
                    ).with_opt_text(
                        "previous_skill"@,
                        field_of(previous, "skill"@),
                    ).with_opt_text("previous_phase"@, field_of(previous, "phase"@)).with_text(
                        "summary"@,
                        "workspace skill state changed"@,
                    ),
                ),
            ),
        },
    }
}

/// What changed in the state of the skills.
pub fn diff_skill_state(
    matched: &WorkspaceMatch,
    previous: Option<&Json>,
    current: Option<&Json>,
) -> (r: Option<Vec<IncomingEvent>>)
    ensures
        event_list(r) == one(
            skill_change(matched@, json::opt_node(previous), json::opt_node(current)),
        ),
{
    let now = match current {
        Some(now) => now,
        None => return None,
    };
    let before = flag_in(previous, "active");
    let after = flag_in(current, "active");
    let skill_before = field_in(previous, "skill");
    let skill = now.field("skill");
    let phase_before = field_in(previous, "phase");
    let phase = now.field("phase");
    let kind = if !before && after {
        "workspace.skill.activated"
    } else if before && !after {
        "workspace.skill.deactivated"
    } else if !same_opt(&phase_before, &phase) {
        "workspace.skill.phase-changed"
    } else if !same_opt(&skill_before, &skill) {
        "workspace.skill.activated"
    } else {
        return None;
    };
    just(
        make_event(
            matched,
            kind,
            base_payload(matched, now).with_flag("active", after).with_opt_text(
                "skill",
                &skill,
            ).with_opt_text("phase", &phase).with_opt_text(
                "keyword",
                &now.field("keyword"),
            ).with_opt_text("source_kind", &now.field("source")).with_opt_text(
                "previous_skill",
                &skill_before,
            ).with_opt_text("previous_phase", &phase_before).with_text(
                "summary",
                "workspace skill state changed",
            ),
        ),
    )
}

// ---------------------------------------------------------------------------
// Other files
// ---------------------------------------------------------------------------

/// The event of metrics that changed.
pub open spec fn metrics_change(m: MatchView, previous: Option<Node>, current: Option<Node>) -> Option<
    EventView,
> {
    match current {
        None => None,
        Some(now) => if previous == current {
            None
        } else {
            Some(
                workspace_event(
                    m,
                    "workspace.metrics.updated"@,
                    base(m, now).with_text("summary"@, "workspace metrics updated"@).with(
                        "metrics"@,
                        now,
                    ),
                ),
            )
        },
    }
}

fn unchanged(previous: Option<&Json>, now: &Json) -> (r: bool)
    ensures
        r == (json::opt_node(previous) == Some(now@)),
{
    match previous {
        Some(value) => value.same_as(now),
        None => false,
    }
}

/// What changed in the metrics.
pub fn diff_metrics_state(
    matched: &WorkspaceMatch,
    previous: Option<&Json>,
    current: Option<&Json>,
) -> (r: Option<Vec<IncomingEvent>>)
    ensures
        event_list(r) == one(
            metrics_change(matched@, json::opt_node(previous), json::opt_node(current)),
        ),
{
    let now = match current {
        Some(now) => now,
        None => return None,
    };
    if unchanged(previous, now) {
        return None;
    }
    just(
        make_event(
            matched,
            "workspace.metrics.updated",
            base_payload(matched, now).with_text("summary", "workspace metrics updated").with(
                "metrics",
                now.clone(),
            ),
        ),
    )
}

/// The event of keys that were typed into a terminal.
pub open spec fn injection_change(m: MatchView, previous: Option<Node>, current: Option<Node>) -> Option<
    EventView,
> {
    match current {
        None => None,
        Some(now) => match json::count(now, "total_injections"@) {
            None => None,
            Some(total) => {
                let before = or_zero(count_of(previous, "total_injections"@));
                if previous is Some && total == before {
                    None
                } else {
                    Some(
                        workspace_event(
                            m,
                            "workspace.tmux.injection"@,
                            base(m, now).with_count("total_injections"@, total).with_count(
                                "injection_delta"@,
                                more_than(total, before),
                            ).with_opt_text(
                                "last_reason"@,
                                json::field(now, "last_reason"@),
                            ).with_opt_text(
                                "last_event_at"@,
                                json::field(now, "last_event_at"@),
                            ).with_text("summary"@, "tmux injection state changed"@),
                        ),
                    )
                }
            },
        },
    }
}

/// What changed in the state of the terminal hook.
pub fn diff_tmux_hook_state(
    matched: &WorkspaceMatch,
    previous: Option<&Json>,
    current: Option<&Json>,
) -> (r: Option<Vec<IncomingEvent>>)
    ensures
        event_list(r) == one(
            injection_change(matched@, json::opt_node(previous), json::opt_node(current)),
        ),
{
    let now = match current {
        Some(now) => now,
        None => return None,
    };
    let total = match now.count("total_injections") {
        Some(n) => n,
        None => return None,
    };
    let before = number_or_zero(count_in(previous, "total_injections"));
    if previous.is_some() && total == before {
        return None;
    }
    just(
        make_event(
            matched,
            "workspace.tmux.injection",
            base_payload(matched, now).with_count("total_injections", total).with_count(
                "injection_delta",
                difference(total, before),
            ).with_opt_text("last_reason", &now.field("last_reason")).with_opt_text(
                "last_event_at",
                &now.field("last_event_at"),
            ).with_text("summary", "tmux injection state changed"),
        ),
    )
}

/// The event of a team leader who was nudged.
pub open spec fn nudge_change(m: MatchView, previous: Option<Node>, current: Option<Node>) -> Option<
    EventView,
> {
    match current {
        None => None,
        Some(now) => if previous == current {
            None
        } else {
            Some(
                workspace_event(
                    m,
                    "workspace.team.nudged"@,
                    base(m, now).with_opt_text(
                        "last_nudged_by_team"@,
                        json::field(now, "last_nudged_by_team"@),
                    ).with_opt_text(
                        "last_idle_nudged_by_team"@,
                        json::field(now, "last_idle_nudged_by_team"@),
                    ).with_text("summary"@, "team leader nudge state changed"@),
                ),
            )
        },
    }
}

/// What changed in the nudges of a team leader.
pub fn diff_team_leader_nudge(
    matched: &WorkspaceMatch,
    previous: Option<&Json>,
    current: Option<&Json>,
) -> (r: Option<Vec<IncomingEvent>>)
    ensures
        event_list(r) == one(
            nudge_change(matched@, json::opt_node(previous), json::opt_node(current)),
        ),
{
    let now = match current {
        Some(now) => now,
        None => return None,
    };
    if unchanged(previous, now) {
        return None;
    }
    just(
        make_event(
            matched,
            "workspace.team.nudged",
            base_payload(matched, now).with_opt_text(
                "last_nudged_by_team",
                &now.field("last_nudged_by_team"),
            ).with_opt_text(
                "last_idle_nudged_by_team",
                &now.field("last_idle_nudged_by_team"),
            ).with_text("summary", "team leader nudge state changed"),
        ),
    )
}

/// The event of a fallback of the notifications.
pub open spec fn fallback_change(m: MatchView, previous: Option<Node>, current: Option<Node>) -> Option<
    EventView,
> {
    match current {
        None => None,
        Some(now) => if previous is Some && count_of(previous, "pid"@) == json::count(now, "pid"@) {
            None
        } else {
            Some(
                workspace_event(
                    m,
                    "workspace.session.blocked"@,
                    base(m, now).with_opt_count("pid"@, json::count(now, "pid"@)).with_opt_count(
                        "parent_pid"@,
                        json::count(now, "parent_pid"@),
                    ).with_opt_text(
                        "notify_script"@,
                        json::field(now, "notify_script"@),
                    ).with_opt_text("started_at"@, json::field(now, "started_at"@)).with_opt_text(
                        "cwd"@,
                        json::field(now, "cwd"@),
                    ).with_text("summary"@, "notify fallback monitor active"@),
                ),
            )
        },
    }
}

/// What changed in the fallback of the notifications.
pub fn diff_notify_fallback_state(
    matched: &WorkspaceMatch,
    previous: Option<&Json>,
    current: Option<&Json>,
) -> (r: Option<Vec<IncomingEvent>>)
    ensures
        event_list(r) == one(
            fallback_change(matched@, json::opt_node(previous), json::opt_node(current)),
        ),
{
    let now = match current {
        Some(now) => now,
        None => return None,
    };
    let pid = now.count("pid");
    if previous.is_some() && count_in(previous, "pid") == pid {
        return None;
    }
    just(
        make_event(
            matched,
            "workspace.session.blocked",
            base_payload(matched, now).with_opt_count("pid", pid).with_opt_count(
                "parent_pid",
                now.count("parent_pid"),
            ).with_opt_text("notify_script", &now.field("notify_script")).with_opt_text(
                "started_at",
                &now.field("started_at"),
            ).with_opt_text("cwd", &now.field("cwd")).with_text(
                "summary",
                "notify fallback monitor active",
            ),
        ),
    )
}

/// The event of missions that were updated.
pub open spec fn mission_change(m: MatchView, previous: Option<Node>, current: Option<Node>) -> Option<
    EventView,
> {
    match current {
        None => None,
        Some(now) => if previous is Some && field_of(previous, "updatedAt"@) == json::field(
            now,
            "updatedAt"@,
        ) {
            None
        } else {
            Some(
                workspace_event(
                    m,
                    "workspace.mission.updated"@,
                    base(m, now).with_opt_text(
                        "updated_at"@,
                        json::field(now, "updatedAt"@),
                    ).with_opt_count(
                        "mission_count"@,
                        match json::items(now, "missions"@) {
                            Some(list) => Some(list.len() as u64),
                            None => None,
                        },
                    ).with_text("summary"@, "mission state updated"@),
                ),
            )
        },
    }
}

/// What changed in the missions.
pub fn diff_mission_state(
    matched: &WorkspaceMatch,
    previous: Option<&Json>,
    current: Option<&Json>,
) -> (r: Option<Vec<IncomingEvent>>)
    ensures
        event_list(r) == one(
            mission_change(matched@, json::opt_node(previous), json::opt_node(current)),
        ),
{
    let now = match current {
        Some(now) => now,
        None => return None,
    };
    let updated_at = now.field("updatedAt");
    if previous.is_some() && same_opt(&field_in(previous, "updatedAt"), &updated_at) {
        return None;
    }
    let missions = match now.items("missions") {
        Some(list) => {
            assert(json::nodes(list@).len() == list@.len());
            Some(list.len() as u64)
        },
        None => None,
    };
    just(
        make_event(
            matched,
            "workspace.mission.updated",
            base_payload(matched, now).with_opt_text("updated_at", &updated_at).with_opt_count(
                "mission_count",
                missions,
            ).with_text("summary", "mission state updated"),
        ),
    )
}

/// An event that only says that a file changed.
pub open spec fn plain_change(
    m: MatchView,
    kind: Seq<char>,
    summary: Seq<char>,
    previous: Option<Node>,
    current: Option<Node>,
) -> Option<EventView> {
    match current {
        None => None,
        Some(now) => if previous == current {
            None
        } else {
            Some(workspace_event(m, kind, base(m, now).with_text("summary"@, summary)))
        },
    }
}

fn diff_plain(
    matched: &WorkspaceMatch,
    kind: &str,
    summary: &str,
    previous: Option<&Json>,
    current: Option<&Json>,
) -> (r: Option<Vec<IncomingEvent>>)
    ensures
        event_list(r) == one(
            plain_change(
                matched@,
                kind@,
                summary@,
                json::opt_node(previous),
                json::opt_node(current),
            ),
        ),
{
    let now = match current {
        Some(now) => now,
        None => return None,
    };
    if unchanged(previous, now) {
        return None;
    }
    just(make_event(matched, kind, base_payload(matched, now).with_text("summary", summary)))
}

/// The event of a checkpoint.
pub open spec fn checkpoint_change(m: MatchView, previous: Option<Node>, current: Option<Node>) -> Option<
    EventView,
> {
    match current {
        None => None,
        Some(now) => if previous is Some && field_of(previous, "created_at"@) == json::field(
            now,
            "created_at"@,
        ) {
            None
        } else {
            Some(
                workspace_event(
                    m,
                    "workspace.session.checkpointed"@,
                    base(m, now).with_opt_text(
                        "created_at"@,
                        json::field(now, "created_at"@),
                    ).with_opt_text("trigger"@, json::field(now, "trigger"@)).with_opt_text(
                        "todo_summary"@,
                        json::field(now, "todo_summary"@),
                    ).with_text("summary"@, "workspace checkpoint captured"@),
                ),
            )
        },
    }
}

/// What changed in a checkpoint.
pub fn diff_checkpoint_state(
    matched: &WorkspaceMatch,
    previous: Option<&Json>,
    current: Option<&Json>,
) -> (r: Option<Vec<IncomingEvent>>)
    ensures
        event_list(r) == one(
            checkpoint_change(matched@, json::opt_node(previous), json::opt_node(current)),
        ),
{
    let now = match current {
        Some(now) => now,
        None => return None,
    };
    let created_at = now.field("created_at");
    if previous.is_some() && same_opt(&field_in(previous, "created_at"), &created_at) {
        return None;
    }
    just(
        make_event(
            matched,
            "workspace.session.checkpointed",
            base_payload(matched, now).with_opt_text("created_at", &created_at).with_opt_text(
                "trigger",
                &now.field("trigger"),
            ).with_opt_text("todo_summary", &now.field("todo_summary")).with_text(
                "summary",
                "workspace checkpoint captured",
            ),
        ),
    )
}

// ---------------------------------------------------------------------------
// All files
// ---------------------------------------------------------------------------

/// The event of a state file that changed, by the name of the file.
pub open spec fn file_change(m: MatchView, previous: Option<Node>, current: Option<Node>) -> Option<
    EventView,
> {
    let file = m.state_file;
    if file == "session.json"@ {
        session_change(m, previous, current)
    } else if file == "hud-state.json"@ {
        turn_change(m, previous, current)
    } else if file == "notify-hook-state.json"@ {
        agent_turn_change(m, previous, current)
    } else if file == "skill-active-state.json"@ {
        skill_change(m, previous, current)
    } else if file == "metrics.json"@ {
        metrics_change(m, previous, current)
    } else if file == "tmux-hook-state.json"@ {
        injection_change(m, previous, current)
    } else if file == "team-leader-nudge.json"@ {
        nudge_change(m, previous, current)
    } else if file == "notify-fallback-state.json"@ {
        fallback_change(m, previous, current)
    } else if file == "mission-state.json"@ {
        mission_change(m, previous, current)
    } else if file == "team-state.json"@ {
        plain_change(m, "workspace.team.updated"@, "team state updated"@, previous, current)
    } else if file == "subagent-tracking.json"@ {
        plain_change(m, "workspace.team.updated"@, "subagent tracking updated"@, previous, current)
    } else if text::begins_with(file, "checkpoints/"@) {
        checkpoint_change(m, previous, current)
    } else if text::finishes_with(file, "idle-notif-cooldown.json"@) {
        plain_change(
            m,
            "workspace.session.blocked"@,
            "workspace session idle cooldown updated"@,
            previous,
            current,
        )
    } else {
        None
    }
}

/// Some of a list of patterns fits a kind.
pub open spec fn some_fits(patterns: Seq<Seq<char>>, kind: Seq<char>) -> bool
    decreases patterns.len(),
{
    patterns.len() > 0 && (some_fits(patterns.drop_last(), kind) || glob::fits(
        patterns.last(),
        kind,
    ))
}

/// A monitor lets events of a kind through: all where it names none.
pub open spec fn allows(monitor: WorkspaceMonitorView, kind: Seq<char>) -> bool {
    monitor.events.len() == 0 || some_fits(monitor.events, kind)
}

/// Tells whether a monitor lets events of a kind through.
pub fn monitor_allows_event(monitor: &WorkspaceMonitor, kind: &str) -> (r: bool)
    ensures
        r == allows(monitor@, kind@),
{
    let ghost all = text::views(monitor.events@);
    assert(all.len() == monitor.events@.len());
    if monitor.events.len() == 0 {
        return true;
    }
    let mut found = false;
    let mut i: usize = 0;
    while i < monitor.events.len()
        invariant
            i <= monitor.events.len(),
            all == text::views(monitor.events@),
            found == some_fits(all.take(i as int), kind@),
        decreases monitor.events.len() - i,
    {
        assert(all.take(i + 1).drop_last() =~= all.take(i as int));
        assert(all.take(i + 1).last() == monitor.events@[i as int]@);
        if glob_match(monitor.events[i].as_str(), kind) {
            found = true;
        }
        i = i + 1;
    }
    assert(all.take(i as int) =~= all);
    found
}

/// The event of a state file that changed, where the monitor lets it through.
pub open spec fn allowed_change(m: MatchView, previous: Option<Node>, current: Option<Node>) -> Option<
    EventView,
> {
    match file_change(m, previous, current) {
        Some(event) => if allows(m.monitor, events::canonical_kind(event.kind)) {
            Some(event)
        } else {
            None
        },
        None => None,
    }
}

fn diff_file(
    matched: &WorkspaceMatch,
    previous: Option<&Json>,
    current: Option<&Json>,
) -> (r: Option<Vec<IncomingEvent>>)
    ensures
        event_list(r) == one(
            file_change(matched@, json::opt_node(previous), json::opt_node(current)),
        ),
{
    let file = matched.state_file.as_str();
    if same(file, "session.json") {
        diff_session(matched, previous, current)
    } else if same(file, "hud-state.json") {
        diff_hud_state(matched, previous, current)
    } else if same(file, "notify-hook-state.json") {
        diff_notify_hook_state(matched, previous, current)
    } else if same(file, "skill-active-state.json") {
        diff_skill_state(matched, previous, current)
    } else if same(file, "metrics.json") {
        diff_metrics_state(matched, previous, current)
    } else if same(file, "tmux-hook-state.json") {
        diff_tmux_hook_state(matched, previous, current)
    } else if same(file, "team-leader-nudge.json") {
        diff_team_leader_nudge(matched, previous, current)
    } else if same(file, "notify-fallback-state.json") {
        diff_notify_fallback_state(matched, previous, current)
    } else if same(file, "mission-state.json") {
        diff_mission_state(matched, previous, current)
    } else if same(file, "team-state.json") {
        diff_plain(matched, "workspace.team.updated", "team state updated", previous, current)
    } else if same(file, "subagent-tracking.json") {
        diff_plain(
            matched,
            "workspace.team.updated",
            "subagent tracking updated",
            previous,
            current,
        )
    } else if starts_with(file, "checkpoints/") {
        diff_checkpoint_state(matched, previous, current)
    } else if ends_with(file, "idle-notif-cooldown.json") {
        diff_plain(
            matched,
            "workspace.session.blocked",
            "workspace session idle cooldown updated",
            previous,
            current,
        )
    } else {
        None
    }
}

/// What changed in a state file, as far as the monitor lets it through.
pub fn diff_workspace_state(
    matched: &WorkspaceMatch,
    previous: Option<&Json>,
    current: Option<&Json>,
) -> (r: Option<Vec<IncomingEvent>>)
    ensures
        event_list(r) == one(
            allowed_change(matched@, json::opt_node(previous), json::opt_node(current)),
        ),
{
    match diff_file(matched, previous, current) {
        Some(events) => {
            let ghost all = text::all_views(events@);
            assert(all.len() == 1 && all.len() == events@.len());
            assert(all[0] == events@[0]@);
            if monitor_allows_event(matched.monitor, events[0].canonical_kind()) {
                Some(events)
            } else {
                None
            }
        },
        None => None,
    }
}

// ---------------------------------------------------------------------------
// Laws
// ---------------------------------------------------------------------------

/// A state file that is there and has not changed gives rise to no event.
pub proof fn law_unchanged_file_is_silent(m: MatchView, now: Node)
    ensures
        allowed_change(m, Some(now), Some(now)) is None,
{
    lemma_no_new_keys(turn_keys(Some(now)), turn_keys(Some(now)));
}

proof fn lemma_no_new_keys(keys: Seq<Seq<char>>, known: Seq<Seq<char>>)
    requires
        forall|i: int| 0 <= i < keys.len() ==> known.contains(#[trigger] keys[i]),
    ensures
        new_keys(keys, known).len() == 0,
    decreases keys.len(),
{
    if keys.len() > 0 {
        assert(known.contains(keys[keys.len() - 1]));
        let front = keys.drop_last();
        assert forall|i: int| 0 <= i < front.len() implies known.contains(#[trigger] front[i]) by {
            assert(keys[i] == front[i]);
        }
        lemma_no_new_keys(front, known);
    }
}

/// Of files that went away only a session says so.
pub proof fn law_only_sessions_end(m: MatchView, previous: Option<Node>)
    requires
        m.state_file != "session.json"@,
    ensures
        allowed_change(m, previous, None) is None,
{
}

/// Every event that is let through is of a kind that the monitor lets through.
pub proof fn law_monitor_sees_only_what_it_allows(
    m: MatchView,
    previous: Option<Node>,
    current: Option<Node>,
)
    ensures
        allowed_change(m, previous, current) matches Some(event) ==> allows(
            m.monitor,
            events::canonical_kind(event.kind),
        ),
{
}

} // verus!
