//! What happens in the tmux sessions that are watched.
use vstd::prelude::*;
use vstd::string::*;

use crate::compose::cat3;
use crate::config::AppConfig;
use crate::events;
use crate::events::{EventView, IncomingEvent};
use crate::json;
use crate::json::Node;
use crate::keywords;
use crate::keywords::{
    collect_gained_hits, count_new_lines, elapsed_ms, last_nonempty_line, HitView, KeywordHit,
    PendingKeywordHits, PendingView,
};
use crate::registry;
use crate::registry::{
    configured_registrations, resolve_monitored_sessions, RegisteredTmuxSession, RegistrationView,
    Registry,
};
use crate::scan;
use crate::scan::{lines_of, split_at_each};
use crate::table;
use crate::table::{find_entry, keep_marked, remove_entry, set_entry};
use crate::text;
use crate::text::{copy_opt, list_has, same, trim};

verus! {

broadcast use crate::text::views_push;

// ---------------------------------------------------------------------------
// Panes
// ---------------------------------------------------------------------------

/// A pane as it is now.
#[derive(Debug)]
pub struct TmuxPaneSnapshot {
    pub pane_id: String,
    pub session: String,
    pub pane_name: String,
    pub content: String,
    pub pane_dead: bool,
}

/// A pane as it is now.
pub struct SnapshotView {
    pub pane_id: Seq<char>,
    pub session: Seq<char>,
    pub pane_name: Seq<char>,
    pub content: Seq<char>,
    pub pane_dead: bool,
}

impl View for TmuxPaneSnapshot {
    type V = SnapshotView;

    open spec fn view(&self) -> SnapshotView {
        SnapshotView {
            pane_id: self.pane_id@,
            session: self.session@,
            pane_name: self.pane_name@,
            content: self.content@,
            pane_dead: self.pane_dead,
        }
    }
}

/// A pane as it was last seen, with moments in milliseconds.
#[derive(Debug)]
pub struct TmuxPaneState {
    pub session: String,
    pub pane_name: String,
    pub snapshot: String,
    pub last_change: u64,
    pub last_stale_notification: Option<u64>,
    pub pane_dead: bool,
}

/// A pane as it was last seen.
pub struct PaneView {
    pub session: Seq<char>,
    pub pane_name: Seq<char>,
    pub snapshot: Seq<char>,
    pub last_change: u64,
    pub last_stale_notification: Option<u64>,
    pub pane_dead: bool,
}

impl View for TmuxPaneState {
    type V = PaneView;

    open spec fn view(&self) -> PaneView {
        PaneView {
            session: self.session@,
            pane_name: self.pane_name@,
            snapshot: self.snapshot@,
            last_change: self.last_change,
            last_stale_notification: self.last_stale_notification,
            pane_dead: self.pane_dead,
        }
    }
}

/// The whole minutes from one moment to another, none where it comes first.
pub open spec fn minutes(since_ms: u64, now_ms: u64) -> u64 {
    keywords::elapsed(since_ms, now_ms) / 60_000
}

fn minutes_between(since_ms: u64, now_ms: u64) -> (r: u64)
    ensures
        r == minutes(since_ms, now_ms),
{
    elapsed_ms(since_ms, now_ms) / 60_000
}

/// Some minutes have passed since a moment, or there was none.
pub open spec fn passed(since_ms: Option<u64>, now_ms: u64, mins: u64) -> bool {
    match since_ms {
        Some(since) => minutes(since, now_ms) >= mins,
        None => true,
    }
}

fn have_passed(since_ms: Option<u64>, now_ms: u64, mins: u64) -> (r: bool)
    ensures
        r == passed(since_ms, now_ms, mins),
{
    match since_ms {
        Some(since) => minutes_between(since, now_ms) >= mins,
        None => true,
    }
}

/// A pane is due to be called stale: it has not changed for some minutes, nor
/// was it called stale in them, and it is alive.
pub open spec fn is_stale(pane: PaneView, now_ms: u64, stale_minutes: u64) -> bool {
    stale_minutes > 0 && !pane.pane_dead && minutes(pane.last_change, now_ms) >= stale_minutes
        && passed(pane.last_stale_notification, now_ms, stale_minutes)
}

/// Tells whether a pane is due to be called stale.
pub fn should_emit_stale(pane: &TmuxPaneState, now_ms: u64, stale_minutes: u64) -> (r: bool)
    ensures
        r == is_stale(pane@, now_ms, stale_minutes),
{
    if stale_minutes == 0 || pane.pane_dead {
        return false;
    }
    minutes_between(pane.last_change, now_ms) >= stale_minutes && have_passed(
        pane.last_stale_notification,
        now_ms,
        stale_minutes,
    )
}

/// The lines that an output has gained.
pub open spec fn new_lines(old_content: Seq<char>, new_content: Seq<char>) -> int {
    if scan::lines(new_content).len() > scan::lines(old_content).len() {
        scan::lines(new_content).len() - scan::lines(old_content).len()
    } else {
        0
    }
}

/// A change is due to be summarized: enough lines are new, and the last summary
/// is some minutes old.
pub open spec fn is_summary_due(
    last_summarized: Option<u64>,
    interval_mins: u64,
    min_new_lines: usize,
    old_content: Seq<char>,
    new_content: Seq<char>,
    now_ms: u64,
) -> bool {
    new_lines(old_content, new_content) >= min_new_lines && (interval_mins == 0 || passed(
        last_summarized,
        now_ms,
        interval_mins,
    ))
}

/// Tells whether a change is due to be summarized.
pub fn should_summarize_now(
    last_summarized: Option<u64>,
    interval_mins: u64,
    min_new_lines: usize,
    old_content: &str,
    new_content: &str,
    now_ms: u64,
) -> (r: bool)
    ensures
        r == is_summary_due(
            last_summarized,
            interval_mins,
            min_new_lines,
            old_content@,
            new_content@,
            now_ms,
        ),
{
    if min_new_lines > 0 && count_new_lines(old_content, new_content) < min_new_lines {
        return false;
    }
    if interval_mins == 0 {
        return true;
    }
    have_passed(last_summarized, now_ms, interval_mins)
}

// ---------------------------------------------------------------------------
// Events
// ---------------------------------------------------------------------------

/// The keywords and lines of some hits, as an event lists them.
pub open spec fn hits_node(hits: Seq<HitView>) -> Node {
    Node::List(Seq::new(hits.len(), |i: int| events::hit_node(hits[i].keyword, hits[i].line)))
}

/// What an event says of some hits.
pub open spec fn hits_payload(session: Seq<char>, hits: Seq<HitView>) -> Node {
    if hits.len() <= 1 {
        let (keyword, line) = if hits.len() == 1 {
            (hits[0].keyword, hits[0].line)
        } else {
            (Seq::empty(), Seq::empty())
        };
        json::empty().with_text("session"@, session).with_text("keyword"@, keyword).with_text(
            "line"@,
            line,
        )
    } else {
        json::empty().with_text("session"@, session).with_count(
            "hit_count"@,
            hits.len() as u64,
        ).with("hits"@, hits_node(hits))
    }
}

/// The event of some hits in a session.
pub open spec fn keyword_event(r: RegistrationView, session: Seq<char>, hits: Seq<HitView>) -> EventView {
    EventView {
        kind: "tmux.keyword"@,
        channel: r.channel,
        mention: r.mention,
        format: r.format,
        template: None,
        payload: events::with_metadata(hits_payload(session, hits), r.routing),
    }
}

/// The event of some hits in a session.
pub fn tmux_keyword_event(
    registration: &RegisteredTmuxSession,
    session: &str,
    hits: &Vec<KeywordHit>,
) -> (r: IncomingEvent)
    ensures
        r@ == keyword_event(registration@, session@, text::all_views(hits@)),
{
    let ghost all = text::all_views(hits@);
    assert(all.len() == hits@.len());
    let event = if hits.len() == 0 {
        IncomingEvent::tmux_keyword(
            session.to_owned(),
            String::new(),
            String::new(),
            copy_opt(&registration.channel),
        )
    } else if hits.len() == 1 {
        assert(all[0] == hits@[0]@);
        IncomingEvent::tmux_keyword(
            session.to_owned(),
            hits[0].keyword.clone(),
            hits[0].line.clone(),
            copy_opt(&registration.channel),
        )
    } else {
        let mut pairs: Vec<(String, String)> = Vec::new();
        let mut i: usize = 0;
        while i < hits.len()
            invariant
                i <= hits.len(),
                all == text::all_views(hits@),
                pairs@.len() == i,
                forall|k: int|
                    0 <= k < i ==> (#[trigger] pairs@[k]).0@ == all[k].keyword && pairs@[k].1@
                        == all[k].line,
            decreases hits.len() - i,
        {
            assert(all[i as int] == hits@[i as int]@);
            pairs.push((hits[i].keyword.clone(), hits[i].line.clone()));
            i = i + 1;
        }
        assert(Node::List(events::hit_nodes(pairs@)) == hits_node(all)) by {
            assert(events::hit_nodes(pairs@) =~= Seq::new(
                all.len(),
                |k: int| events::hit_node(all[k].keyword, all[k].line),
            ));
        }
        IncomingEvent::tmux_keywords(session.to_owned(), pairs, copy_opt(&registration.channel))
    };
    event.with_routing_metadata(&registration.routing).with_mention(
        copy_opt(&registration.mention),
    ).with_format(registration.format)
}

/// The event of a stale pane.
pub open spec fn stale_event(
    r: RegistrationView,
    session: Seq<char>,
    pane: Seq<char>,
    last_line: Seq<char>,
) -> EventView {
    EventView {
        kind: "tmux.stale"@,
        channel: r.channel,
        mention: r.mention,
        format: r.format,
        template: None,
        payload: events::with_metadata(
            json::empty().with_text("session"@, session).with_text("pane"@, pane).with_count(
                "minutes"@,
                r.stale_minutes,
            ).with_text("last_line"@, last_line),
            r.routing,
        ),
    }
}

/// The event of a stale pane.
pub fn tmux_stale_event(
    registration: &RegisteredTmuxSession,
    session: &str,
    pane: &str,
    last_line: &str,
) -> (r: IncomingEvent)
    ensures
        r@ == stale_event(registration@, session@, pane@, last_line@),
{
    IncomingEvent::tmux_stale(
        session.to_owned(),
        pane.to_owned(),
        registration.stale_minutes,
        last_line.to_owned(),
        copy_opt(&registration.channel),
    ).with_routing_metadata(&registration.routing).with_mention(
        copy_opt(&registration.mention),
    ).with_format(registration.format)
}

/// The heartbeat of a session.
pub open spec fn heartbeat_event(r: RegistrationView, session: Seq<char>, mins: u64) -> EventView {
    EventView {
        kind: "tmux.heartbeat"@,
        channel: r.channel,
        mention: r.mention,
        format: r.format,
        template: None,
        payload: json::empty().with_text("session"@, session).with_count(
            "minutes_since_change"@,
            mins,
        ),
    }
}

/// The heartbeat of a session.
pub fn tmux_heartbeat_event(
    registration: &RegisteredTmuxSession,
    session: &str,
    minutes_since_change: u64,
) -> (r: IncomingEvent)
    ensures
        r@ == heartbeat_event(registration@, session@, minutes_since_change),
{
    IncomingEvent::tmux_heartbeat(
        session.to_owned(),
        minutes_since_change,
        copy_opt(&registration.channel),
    ).with_mention(copy_opt(&registration.mention)).with_format(registration.format)
}

/// A change of a pane that is to be summarized.
#[derive(Debug)]
pub struct SummaryRequest {
    pub registration: RegisteredTmuxSession,
    pub session: String,
    pub pane: String,
    pub content: String,
}

/// What is to be done after a look at a session.
#[derive(Debug)]
pub enum TmuxAction {
    Emit(IncomingEvent),
    Summarize(SummaryRequest),
}

/// What is to be done after a look at a session.
pub enum ActionView {
    Emit(EventView),
    Summarize {
        registration: RegistrationView,
        session: Seq<char>,
        pane: Seq<char>,
        content: Seq<char>,
    },
}

impl View for TmuxAction {
    type V = ActionView;

    open spec fn view(&self) -> ActionView {
        match self {
            TmuxAction::Emit(event) => ActionView::Emit(event@),
            TmuxAction::Summarize(request) => ActionView::Summarize {
                registration: request.registration@,
                session: request.session@,
                pane: request.pane@,
                content: request.content@,
            },
        }
    }
}

/// Actions with one more.
pub open spec fn with_event(actions: Seq<ActionView>, event: Option<EventView>) -> Seq<ActionView> {
    match event {
        Some(e) => actions.push(ActionView::Emit(e)),
        None => actions,
    }
}

fn push_action(actions: &mut Vec<TmuxAction>, action: TmuxAction)
    ensures
        text::all_views(final(actions)@) == text::all_views(old(actions)@).push(action@),
{
    let ghost before = text::all_views(actions@);
    let ghost view = action@;
    actions.push(action);
    assert(text::all_views(actions@) =~= before.push(view));
}

fn push_event(actions: &mut Vec<TmuxAction>, event: Option<IncomingEvent>)
    ensures
        text::all_views(final(actions)@) == with_event(
            text::all_views(old(actions)@),
            table::opt_owned(event),
        ),
{
    match event {
        Some(e) => push_action(actions, TmuxAction::Emit(e)),
        None => {},
    }
}

// ---------------------------------------------------------------------------
// Keyword windows
// ---------------------------------------------------------------------------

/// The seconds for which the hits of a session are gathered.
pub open spec fn window_secs(r: RegistrationView) -> u64 {
    if r.keyword_window_secs > 1 {
        r.keyword_window_secs
    } else {
        1
    }
}

/// A window is over, or forced to be.
pub open spec fn is_over(pending: Option<PendingView>, r: RegistrationView, now_ms: u64, force: bool) -> bool {
    match pending {
        Some(p) => force || keywords::elapsed(p.started_ms, now_ms) >= window_secs(r) * 1000,
        None => false,
    }
}

/// The event of a window that is over, if it has hits.
pub open spec fn window_event(
    pending: Option<PendingView>,
    r: RegistrationView,
    session: Seq<char>,
    now_ms: u64,
    force: bool,
) -> Option<EventView> {
    match pending {
        Some(p) => if is_over(pending, r, now_ms, force) && p.hits.len() > 0 {
            Some(keyword_event(r, session, p.hits))
        } else {
            None
        },
        None => None,
    }
}

/// What is left of a window.
pub open spec fn window_rest(
    pending: Option<PendingView>,
    r: RegistrationView,
    now_ms: u64,
    force: bool,
) -> Option<PendingView> {
    if is_over(pending, r, now_ms, force) {
        None
    } else {
        pending
    }
}

/// A window with further hits: one begins where there is none.
pub open spec fn window_with(
    pending: Option<PendingView>,
    now_ms: u64,
    hits: Seq<HitView>,
) -> Option<PendingView> {
    if hits.len() == 0 {
        pending
    } else {
        match pending {
            Some(p) => Some(PendingView { hits: keywords::with_hits(p.hits, hits), ..p }),
            None => Some(
                PendingView {
                    started_ms: now_ms,
                    hits: keywords::with_hits(Seq::empty(), hits),
                },
            ),
        }
    }
}

/// Ends a window that is over, and hands out its event.
pub fn flush_pending_keyword_hits(
    pending: &mut Option<PendingKeywordHits>,
    registration: &RegisteredTmuxSession,
    session: &str,
    now_ms: u64,
    force: bool,
) -> (r: Option<IncomingEvent>)
    ensures
        table::opt_owned(r) == window_event(
            table::opt_owned(*old(pending)),
            registration@,
            session@,
            now_ms,
            force,
        ),
        table::opt_owned(*final(pending)) == window_rest(
            table::opt_owned(*old(pending)),
            registration@,
            now_ms,
            force,
        ),
{
    let window: u64 = if registration.keyword_window_secs > 1 {
        registration.keyword_window_secs
    } else {
        1
    };
    match pending.take() {
        Some(open) => {
            if force || open.ready_to_flush(now_ms, window) {
                let hits = open.into_hits();
                assert(text::all_views(hits@).len() == hits@.len());
                if hits.len() == 0 {
                    None
                } else {
                    Some(tmux_keyword_event(registration, session, &hits))
                }
            } else {
                *pending = Some(open);
                None
            }
        },
        None => None,
    }
}

/// Adds hits to a window; one begins where there is none.
pub fn push_pending_keyword_hits(
    pending: &mut Option<PendingKeywordHits>,
    now_ms: u64,
    hits: Vec<KeywordHit>,
)
    ensures
        table::opt_owned(*final(pending)) == window_with(
            table::opt_owned(*old(pending)),
            now_ms,
            text::all_views(hits@),
        ),
{
    assert(text::all_views(hits@).len() == hits@.len());
    if hits.len() == 0 {
        return ;
    }
    let mut open = match pending.take() {
        Some(open) => open,
        None => PendingKeywordHits::new(now_ms),
    };
    open.push(hits);
    *pending = Some(open);
}

// ---------------------------------------------------------------------------
// One pane
// ---------------------------------------------------------------------------

/// A pane that is seen for the first time.
pub open spec fn first_seen(pane: SnapshotView, now_ms: u64) -> PaneView {
    PaneView {
        session: pane.session,
        pane_name: pane.pane_name,
        snapshot: pane.content,
        last_change: now_ms,
        last_stale_notification: None,
        pane_dead: pane.pane_dead,
    }
}

/// The content of a known pane is another.
pub open spec fn has_changed(existing: Option<PaneView>, pane: SnapshotView) -> bool {
    existing matches Some(old_pane) && old_pane.snapshot != pane.content
}

/// A known pane that has not changed is due to be called stale.
pub open spec fn turns_stale(
    existing: Option<PaneView>,
    pane: SnapshotView,
    r: RegistrationView,
    now_ms: u64,
) -> bool {
    existing matches Some(old_pane) && old_pane.snapshot == pane.content && is_stale(
        PaneView { pane_dead: pane.pane_dead, ..old_pane },
        now_ms,
        r.stale_minutes,
    )
}

/// What is kept of a pane after a look at it. Where its content changed, the
/// name of its session follows where `follow` says so.
pub open spec fn pane_after(
    existing: Option<PaneView>,
    pane: SnapshotView,
    r: RegistrationView,
    now_ms: u64,
    follow: bool,
) -> PaneView {
    match existing {
        None => first_seen(pane, now_ms),
        Some(old_pane) => if has_changed(existing, pane) {
            PaneView {
                session: if follow {
                    pane.session
                } else {
                    old_pane.session
                },
                ..first_seen(pane, now_ms)
            }
        } else {
            PaneView {
                pane_dead: pane.pane_dead,
                last_stale_notification: if turns_stale(existing, pane, r, now_ms) {
                    Some(now_ms)
                } else {
                    old_pane.last_stale_notification
                },
                ..old_pane
            }
        },
    }
}

/// The hits of a look at a pane.
pub open spec fn pane_hits(
    existing: Option<PaneView>,
    pane: SnapshotView,
    r: RegistrationView,
) -> Seq<HitView> {
    match existing {
        Some(old_pane) => if has_changed(existing, pane) {
            keywords::gained_hits(
                scan::lines(old_pane.snapshot),
                scan::lines(pane.content),
                r.keywords,
            )
        } else {
            Seq::empty()
        },
        None => Seq::empty(),
    }
}

/// A look at a pane asks for a summary.
pub open spec fn pane_summarized(
    existing: Option<PaneView>,
    pane: SnapshotView,
    r: RegistrationView,
    last_summarized: Option<u64>,
    now_ms: u64,
) -> bool {
    has_changed(existing, pane) && r.summarize && is_summary_due(
        last_summarized,
        r.summary_minutes(),
        r.min_new_lines,
        existing->0.snapshot,
        pane.content,
        now_ms,
    )
}

/// The event of a pane that turns stale.
pub open spec fn pane_stale_event(
    existing: Option<PaneView>,
    pane: SnapshotView,
    r: RegistrationView,
    now_ms: u64,
) -> Option<EventView> {
    if turns_stale(existing, pane, r, now_ms) {
        Some(
            stale_event(
                r,
                existing->0.session,
                existing->0.pane_name,
                keywords::shown_line(pane.content),
            ),
        )
    } else {
        None
    }
}

/// What a look at a pane shows.
pub struct PaneObservation {
    pub state: TmuxPaneState,
    pub hits: Vec<KeywordHit>,
    pub summarize: bool,
    pub stale: Option<IncomingEvent>,
    /// The pane is new, or its content changed.
    pub changed: bool,
}

/// Looks at a pane.
pub fn observe_pane(
    existing: Option<TmuxPaneState>,
    pane: &TmuxPaneSnapshot,
    registration: &RegisteredTmuxSession,
    last_summarized: Option<u64>,
    now_ms: u64,
    follow: bool,
) -> (r: PaneObservation)
    ensures
        r.state@ == pane_after(table::opt_owned(existing), pane@, registration@, now_ms, follow),
        text::all_views(r.hits@) == pane_hits(table::opt_owned(existing), pane@, registration@),
        r.summarize == pane_summarized(
            table::opt_owned(existing),
            pane@,
            registration@,
            last_summarized,
            now_ms,
        ),
        table::opt_owned(r.stale) == pane_stale_event(
            table::opt_owned(existing),
            pane@,
            registration@,
            now_ms,
        ),
        r.changed == (existing is None || has_changed(table::opt_owned(existing), pane@)),
{
    let fresh = TmuxPaneState {
        session: pane.session.clone(),
        pane_name: pane.pane_name.clone(),
        snapshot: pane.content.clone(),
        last_change: now_ms,
        last_stale_notification: None,
        pane_dead: pane.pane_dead,
    };
    match existing {
        None => {
            let hits: Vec<KeywordHit> = Vec::new();
            assert(text::all_views(hits@) =~= Seq::<HitView>::empty());
            PaneObservation { state: fresh, hits, summarize: false, stale: None, changed: true }
        },
        Some(known) => {
            if !same(known.snapshot.as_str(), pane.content.as_str()) {
                let hits = collect_gained_hits(
                    known.snapshot.as_str(),
                    pane.content.as_str(),
                    &registration.keywords,
                );
                let summarize = registration.summarize && should_summarize_now(
                    last_summarized,
                    registration.effective_summary_interval(),
                    registration.min_new_lines,
                    known.snapshot.as_str(),
                    pane.content.as_str(),
                    now_ms,
                );
                let mut state = fresh;
                if !follow {
                    state.session = known.session;
                }
                PaneObservation { state, hits, summarize, stale: None, changed: true }
            } else {
                let hits: Vec<KeywordHit> = Vec::new();
                assert(text::all_views(hits@) =~= Seq::<HitView>::empty());
                let mut state = known;
                state.pane_dead = pane.pane_dead;
                let stale = if should_emit_stale(&state, now_ms, registration.stale_minutes) {
                    let last_line = last_nonempty_line(pane.content.as_str());
                    let event = tmux_stale_event(
                        registration,
                        state.session.as_str(),
                        state.pane_name.as_str(),
                        last_line.as_str(),
                    );
                    state.last_stale_notification = Some(now_ms);
                    Some(event)
                } else {
                    None
                };
                PaneObservation { state, hits, summarize: false, stale, changed: false }
            }
        },
    }
}

// ---------------------------------------------------------------------------
// Heartbeats
// ---------------------------------------------------------------------------

/// The panes that are known, by their keys.
pub type Panes = Seq<(Seq<char>, PaneView)>;

/// The latest change among the panes of a session, or of all sessions.
pub open spec fn latest_change(panes: Panes, session: Option<Seq<char>>) -> Option<u64>
    decreases panes.len(),
{
    if panes.len() == 0 {
        None
    } else {
        let so_far = latest_change(panes.drop_last(), session);
        let pane = panes.last().1;
        if session matches Some(name) && pane.session != name {
            so_far
        } else {
            match so_far {
                Some(moment) => if pane.last_change > moment {
                    Some(pane.last_change)
                } else {
                    so_far
                },
                None => Some(pane.last_change),
            }
        }
    }
}

fn find_latest_change(panes: &Vec<(String, TmuxPaneState)>, session: Option<&str>) -> (r: Option<u64>)
    ensures
        r == latest_change(table::pairs(panes@), text::opt_str(session)),
{
    let ghost all = table::pairs(panes@);
    let ghost name = text::opt_str(session);
    let mut latest: Option<u64> = None;
    let mut i: usize = 0;
    while i < panes.len()
        invariant
            i <= panes.len(),
            all == table::pairs(panes@),
            name == text::opt_str(session),
            latest == latest_change(all.take(i as int), name),
        decreases panes.len() - i,
    {
        assert(all.take(i + 1).drop_last() =~= all.take(i as int));
        assert(all.take(i + 1).last() == all[i as int]);
        let pane = &panes[i].1;
        let counts = match session {
            Some(wanted) => same(pane.session.as_str(), wanted),
            None => true,
        };
        if counts {
            latest = match latest {
                Some(moment) => if pane.last_change > moment {
                    Some(pane.last_change)
                } else {
                    latest
                },
                None => Some(pane.last_change),
            };
        }
        i = i + 1;
    }
    assert(all.take(i as int) =~= all);
    latest
}

/// A heartbeat is due: nothing changed for its interval, nor was there a
/// heartbeat.
pub open spec fn is_heartbeat_due(
    change: Option<u64>,
    last_heartbeat: u64,
    interval_mins: u64,
    now_ms: u64,
) -> bool {
    change matches Some(moment) && minutes(moment, now_ms) >= interval_mins && minutes(
        last_heartbeat,
        now_ms,
    ) >= interval_mins
}

/// The moment of the last heartbeat after a look at a session: none where there
/// are no heartbeats, and the present one where a heartbeat is due.
pub open spec fn heartbeat_after(
    r: RegistrationView,
    change: Option<u64>,
    last_heartbeat: Option<u64>,
    now_ms: u64,
) -> Option<u64> {
    if r.heartbeat_minutes() == 0 {
        None
    } else {
        let last = match last_heartbeat {
            Some(moment) => moment,
            None => now_ms,
        };
        if is_heartbeat_due(change, last, r.heartbeat_minutes(), now_ms) {
            Some(now_ms)
        } else {
            Some(last)
        }
    }
}

/// The heartbeat of a look at a session.
pub open spec fn heartbeat_of(
    r: RegistrationView,
    session: Seq<char>,
    change: Option<u64>,
    last_heartbeat: Option<u64>,
    now_ms: u64,
) -> Option<EventView> {
    let last = match last_heartbeat {
        Some(moment) => moment,
        None => now_ms,
    };
    if r.heartbeat_minutes() > 0 && is_heartbeat_due(
        change,
        last,
        r.heartbeat_minutes(),
        now_ms,
    ) {
        Some(heartbeat_event(r, session, minutes(change->0, now_ms)))
    } else {
        None
    }
}

/// The heartbeat of a session, if it is due, and the moment of the last one.
pub fn beat(
    registration: &RegisteredTmuxSession,
    session: &str,
    change: Option<u64>,
    last_heartbeat: Option<u64>,
    now_ms: u64,
) -> (r: (Option<IncomingEvent>, Option<u64>))
    ensures
        table::opt_owned(r.0) == heartbeat_of(
            registration@,
            session@,
            change,
            last_heartbeat,
            now_ms,
        ),
        r.1 == heartbeat_after(registration@, change, last_heartbeat, now_ms),
{
    let interval = registration.effective_heartbeat_mins();
    if interval == 0 {
        return (None, None);
    }
    let last: u64 = match last_heartbeat {
        Some(moment) => moment,
        None => now_ms,
    };
    match change {
        Some(moment) => {
            let quiet = minutes_between(moment, now_ms);
            if quiet >= interval && minutes_between(last, now_ms) >= interval {
                (Some(tmux_heartbeat_event(registration, session, quiet)), Some(now_ms))
            } else {
                (None, Some(last))
            }
        },
        None => (None, Some(last)),
    }
}

// ---------------------------------------------------------------------------
// A poll of all sessions
// ---------------------------------------------------------------------------

/// What is remembered between two polls, in tables by pane and by session.
#[derive(Debug)]
pub struct TmuxMonitorState {
    pub panes: Vec<(String, TmuxPaneState)>,
    pub pending_keyword_hits: Vec<(String, PendingKeywordHits)>,
    pub session_last_heartbeat: Vec<(String, u64)>,
    pub session_last_summarized: Vec<(String, u64)>,
}

/// What is remembered between two polls.
pub struct MonitorView {
    pub panes: Panes,
    pub pending: Seq<(Seq<char>, PendingView)>,
    pub heartbeats: Seq<(Seq<char>, u64)>,
    pub summaries: Seq<(Seq<char>, u64)>,
}

impl View for TmuxMonitorState {
    type V = MonitorView;

    open spec fn view(&self) -> MonitorView {
        MonitorView {
            panes: table::pairs(self.panes@),
            pending: table::pairs(self.pending_keyword_hits@),
            heartbeats: table::pairs(self.session_last_heartbeat@),
            summaries: table::pairs(self.session_last_summarized@),
        }
    }
}

impl MonitorView {
    /// The tables are in the order of their keys.
    pub open spec fn well_formed(self) -> bool {
        table::in_order(self.panes) && table::in_order(self.pending) && table::in_order(
            self.heartbeats,
        ) && table::in_order(self.summaries)
    }
}

impl Default for TmuxMonitorState {
    fn default() -> (r: Self)
        ensures
            r@ == (MonitorView {
                panes: Seq::empty(),
                pending: Seq::empty(),
                heartbeats: Seq::empty(),
                summaries: Seq::empty(),
            }),
            r@.well_formed(),
    {
        let r = TmuxMonitorState {
            panes: Vec::new(),
            pending_keyword_hits: Vec::new(),
            session_last_heartbeat: Vec::new(),
            session_last_summarized: Vec::new(),
        };
        assert(r@.panes =~= Seq::empty());
        assert(r@.pending =~= Seq::empty());
        assert(r@.heartbeats =~= Seq::empty());
        assert(r@.summaries =~= Seq::empty());
        r
    }
}

/// What tmux says of a session.
#[derive(Debug)]
pub enum SessionProbe {
    /// There is no such session.
    Gone,
    /// It could not be asked, or its panes could not be read.
    Unreadable,
    Panes(Vec<TmuxPaneSnapshot>),
}

/// What tmux says of a session.
pub enum ProbeView {
    Gone,
    Unreadable,
    Panes(Seq<SnapshotView>),
}

impl View for SessionProbe {
    type V = ProbeView;

    open spec fn view(&self) -> ProbeView {
        match self {
            SessionProbe::Gone => ProbeView::Gone,
            SessionProbe::Unreadable => ProbeView::Unreadable,
            SessionProbe::Panes(panes) => ProbeView::Panes(text::all_views(panes@)),
        }
    }
}

/// A table with a key set, or taken out where there is no value.
pub open spec fn settle<V>(m: Seq<(Seq<char>, V)>, key: Seq<char>, value: Option<V>) -> Seq<
    (Seq<char>, V),
> {
    match value {
        Some(v) => table::put(m, key, v),
        None => table::without(m, key),
    }
}

fn settle_entry<T: View>(entries: &mut Vec<(String, T)>, key: &str, value: Option<T>)
    requires
        table::in_order(table::pairs(old(entries)@)),
    ensures
        table::pairs(final(entries)@) == settle(
            table::pairs(old(entries)@),
            key@,
            table::opt_owned(value),
        ),
        table::in_order(table::pairs(final(entries)@)),
{
    let ghost m = table::pairs(entries@);
    match value {
        Some(v) => {
            proof {
                table::law_put_keeps_order(m, key@, v@);
            }
            set_entry(entries, key, v);
        },
        None => {
            proof {
                table::law_without_keeps_order(m, key@);
            }
            let _ = remove_entry(entries, key);
        },
    }
}

/// The key of a pane.
pub open spec fn pane_key(pane: SnapshotView) -> Seq<char> {
    pane.session + "::"@ + pane.pane_id
}

/// What has come of a poll so far.
pub struct Polled {
    pub state: MonitorView,
    pub actions: Seq<ActionView>,
    /// The keys of the panes that were seen.
    pub seen: Seq<Seq<char>>,
    /// The sessions that are gone.
    pub gone: Seq<Seq<char>>,
    /// Some pane of the session at hand is new or has changed.
    pub changed: bool,
}

/// The actions with a summary of a pane where one is asked for.
pub open spec fn with_summary(
    actions: Seq<ActionView>,
    asked: bool,
    r: RegistrationView,
    session: Seq<char>,
    pane: SnapshotView,
) -> Seq<ActionView> {
    if asked {
        actions.push(
            ActionView::Summarize {
                registration: r,
                session,
                pane: pane.pane_name,
                content: pane.content,
            },
        )
    } else {
        actions
    }
}

/// What has come of a poll after one more pane.
pub open spec fn pane_polled(
    polled: Polled,
    session: Seq<char>,
    r: RegistrationView,
    pane: SnapshotView,
    now_ms: u64,
) -> Polled {
    let key = pane_key(pane);
    let state = polled.state;
    let existing = table::lookup(state.panes, key);
    let asked = pane_summarized(
        existing,
        pane,
        r,
        table::lookup(state.summaries, session),
        now_ms,
    );
    let hits = pane_hits(existing, pane, r);
    Polled {
        state: MonitorView {
            panes: table::put(state.panes, key, pane_after(existing, pane, r, now_ms, false)),
            pending: settle(
                state.pending,
                session,
                window_with(table::lookup(state.pending, session), now_ms, hits),
            ),
            summaries: if asked {
                table::put(state.summaries, session, now_ms)
            } else {
                state.summaries
            },
            ..state
        },
        actions: with_event(
            with_summary(polled.actions, asked, r, session, pane),
            pane_stale_event(existing, pane, r, now_ms),
        ),
        seen: polled.seen.push(key),
        changed: polled.changed || existing is None || has_changed(existing, pane),
        ..polled
    }
}

/// What has come of a poll after the panes of a session.
pub open spec fn panes_polled(
    polled: Polled,
    session: Seq<char>,
    r: RegistrationView,
    panes: Seq<SnapshotView>,
    now_ms: u64,
) -> Polled
    decreases panes.len(),
{
    if panes.len() == 0 {
        polled
    } else {
        pane_polled(
            panes_polled(polled, session, r, panes.drop_last(), now_ms),
            session,
            r,
            panes.last(),
            now_ms,
        )
    }
}

/// What has come of a poll after the heartbeat of a session.
pub open spec fn beat_polled(
    polled: Polled,
    session: Seq<char>,
    r: RegistrationView,
    now_ms: u64,
) -> Polled {
    let change = latest_change(polled.state.panes, Some(session));
    let last = if polled.changed {
        Some(now_ms)
    } else {
        table::lookup(polled.state.heartbeats, session)
    };
    Polled {
        state: MonitorView {
            heartbeats: settle(
                polled.state.heartbeats,
                session,
                heartbeat_after(r, change, last, now_ms),
            ),
            ..polled.state
        },
        actions: with_event(polled.actions, heartbeat_of(r, session, change, last, now_ms)),
        ..polled
    }
}

/// What has come of a poll after the window of a session was looked at.
pub open spec fn window_polled(
    polled: Polled,
    session: Seq<char>,
    r: RegistrationView,
    now_ms: u64,
    force: bool,
) -> Polled {
    let pending = table::lookup(polled.state.pending, session);
    Polled {
        state: MonitorView {
            pending: settle(polled.state.pending, session, window_rest(pending, r, now_ms, force)),
            ..polled.state
        },
        actions: with_event(polled.actions, window_event(pending, r, session, now_ms, force)),
        ..polled
    }
}

/// An entry that belongs to another session.
pub open spec fn of_others(session: Seq<char>) -> spec_fn((Seq<char>, PaneView)) -> bool {
    |entry: (Seq<char>, PaneView)| entry.1.session != session
}

/// What has come of a poll after one more session.
pub open spec fn session_polled(
    polled: Polled,
    session: Seq<char>,
    r: RegistrationView,
    probe: ProbeView,
    now_ms: u64,
) -> Polled {
    if r.active_wrapper_monitor {
        Polled {
            state: MonitorView {
                pending: table::without(polled.state.pending, session),
                heartbeats: table::without(polled.state.heartbeats, session),
                ..polled.state
            },
            ..polled
        }
    } else {
        let flushed = window_polled(polled, session, r, now_ms, false);
        match probe {
            ProbeView::Unreadable => flushed,
            ProbeView::Gone => {
                let forced = window_polled(flushed, session, r, now_ms, true);
                Polled {
                    state: MonitorView {
                        panes: table::kept(forced.state.panes, of_others(session)),
                        heartbeats: table::without(forced.state.heartbeats, session),
                        ..forced.state
                    },
                    gone: forced.gone.push(session),
                    ..forced
                }
            },
            ProbeView::Panes(panes) => beat_polled(
                panes_polled(Polled { changed: false, ..flushed }, session, r, panes, now_ms),
                session,
                r,
                now_ms,
            ),
        }
    }
}

/// What has come of a poll after some sessions.
pub open spec fn sessions_polled(
    state: MonitorView,
    sessions: Registry,
    probes: Seq<ProbeView>,
    now_ms: u64,
) -> Polled
    decreases sessions.len(),
{
    if sessions.len() == 0 {
        Polled {
            state,
            actions: Seq::empty(),
            seen: Seq::empty(),
            gone: Seq::empty(),
            changed: false,
        }
    } else {
        session_polled(
            sessions_polled(state, sessions.drop_last(), probes, now_ms),
            sessions.last().0,
            sessions.last().1,
            probes[sessions.len() - 1],
            now_ms,
        )
    }
}

/// An entry with one of some keys.
pub open spec fn has_key<V>(keys: Seq<Seq<char>>) -> spec_fn((Seq<char>, V)) -> bool {
    |entry: (Seq<char>, V)| keys.contains(entry.0)
}

/// The keys of a table.
pub open spec fn keys_of<V>(m: Seq<(Seq<char>, V)>) -> Seq<Seq<char>> {
    Seq::new(m.len(), |i: int| m[i].0)
}

/// What is remembered after a poll: the panes that were seen, and what is known
/// of the sessions that were polled.
pub open spec fn state_after(polled: Polled, sessions: Registry) -> MonitorView {
    let names = keys_of(sessions);
    MonitorView {
        panes: table::kept(polled.state.panes, has_key(polled.seen)),
        pending: table::kept(polled.state.pending, has_key(names)),
        heartbeats: table::kept(polled.state.heartbeats, has_key(names)),
        summaries: table::kept(polled.state.summaries, has_key(names)),
    }
}

pub(crate) fn keep_keys<T: View>(entries: &mut Vec<(String, T)>, keys: &Vec<String>)
    requires
        table::in_order(table::pairs(old(entries)@)),
    ensures
        table::pairs(final(entries)@) == table::kept(
            table::pairs(old(entries)@),
            has_key(text::views(keys@)),
        ),
        table::in_order(table::pairs(final(entries)@)),
{
    let ghost m = table::pairs(entries@);
    let ghost keep: spec_fn((Seq<char>, T::V)) -> bool = has_key(text::views(keys@));
    let mut marks: Vec<bool> = Vec::new();
    let mut i: usize = 0;
    while i < entries.len()
        invariant
            i <= entries.len(),
            entries@ == old(entries)@,
            m == table::pairs(entries@),
            keep == has_key::<T::V>(text::views(keys@)),
            marks@.len() == i,
            forall|k: int| 0 <= k < i ==> #[trigger] marks@[k] == keep(m[k]),
        decreases entries.len() - i,
    {
        marks.push(list_has(keys, entries[i].0.as_str()));
        i = i + 1;
    }
    proof {
        table::law_kept_keeps_order(m, keep);
    }
    keep_marked(entries, &marks, Ghost(keep));
}

fn drop_session_panes(panes: &mut Vec<(String, TmuxPaneState)>, session: &str)
    requires
        table::in_order(table::pairs(old(panes)@)),
    ensures
        table::pairs(final(panes)@) == table::kept(table::pairs(old(panes)@), of_others(session@)),
        table::in_order(table::pairs(final(panes)@)),
{
    let ghost m = table::pairs(panes@);
    let mut marks: Vec<bool> = Vec::new();
    let mut i: usize = 0;
    while i < panes.len()
        invariant
            i <= panes.len(),
            panes@ == old(panes)@,
            m == table::pairs(panes@),
            marks@.len() == i,
            forall|k: int| 0 <= k < i ==> #[trigger] marks@[k] == (of_others(session@))(m[k]),
        decreases panes.len() - i,
    {
        marks.push(!same(panes[i].1.session.as_str(), session));
        i = i + 1;
    }
    proof {
        table::law_kept_keeps_order(m, of_others(session@));
    }
    keep_marked(panes, &marks, Ghost(of_others(session@)));
}

fn moment_of(moments: &Vec<(String, u64)>, key: &str) -> (r: Option<u64>)
    ensures
        r == table::lookup(table::pairs(moments@), key@),
{
    match find_entry(moments, key) {
        Some(moment) => Some(*moment),
        None => None,
    }
}

/// A poll that is under way.
struct Poll {
    state: TmuxMonitorState,
    actions: Vec<TmuxAction>,
    seen: Vec<String>,
    gone: Vec<String>,
    changed: bool,
}

impl Poll {
    spec fn so_far(&self) -> Polled {
        Polled {
            state: self.state@,
            actions: text::all_views(self.actions@),
            seen: text::views(self.seen@),
            gone: text::views(self.gone@),
            changed: self.changed,
        }
    }

    spec fn well_formed(&self) -> bool {
        self.state@.well_formed()
    }

    fn poll_pane(
        &mut self,
        session: &str,
        registration: &RegisteredTmuxSession,
        pane: &TmuxPaneSnapshot,
        now_ms: u64,
    )
        requires
            old(self).well_formed(),
        ensures
            final(self).well_formed(),
            final(self).so_far() == pane_polled(
                old(self).so_far(),
                session@,
                registration@,
                pane@,
                now_ms,
            ),
    {
        let ghost before = self.so_far();
        let key = cat3(pane.session.as_str(), "::", pane.pane_id.as_str());
        let last_summarized = moment_of(&self.state.session_last_summarized, session);
        let ghost panes = self.state@.panes;
        let existing = remove_entry(&mut self.state.panes, key.as_str());
        let observation = observe_pane(
            existing,
            pane,
            registration,
            last_summarized,
            now_ms,
            false,
        );
        let PaneObservation { state, hits, summarize, stale, changed } = observation;
        proof {
            table::law_without_then_put(panes, key@, state@);
            table::law_put_keeps_order(panes, key@, state@);
        }
        set_entry(&mut self.state.panes, key.as_str(), state);
        if summarize {
            push_action(
                &mut self.actions,
                TmuxAction::Summarize(
                    SummaryRequest {
                        registration: registration.clone(),
                        session: session.to_owned(),
                        pane: pane.pane_name.clone(),
                        content: pane.content.clone(),
                    },
                ),
            );
            proof {
                table::law_put_keeps_order(before.state.summaries, session@, now_ms);
            }
            set_entry(&mut self.state.session_last_summarized, session, now_ms);
        }
        push_event(&mut self.actions, stale);
        let ghost pending_before = self.state@.pending;
        let mut pending = remove_entry(&mut self.state.pending_keyword_hits, session);
        push_pending_keyword_hits(&mut pending, now_ms, hits);
        proof {
            table::law_without_keeps_order(pending_before, session@);
            lemma_settle_again(pending_before, session@, table::opt_owned(pending));
        }
        settle_entry(&mut self.state.pending_keyword_hits, session, pending);
        self.seen.push(key);
        if changed {
            self.changed = true;
        }
        assert(self.so_far().seen =~= before.seen.push(key@));
    }

    fn poll_window(
        &mut self,
        session: &str,
        registration: &RegisteredTmuxSession,
        now_ms: u64,
        force: bool,
    )
        requires
            old(self).well_formed(),
        ensures
            final(self).well_formed(),
            final(self).so_far() == window_polled(
                old(self).so_far(),
                session@,
                registration@,
                now_ms,
                force,
            ),
    {
        let ghost pending_before = self.state@.pending;
        let mut pending = remove_entry(&mut self.state.pending_keyword_hits, session);
        let event = flush_pending_keyword_hits(
            &mut pending,
            registration,
            session,
            now_ms,
            force,
        );
        push_event(&mut self.actions, event);
        proof {
            table::law_without_keeps_order(pending_before, session@);
            lemma_settle_again(pending_before, session@, table::opt_owned(pending));
        }
        settle_entry(&mut self.state.pending_keyword_hits, session, pending);
    }

    fn poll_beat(&mut self, session: &str, registration: &RegisteredTmuxSession, now_ms: u64)
        requires
            old(self).well_formed(),
        ensures
            final(self).well_formed(),
            final(self).so_far() == beat_polled(
                old(self).so_far(),
                session@,
                registration@,
                now_ms,
            ),
    {
        let change = find_latest_change(&self.state.panes, Some(session));
        let last = if self.changed {
            Some(now_ms)
        } else {
            moment_of(&self.state.session_last_heartbeat, session)
        };
        let (event, moment) = beat(registration, session, change, last, now_ms);
        assert(table::opt_owned(moment) == moment);
        push_event(&mut self.actions, event);
        settle_entry(&mut self.state.session_last_heartbeat, session, moment);
    }

    fn poll_session(
        &mut self,
        session: &str,
        registration: &RegisteredTmuxSession,
        probe: &SessionProbe,
        now_ms: u64,
    )
        requires
            old(self).well_formed(),
        ensures
            final(self).well_formed(),
            final(self).so_far() == session_polled(
                old(self).so_far(),
                session@,
                registration@,
                probe@,
                now_ms,
            ),
    {
        if registration.active_wrapper_monitor {
            settle_entry(&mut self.state.pending_keyword_hits, session, None);
            settle_entry(&mut self.state.session_last_heartbeat, session, None);
            return ;
        }
        self.poll_window(session, registration, now_ms, false);
        match probe {
            SessionProbe::Unreadable => {},
            SessionProbe::Gone => {
                self.poll_window(session, registration, now_ms, true);
                let ghost gone = text::views(self.gone@);
                self.gone.push(session.to_owned());
                assert(text::views(self.gone@) =~= gone.push(session@));
                drop_session_panes(&mut self.state.panes, session);
                settle_entry(&mut self.state.session_last_heartbeat, session, None);
            },
            SessionProbe::Panes(panes) => {
                self.changed = false;
                let ghost start = self.so_far();
                let ghost all = text::all_views(panes@);
                let mut i: usize = 0;
                while i < panes.len()
                    invariant
                        i <= panes.len(),
                        all == text::all_views(panes@),
                        self.well_formed(),
                        self.so_far() == panes_polled(
                            start,
                            session@,
                            registration@,
                            all.take(i as int),
                            now_ms,
                        ),
                    decreases panes.len() - i,
                {
                    assert(all.take(i + 1).drop_last() =~= all.take(i as int));
                    assert(all.take(i + 1).last() == panes@[i as int]@);
                    self.poll_pane(session, registration, &panes[i], now_ms);
                    i = i + 1;
                }
                assert(all.take(i as int) =~= all);
                self.poll_beat(session, registration, now_ms);
            },
        }
    }
}

proof fn lemma_settle_again<V>(m: Seq<(Seq<char>, V)>, key: Seq<char>, value: Option<V>)
    requires
        table::in_order(m),
    ensures
        settle(table::without(m, key), key, value) == settle(m, key, value),
{
    match value {
        Some(v) => table::law_without_then_put(m, key, v),
        None => {
            table::law_without_then_lookup(m, key, key);
            table::law_without_absent(table::without(m, key), key);
        },
    }
}

/// What is to be done after a poll.
pub struct TmuxPoll {
    pub actions: Vec<TmuxAction>,
    /// The sessions that are gone and no longer registered.
    pub unregister: Vec<String>,
}

/// A poll of some sessions: what tmux says of each of them, and what comes of
/// it.
pub fn poll_tmux(
    state: TmuxMonitorState,
    sessions: &Vec<(String, RegisteredTmuxSession)>,
    probes: &Vec<SessionProbe>,
    now_ms: u64,
) -> (r: (TmuxMonitorState, TmuxPoll))
    requires
        state@.well_formed(),
        probes@.len() == sessions@.len(),
    ensures
        ({
            let polled = sessions_polled(
                state@,
                table::pairs(sessions@),
                text::all_views(probes@),
                now_ms,
            );
            &&& r.0@ == state_after(polled, table::pairs(sessions@))
            &&& r.0@.well_formed()
            &&& text::all_views(r.1.actions@) == polled.actions
            &&& text::views(r.1.unregister@) == polled.gone
        }),
{
    let ghost all = table::pairs(sessions@);
    let ghost answers = text::all_views(probes@);
    let ghost start = state@;
    let mut poll = Poll {
        state,
        actions: Vec::new(),
        seen: Vec::new(),
        gone: Vec::new(),
        changed: false,
    };
    assert(poll.so_far().actions =~= Seq::empty());
    assert(poll.so_far().seen =~= Seq::empty());
    assert(poll.so_far().gone =~= Seq::empty());
    let mut names: Vec<String> = Vec::new();
    assert(text::views(names@) =~= keys_of(all).take(0));
    let mut i: usize = 0;
    while i < sessions.len()
        invariant
            i <= sessions.len() == probes@.len(),
            all == table::pairs(sessions@),
            answers == text::all_views(probes@),
            poll.well_formed(),
            poll.so_far() == sessions_polled(start, all.take(i as int), answers, now_ms),
            text::views(names@) == keys_of(all).take(i as int),
        decreases sessions.len() - i,
    {
        assert(all.take(i + 1).drop_last() =~= all.take(i as int));
        assert(all.take(i + 1).last() == all[i as int]);
        assert(answers[i as int] == probes@[i as int]@);
        poll.poll_session(sessions[i].0.as_str(), &sessions[i].1, &probes[i], now_ms);
        names.push(sessions[i].0.clone());
        assert(text::views(names@) =~= keys_of(all).take(i + 1));
        i = i + 1;
    }
    assert(all.take(i as int) =~= all);
    assert(keys_of(all).take(i as int) =~= keys_of(all));
    let Poll { state, actions, seen, gone, changed } = poll;
    let mut state = state;
    keep_keys(&mut state.panes, &seen);
    keep_keys(&mut state.pending_keyword_hits, &names);
    keep_keys(&mut state.session_last_heartbeat, &names);
    keep_keys(&mut state.session_last_summarized, &names);
    (state, TmuxPoll { actions, unregister: gone })
}

/// The sessions to poll: those of the configuration, and before them those that
/// are registered.
pub fn sessions_to_poll(
    config: &AppConfig,
    registry: &Vec<(String, RegisteredTmuxSession)>,
    available_sessions: Option<&Vec<String>>,
    now: &str,
) -> (r: Vec<(String, RegisteredTmuxSession)>)
    ensures
        table::pairs(r@) == table::extended(
            registry::registrations_in(
                registry::resolved(
                    registry::configured_all(config@, now@),
                    registry::opt_names(available_sessions),
                ),
            ),
            table::pairs(registry@),
        ),
{
    let configured = configured_registrations(config, now);
    let mut sessions = resolve_monitored_sessions(&configured, available_sessions);
    let ghost start = table::pairs(sessions@);
    let ghost all = table::pairs(registry@);
    let mut i: usize = 0;
    while i < registry.len()
        invariant
            i <= registry.len(),
            all == table::pairs(registry@),
            table::pairs(sessions@) == table::extended(start, all.take(i as int)),
        decreases registry.len() - i,
    {
        assert(all.take(i + 1).drop_last() =~= all.take(i as int));
        assert(all.take(i + 1).last() == all[i as int]);
        set_entry(&mut sessions, registry[i].0.as_str(), registry[i].1.clone());
        i = i + 1;
    }
    assert(all.take(i as int) =~= all);
    sessions
}

// ---------------------------------------------------------------------------
// One session on its own
// ---------------------------------------------------------------------------

/// What is remembered of a session that is watched on its own, with its panes
/// by their identifiers.
#[derive(Debug)]
pub struct SessionWatch {
    pub panes: Vec<(String, TmuxPaneState)>,
    pub pending_keyword_hits: Option<PendingKeywordHits>,
    pub last_heartbeat: Option<u64>,
    pub last_summarized: Option<u64>,
}

/// What is remembered of a session that is watched on its own.
pub struct WatchView {
    pub panes: Panes,
    pub pending: Option<PendingView>,
    pub last_heartbeat: Option<u64>,
    pub last_summarized: Option<u64>,
}

impl View for SessionWatch {
    type V = WatchView;

    open spec fn view(&self) -> WatchView {
        WatchView {
            panes: table::pairs(self.panes@),
            pending: table::opt_owned(self.pending_keyword_hits),
            last_heartbeat: self.last_heartbeat,
            last_summarized: self.last_summarized,
        }
    }
}

impl Default for SessionWatch {
    fn default() -> (r: Self)
        ensures
            r@ == (WatchView {
                panes: Seq::empty(),
                pending: None,
                last_heartbeat: None,
                last_summarized: None,
            }),
            table::in_order(r@.panes),
    {
        let r = SessionWatch {
            panes: Vec::new(),
            pending_keyword_hits: None,
            last_heartbeat: None,
            last_summarized: None,
        };
        assert(r@.panes =~= Seq::empty());
        r
    }
}

/// What has come of a look at a session so far.
pub struct Watched {
    pub watch: WatchView,
    pub actions: Seq<ActionView>,
    /// The identifiers of the panes that were seen.
    pub seen: Seq<Seq<char>>,
}

/// What has come of a look at a session after one more pane.
pub open spec fn pane_watched(
    watched: Watched,
    r: RegistrationView,
    pane: SnapshotView,
    now_ms: u64,
) -> Watched {
    let watch = watched.watch;
    let existing = table::lookup(watch.panes, pane.pane_id);
    let asked = pane_summarized(existing, pane, r, watch.last_summarized, now_ms);
    Watched {
        watch: WatchView {
            panes: table::put(
                watch.panes,
                pane.pane_id,
                pane_after(existing, pane, r, now_ms, true),
            ),
            pending: window_with(watch.pending, now_ms, pane_hits(existing, pane, r)),
            last_heartbeat: if has_changed(existing, pane) {
                Some(now_ms)
            } else {
                watch.last_heartbeat
            },
            last_summarized: if asked {
                Some(now_ms)
            } else {
                watch.last_summarized
            },
        },
        actions: with_event(
            with_summary(watched.actions, asked, r, pane.session, pane),
            pane_stale_event(existing, pane, r, now_ms),
        ),
        seen: watched.seen.push(pane.pane_id),
    }
}

/// What has come of a look at a session after some panes.
pub open spec fn panes_watched(
    watched: Watched,
    r: RegistrationView,
    panes: Seq<SnapshotView>,
    now_ms: u64,
) -> Watched
    decreases panes.len(),
{
    if panes.len() == 0 {
        watched
    } else {
        pane_watched(
            panes_watched(watched, r, panes.drop_last(), now_ms),
            r,
            panes.last(),
            now_ms,
        )
    }
}

/// What comes of a look at a session: it is gone, or these are its panes.
pub open spec fn session_watched(
    watch: WatchView,
    r: RegistrationView,
    panes: Option<Seq<SnapshotView>>,
    now_ms: u64,
) -> (WatchView, Seq<ActionView>) {
    let first = window_event(watch.pending, r, r.session, now_ms, false);
    let rest = window_rest(watch.pending, r, now_ms, false);
    match panes {
        None => (
            WatchView { pending: window_rest(rest, r, now_ms, true), ..watch },
            with_event(
                with_event(Seq::empty(), first),
                window_event(rest, r, r.session, now_ms, true),
            ),
        ),
        Some(all) => {
            let seen = panes_watched(
                Watched {
                    watch: WatchView { pending: rest, ..watch },
                    actions: with_event(Seq::empty(), first),
                    seen: Seq::empty(),
                },
                r,
                all,
                now_ms,
            );
            let kept = table::kept(seen.watch.panes, has_key(seen.seen));
            let change = latest_change(kept, None);
            (
                WatchView {
                    panes: kept,
                    last_heartbeat: heartbeat_after(r, change, seen.watch.last_heartbeat, now_ms),
                    ..seen.watch
                },
                with_event(
                    seen.actions,
                    heartbeat_of(r, r.session, change, seen.watch.last_heartbeat, now_ms),
                ),
            )
        },
    }
}

/// The panes that were found, where the session is there.
pub open spec fn opt_panes(o: Option<&Vec<TmuxPaneSnapshot>>) -> Option<Seq<SnapshotView>> {
    match o {
        Some(panes) => Some(text::all_views(panes@)),
        None => None,
    }
}

impl SessionWatch {
    fn watch_pane(
        &mut self,
        registration: &RegisteredTmuxSession,
        pane: &TmuxPaneSnapshot,
        now_ms: u64,
        actions: &mut Vec<TmuxAction>,
        seen: &mut Vec<String>,
    )
        requires
            table::in_order(old(self)@.panes),
        ensures
            table::in_order(final(self)@.panes),
            (Watched {
                watch: final(self)@,
                actions: text::all_views(final(actions)@),
                seen: text::views(final(seen)@),
            }) == pane_watched(
                Watched {
                    watch: old(self)@,
                    actions: text::all_views(old(actions)@),
                    seen: text::views(old(seen)@),
                },
                registration@,
                pane@,
                now_ms,
            ),
    {
        let ghost panes = self@.panes;
        let existing = remove_entry(&mut self.panes, pane.pane_id.as_str());
        let known = existing.is_some();
        let observation = observe_pane(
            existing,
            pane,
            registration,
            self.last_summarized,
            now_ms,
            true,
        );
        let PaneObservation { state, hits, summarize, stale, changed } = observation;
        proof {
            table::law_without_then_put(panes, pane.pane_id@, state@);
            table::law_put_keeps_order(panes, pane.pane_id@, state@);
        }
        set_entry(&mut self.panes, pane.pane_id.as_str(), state);
        push_pending_keyword_hits(&mut self.pending_keyword_hits, now_ms, hits);
        if summarize {
            push_action(
                actions,
                TmuxAction::Summarize(
                    SummaryRequest {
                        registration: registration.clone(),
                        session: pane.session.clone(),
                        pane: pane.pane_name.clone(),
                        content: pane.content.clone(),
                    },
                ),
            );
            self.last_summarized = Some(now_ms);
        }
        push_event(actions, stale);
        if known && changed {
            self.last_heartbeat = Some(now_ms);
        }
        seen.push(pane.pane_id.clone());
    }

    /// Looks at the session: it is gone, or these are its panes.
    pub fn observe(
        &mut self,
        registration: &RegisteredTmuxSession,
        panes: Option<&Vec<TmuxPaneSnapshot>>,
        now_ms: u64,
    ) -> (r: Vec<TmuxAction>)
        requires
            table::in_order(old(self)@.panes),
        ensures
            table::in_order(final(self)@.panes),
            (final(self)@, text::all_views(r@)) == session_watched(
                old(self)@,
                registration@,
                opt_panes(panes),
                now_ms,
            ),
    {
        let mut actions: Vec<TmuxAction> = Vec::new();
        assert(text::all_views(actions@) =~= Seq::<ActionView>::empty());
        let first = flush_pending_keyword_hits(
            &mut self.pending_keyword_hits,
            registration,
            registration.session.as_str(),
            now_ms,
            false,
        );
        push_event(&mut actions, first);
        match panes {
            None => {
                let second = flush_pending_keyword_hits(
                    &mut self.pending_keyword_hits,
                    registration,
                    registration.session.as_str(),
                    now_ms,
                    true,
                );
                push_event(&mut actions, second);
            },
            Some(list) => {
                let mut seen: Vec<String> = Vec::new();
                assert(text::views(seen@) =~= Seq::<Seq<char>>::empty());
                let ghost all = text::all_views(list@);
                let ghost start = Watched {
                    watch: self@,
                    actions: text::all_views(actions@),
                    seen: text::views(seen@),
                };
                let mut i: usize = 0;
                while i < list.len()
                    invariant
                        i <= list.len(),
                        all == text::all_views(list@),
                        table::in_order(self@.panes),
                        (Watched {
                            watch: self@,
                            actions: text::all_views(actions@),
                            seen: text::views(seen@),
                        }) == panes_watched(start, registration@, all.take(i as int), now_ms),
                    decreases list.len() - i,
                {
                    assert(all.take(i + 1).drop_last() =~= all.take(i as int));
                    assert(all.take(i + 1).last() == list@[i as int]@);
                    self.watch_pane(registration, &list[i], now_ms, &mut actions, &mut seen);
                    i = i + 1;
                }
                assert(all.take(i as int) =~= all);
                keep_keys(&mut self.panes, &seen);
                let change = find_latest_change(&self.panes, None);
                let (event, moment) = beat(
                    registration,
                    registration.session.as_str(),
                    change,
                    self.last_heartbeat,
                    now_ms,
                );
                push_event(&mut actions, event);
                self.last_heartbeat = moment;
            },
        }
        actions
    }
}

// ---------------------------------------------------------------------------
// What tmux prints
// ---------------------------------------------------------------------------

/// The names in the output of a list of sessions.
pub open spec fn names_in(lines: Seq<Seq<char>>) -> Seq<Seq<char>>
    decreases lines.len(),
{
    if lines.len() == 0 {
        Seq::empty()
    } else if text::blank(lines.last()) {
        names_in(lines.drop_last())
    } else {
        names_in(lines.drop_last()).push(text::trimmed(lines.last()))
    }
}

/// Reads the names of sessions, one on each line.
pub fn parse_session_names(output: &str) -> (r: Vec<String>)
    ensures
        text::views(r@) == names_in(scan::lines(output@)),
{
    let lines = lines_of(output);
    let ghost all = text::views(lines@);
    let mut out: Vec<String> = Vec::new();
    let mut i: usize = 0;
    assert(text::views(out@) =~= Seq::<Seq<char>>::empty());
    while i < lines.len()
        invariant
            i <= lines.len(),
            all == text::views(lines@),
            text::views(out@) == names_in(all.take(i as int)),
        decreases lines.len() - i,
    {
        assert(all.take(i + 1).drop_last() =~= all.take(i as int));
        assert(all.take(i + 1).last() == lines@[i as int]@);
        let name = trim(lines[i].as_str());
        if !name.is_empty() {
            out.push(name.to_owned());
        }
        i = i + 1;
    }
    assert(all.take(i as int) =~= all);
    out
}

/// A field of a line, empty where the line has fewer.
pub open spec fn field(fields: Seq<Seq<char>>, i: int) -> Seq<char> {
    if i < fields.len() {
        fields[i]
    } else {
        Seq::empty()
    }
}

/// The pane of a line, without its content: the fields stand between bars, and a
/// line without an identifier has none.
pub open spec fn pane_in(line: Seq<char>) -> Option<SnapshotView> {
    let fields = scan::split(line, '|');
    if field(fields, 0).len() == 0 {
        None
    } else {
        Some(
            SnapshotView {
                pane_id: field(fields, 0),
                session: field(fields, 1),
                pane_name: field(fields, 2),
                content: Seq::empty(),
                pane_dead: field(fields, 3) == "1"@,
            },
        )
    }
}

fn field_or_empty(fields: &Vec<String>, i: usize) -> (r: String)
    ensures
        r@ == field(text::views(fields@), i as int),
{
    assert(text::views(fields@).len() == fields@.len());
    if i < fields.len() {
        fields[i].clone()
    } else {
        let none = String::new();
        assert(none@ =~= Seq::empty());
        none
    }
}

/// Reads a line of a list of panes.
pub fn parse_pane_line(line: &str) -> (r: Option<TmuxPaneSnapshot>)
    ensures
        table::opt_owned(r) == pane_in(line@),
{
    let fields = split_at_each(line, '|');
    let pane_id = field_or_empty(&fields, 0);
    if pane_id.as_str().is_empty() {
        return None;
    }
    let content = String::new();
    assert(content@ =~= Seq::empty());
    Some(
        TmuxPaneSnapshot {
            pane_id,
            session: field_or_empty(&fields, 1),
            pane_name: field_or_empty(&fields, 2),
            content,
            pane_dead: same(field_or_empty(&fields, 3).as_str(), "1"),
        },
    )
}

// ---------------------------------------------------------------------------
// Laws
// ---------------------------------------------------------------------------

/// A pane that is seen for the first time says nothing.
pub proof fn law_first_look_is_silent(
    pane: SnapshotView,
    r: RegistrationView,
    last_summarized: Option<u64>,
    now_ms: u64,
)
    ensures
        pane_hits(None, pane, r) == Seq::<HitView>::empty(),
        !pane_summarized(None, pane, r, last_summarized, now_ms),
        pane_stale_event(None, pane, r, now_ms) is None,
{
}

/// A pane whose content is the same has no hits and no summary.
pub proof fn law_same_content_is_silent(
    existing: PaneView,
    pane: SnapshotView,
    r: RegistrationView,
    last_summarized: Option<u64>,
    now_ms: u64,
)
    requires
        existing.snapshot == pane.content,
    ensures
        pane_hits(Some(existing), pane, r) == Seq::<HitView>::empty(),
        !pane_summarized(Some(existing), pane, r, last_summarized, now_ms),
        pane_after(Some(existing), pane, r, now_ms, true).last_change == existing.last_change,
{
}

/// A dead pane is never called stale.
pub proof fn law_dead_pane_is_not_stale(
    existing: Option<PaneView>,
    pane: SnapshotView,
    r: RegistrationView,
    now_ms: u64,
)
    requires
        pane.pane_dead,
    ensures
        pane_stale_event(existing, pane, r, now_ms) is None,
{
}

/// A pane that was called stale is not called so again before its minutes have
/// passed once more.
pub proof fn law_stale_only_once_in_its_minutes(
    existing: PaneView,
    pane: SnapshotView,
    next: SnapshotView,
    r: RegistrationView,
    now_ms: u64,
    later_ms: u64,
    follow: bool,
)
    requires
        turns_stale(Some(existing), pane, r, now_ms),
        minutes(now_ms, later_ms) < r.stale_minutes,
    ensures
        pane_stale_event(
            Some(pane_after(Some(existing), pane, r, now_ms, follow)),
            next,
            r,
            later_ms,
        ) is None,
{
}

/// Two heartbeats of a session are at least its interval apart.
pub proof fn law_heartbeats_keep_their_interval(
    r: RegistrationView,
    session: Seq<char>,
    change: Option<u64>,
    last_heartbeat: Option<u64>,
    now_ms: u64,
    next_change: Option<u64>,
    later_ms: u64,
)
    requires
        heartbeat_of(r, session, change, last_heartbeat, now_ms) is Some,
        minutes(now_ms, later_ms) < r.heartbeat_minutes(),
    ensures
        heartbeat_of(
            r,
            session,
            next_change,
            heartbeat_after(r, change, last_heartbeat, now_ms),
            later_ms,
        ) is None,
{
}

/// A session without an interval has no heartbeats.
pub proof fn law_no_interval_no_heartbeat(
    r: RegistrationView,
    session: Seq<char>,
    change: Option<u64>,
    last_heartbeat: Option<u64>,
    now_ms: u64,
)
    requires
        r.heartbeat_minutes() == 0,
    ensures
        heartbeat_of(r, session, change, last_heartbeat, now_ms) is None,
        heartbeat_after(r, change, last_heartbeat, now_ms) is None,
{
}

/// A session that a wrapper watches gives rise to nothing in a poll, whatever
/// tmux says of it.
pub proof fn law_watched_session_is_left_alone(
    polled: Polled,
    session: Seq<char>,
    r: RegistrationView,
    probe: ProbeView,
    now_ms: u64,
)
    requires
        r.active_wrapper_monitor,
    ensures
        session_polled(polled, session, r, probe, now_ms).actions == polled.actions,
        session_polled(polled, session, r, probe, now_ms).gone == polled.gone,
        session_polled(polled, session, r, probe, now_ms).state.panes == polled.state.panes,
{
}

/// The hits that a session was waiting to report are reported when it is gone,
/// and nothing of it is remembered.
pub proof fn law_gone_session_reports_its_hits(
    polled: Polled,
    session: Seq<char>,
    r: RegistrationView,
    now_ms: u64,
    pending: PendingView,
)
    requires
        polled.state.well_formed(),
        !r.active_wrapper_monitor,
        table::lookup(polled.state.pending, session) == Some(pending),
        pending.hits.len() > 0,
    ensures
        ({
            let after = session_polled(polled, session, r, ProbeView::Gone, now_ms);
            &&& after.actions == polled.actions.push(
                ActionView::Emit(keyword_event(r, session, pending.hits)),
            )
            &&& after.gone == polled.gone.push(session)
            &&& table::lookup(after.state.pending, session) is None
            &&& table::lookup(after.state.heartbeats, session) is None
        }),
{
    let state = polled.state;
    let flushed = window_polled(polled, session, r, now_ms, false);
    let rest = window_rest(Some(pending), r, now_ms, false);
    table::law_without_then_lookup(state.heartbeats, session, session);
    table::law_without_then_lookup(state.pending, session, session);
    table::law_put_then_lookup(state.pending, session, pending, session);
    assert(table::lookup(flushed.state.pending, session) == rest);
    table::law_without_then_lookup(flushed.state.pending, session, session);
}

} // verus!
