//! What a look at all watched sessions comes to.
use vstd::prelude::*;
use vstd::string::*;

use crate::config::AppSettingsView;
use crate::events::EventView;
use crate::monitor;
use crate::monitor::DirectPoll;
use crate::registry;
use crate::registry::{RegistrationView, Registry, Resolved, ResolvedView};
use crate::table;
use crate::tmux;
use crate::tmux::{
    ActionView, MonitorView, PaneView, Panes, Polled, ProbeView, SnapshotView, WatchView, Watched,
};

verus! {

/// The numbers from zero up to another.
pub open spec fn numbers(n: nat) -> Seq<int> {
    Seq::new(n, |i: int| i)
}

/// The action that sends an event, where there is one.
pub open spec fn sent(event: Option<EventView>) -> Seq<ActionView> {
    match event {
        Some(e) => seq![ActionView::Emit(e)],
        None => Seq::empty(),
    }
}

proof fn lemma_sent(actions: Seq<ActionView>, event: Option<EventView>)
    ensures
        tmux::with_event(actions, event) == actions + sent(event),
{
    assert(tmux::with_event(actions, event) =~= actions + sent(event));
}

proof fn lemma_settled<V>(
    m: Seq<(Seq<char>, V)>,
    key: Seq<char>,
    value: Option<V>,
    other: Seq<char>,
)
    ensures
        table::lookup(tmux::settle(m, key, value), key) == value,
        other != key ==> table::lookup(tmux::settle(m, key, value), other) == table::lookup(
            m,
            other,
        ),
{
    match value {
        Some(v) => {
            table::law_put_then_lookup(m, key, v, other);
            table::law_put_then_lookup(m, key, v, key);
        },
        None => table::law_without_then_lookup(m, key, other),
    }
}

// ---------------------------------------------------------------------------
// The monitor of the daemon
// ---------------------------------------------------------------------------

/// Every session is polled, one after the other, each with the answer to its own question.
pub proof fn law_every_session_is_polled(
    state: MonitorView,
    sessions: Registry,
    probes: Seq<ProbeView>,
    now_ms: u64,
)
    ensures
        tmux::sessions_polled(state, sessions, probes, now_ms) == numbers(
            sessions.len(),
        ).fold_left(
            Polled {
                state,
                actions: Seq::empty(),
                seen: Seq::empty(),
                gone: Seq::empty(),
                changed: false,
            },
            |so_far: Polled, i: int|
                tmux::session_polled(so_far, sessions[i].0, sessions[i].1, probes[i], now_ms),
        ),
    decreases sessions.len(),
{
    let start = Polled {
        state,
        actions: Seq::empty(),
        seen: Seq::empty(),
        gone: Seq::empty(),
        changed: false,
    };
    let f = |so_far: Polled, i: int|
        tmux::session_polled(so_far, sessions[i].0, sessions[i].1, probes[i], now_ms);
    if sessions.len() > 0 {
        let front = sessions.drop_last();
        let g = |so_far: Polled, i: int|
            tmux::session_polled(so_far, front[i].0, front[i].1, probes[i], now_ms);
        law_every_session_is_polled(state, front, probes, now_ms);
        assert(numbers(sessions.len()).drop_last() =~= numbers(front.len()));
        lemma_same_fold(numbers(front.len()), start, f, g);
    }
}

proof fn lemma_same_fold<A, B>(s: Seq<A>, b: B, f: spec_fn(B, A) -> B, g: spec_fn(B, A) -> B)
    requires
        forall|acc: B, i: int| 0 <= i < s.len() ==> #[trigger] f(acc, s[i]) == g(acc, s[i]),
    ensures
        s.fold_left(b, f) == s.fold_left(b, g),
    decreases s.len(),
{
    if s.len() > 0 {
        let front = s.drop_last();
        assert forall|acc: B, i: int| 0 <= i < front.len() implies #[trigger] f(acc, front[i])
            == g(acc, front[i]) by {
            assert(f(acc, s[i]) == g(acc, s[i]));
        }
        lemma_same_fold(front, b, f, g);
        assert(s.last() == s[s.len() - 1]);
    }
}

/// Every pane of a session is polled, one after the other.
pub proof fn law_every_pane_is_polled(
    polled: Polled,
    session: Seq<char>,
    r: RegistrationView,
    panes: Seq<SnapshotView>,
    now_ms: u64,
)
    ensures
        tmux::panes_polled(polled, session, r, panes, now_ms) == panes.fold_left(
            polled,
            |so_far: Polled, pane: SnapshotView|
                tmux::pane_polled(so_far, session, r, pane, now_ms),
        ),
    decreases panes.len(),
{
    if panes.len() > 0 {
        law_every_pane_is_polled(polled, session, r, panes.drop_last(), now_ms);
    }
}

/// A session that a wrapper watches is left to it: nothing is told of it, and neither its hits
/// nor its heartbeat are kept.
pub proof fn law_wrapped_session_is_left(
    polled: Polled,
    session: Seq<char>,
    r: RegistrationView,
    probe: ProbeView,
    now_ms: u64,
    other: Seq<char>,
)
    requires
        r.active_wrapper_monitor,
        other != session,
    ensures
        ({
            let after = tmux::session_polled(polled, session, r, probe, now_ms);
            &&& after.actions == polled.actions
            &&& after.gone == polled.gone
            &&& after.seen == polled.seen
            &&& after.state.panes == polled.state.panes
            &&& after.state.summaries == polled.state.summaries
            &&& table::lookup(after.state.pending, session) is None
            &&& table::lookup(after.state.heartbeats, session) is None
            &&& table::lookup(after.state.pending, other) == table::lookup(
                polled.state.pending,
                other,
            )
            &&& table::lookup(after.state.heartbeats, other) == table::lookup(
                polled.state.heartbeats,
                other,
            )
        }),
{
    table::law_without_then_lookup(polled.state.pending, session, other);
    table::law_without_then_lookup(polled.state.heartbeats, session, other);
}

/// A poll of a session that is there tells first the hits of a window that is over, then what
/// each of its panes tells, and then its heartbeat, by the latest change among its panes; a
/// change of any pane counts as a heartbeat of now.
pub proof fn law_poll_of_a_session(
    polled: Polled,
    session: Seq<char>,
    r: RegistrationView,
    panes: Seq<SnapshotView>,
    now_ms: u64,
)
    requires
        !r.active_wrapper_monitor,
    ensures
        ({
            let window = table::lookup(polled.state.pending, session);
            let after = tmux::session_polled(
                polled,
                session,
                r,
                ProbeView::Panes(panes),
                now_ms,
            );
            exists|first: Polled|
                {
                    &&& first.actions == polled.actions + sent(
                        tmux::window_event(window, r, session, now_ms, false),
                    )
                    &&& table::lookup(first.state.pending, session) == tmux::window_rest(
                        window,
                        r,
                        now_ms,
                        false,
                    )
                    &&& first.state.panes == polled.state.panes
                    &&& first.state.heartbeats == polled.state.heartbeats
                    &&& first.state.summaries == polled.state.summaries
                    &&& first.seen == polled.seen
                    &&& first.gone == polled.gone
                    &&& !first.changed
                    &&& beats(
                        #[trigger] tmux::panes_polled(first, session, r, panes, now_ms),
                        after,
                        session,
                        r,
                        now_ms,
                    )
                }
        }),
{
    let window = table::lookup(polled.state.pending, session);
    let flushed = tmux::window_polled(polled, session, r, now_ms, false);
    let first = Polled { changed: false, ..flushed };
    lemma_sent(polled.actions, tmux::window_event(window, r, session, now_ms, false));
    lemma_settled(
        polled.state.pending,
        session,
        tmux::window_rest(window, r, now_ms, false),
        session,
    );
    let mid = tmux::panes_polled(first, session, r, panes, now_ms);
    let change = tmux::latest_change(mid.state.panes, Some(session));
    let last = if mid.changed {
        Some(now_ms)
    } else {
        table::lookup(mid.state.heartbeats, session)
    };
    lemma_sent(mid.actions, tmux::heartbeat_of(r, session, change, last, now_ms));
    lemma_settled(
        mid.state.heartbeats,
        session,
        tmux::heartbeat_after(r, change, last, now_ms),
        session,
    );
    assert(beats(
        mid,
        tmux::session_polled(polled, session, r, ProbeView::Panes(panes), now_ms),
        session,
        r,
        now_ms,
    ));
}

/// The heartbeat of a session comes behind what its panes told.
pub open spec fn beats(
    mid: Polled,
    after: Polled,
    session: Seq<char>,
    r: RegistrationView,
    now_ms: u64,
) -> bool {
    let change = tmux::latest_change(mid.state.panes, Some(session));
    let last = if mid.changed {
        Some(now_ms)
    } else {
        table::lookup(mid.state.heartbeats, session)
    };
    &&& after.actions == mid.actions + sent(
        tmux::heartbeat_of(r, session, change, last, now_ms),
    )
    &&& table::lookup(after.state.heartbeats, session) == tmux::heartbeat_after(
        r,
        change,
        last,
        now_ms,
    )
    &&& after.state.panes == mid.state.panes
    &&& after.state.pending == mid.state.pending
    &&& after.state.summaries == mid.state.summaries
    &&& after.seen == mid.seen
    &&& after.gone == mid.gone
}

/// A poll of a session that is gone tells the hits that were gathered, whether their window is
/// over or not, and forgets the session.
pub proof fn law_poll_of_a_gone_session(
    polled: Polled,
    session: Seq<char>,
    r: RegistrationView,
    now_ms: u64,
    key: Seq<char>,
)
    requires
        !r.active_wrapper_monitor,
        table::in_order(polled.state.panes),
    ensures
        ({
            let window = table::lookup(polled.state.pending, session);
            let after = tmux::session_polled(polled, session, r, ProbeView::Gone, now_ms);
            &&& after.actions == polled.actions + sent(
                tmux::window_event(window, r, session, now_ms, true),
            )
            &&& table::lookup(after.state.pending, session) is None
            &&& table::lookup(after.state.heartbeats, session) is None
            &&& table::lookup(after.state.panes, key) == (match table::lookup(
                polled.state.panes,
                key,
            ) {
                Some(pane) => if pane.session == session {
                    None
                } else {
                    Some(pane)
                },
                None => None,
            })
        }),
{
    let window = table::lookup(polled.state.pending, session);
    let flushed = tmux::window_polled(polled, session, r, now_ms, false);
    let rest = tmux::window_rest(window, r, now_ms, false);
    let first = tmux::window_event(window, r, session, now_ms, false);
    lemma_sent(polled.actions, first);
    lemma_settled(polled.state.pending, session, rest, session);
    lemma_sent(flushed.actions, tmux::window_event(rest, r, session, now_ms, true));
    lemma_settled(
        flushed.state.pending,
        session,
        tmux::window_rest(rest, r, now_ms, true),
        session,
    );
    table::law_without_then_lookup(polled.state.heartbeats, session, session);
    table::law_kept_then_lookup(polled.state.panes, tmux::of_others(session), key);
    let after = tmux::session_polled(polled, session, r, ProbeView::Gone, now_ms);
    assert(after.actions =~= polled.actions + sent(
        tmux::window_event(window, r, session, now_ms, true),
    ));
}

// ---------------------------------------------------------------------------
// A single watch
// ---------------------------------------------------------------------------

/// Every pane of a watched session is looked at, one after the other.
pub proof fn law_every_pane_is_watched(
    watched: Watched,
    r: RegistrationView,
    panes: Seq<SnapshotView>,
    now_ms: u64,
)
    ensures
        tmux::panes_watched(watched, r, panes, now_ms) == panes.fold_left(
            watched,
            |so_far: Watched, pane: SnapshotView| tmux::pane_watched(so_far, r, pane, now_ms),
        ),
    decreases panes.len(),
{
    if panes.len() > 0 {
        law_every_pane_is_watched(watched, r, panes.drop_last(), now_ms);
    }
}

/// A look at a pane of a watched session remembers it, gathers its hits, takes a change for a
/// heartbeat, asks for a summary where one is due, and tells where it is stale.
pub proof fn law_look_at_a_watched_pane(
    watched: Watched,
    r: RegistrationView,
    pane: SnapshotView,
    now_ms: u64,
    other: Seq<char>,
)
    requires
        other != pane.pane_id,
    ensures
        ({
            let before = watched.watch;
            let after = tmux::pane_watched(watched, r, pane, now_ms);
            let known = table::lookup(before.panes, pane.pane_id);
            let asked = tmux::pane_summarized(known, pane, r, before.last_summarized, now_ms);
            let changed = known is Some && known->0.snapshot != pane.content;
            &&& table::lookup(after.watch.panes, pane.pane_id) == Some(
                tmux::pane_after(known, pane, r, now_ms, true),
            )
            &&& table::lookup(after.watch.panes, other) == table::lookup(before.panes, other)
            &&& after.watch.pending == tmux::window_with(
                before.pending,
                now_ms,
                tmux::pane_hits(known, pane, r),
            )
            &&& after.watch.last_heartbeat == (if changed {
                Some(now_ms)
            } else {
                before.last_heartbeat
            })
            &&& after.watch.last_summarized == (if asked {
                Some(now_ms)
            } else {
                before.last_summarized
            })
            &&& after.actions == watched.actions + (if asked {
                seq![
                    ActionView::Summarize {
                        registration: r,
                        session: pane.session,
                        pane: pane.pane_name,
                        content: pane.content,
                    },
                ]
            } else {
                Seq::empty()
            }) + sent(tmux::pane_stale_event(known, pane, r, now_ms))
            &&& after.seen == watched.seen.push(pane.pane_id)
        }),
{
    let before = watched.watch;
    let known = table::lookup(before.panes, pane.pane_id);
    let asked = tmux::pane_summarized(known, pane, r, before.last_summarized, now_ms);
    let kept = tmux::pane_after(known, pane, r, now_ms, true);
    table::law_put_then_lookup(before.panes, pane.pane_id, kept, other);
    table::law_put_then_lookup(before.panes, pane.pane_id, kept, pane.pane_id);
    lemma_sent(
        tmux::with_summary(watched.actions, asked, r, pane.session, pane),
        tmux::pane_stale_event(known, pane, r, now_ms),
    );
    let after = tmux::pane_watched(watched, r, pane, now_ms);
    assert(after.actions =~= watched.actions + (if asked {
        seq![
            ActionView::Summarize {
                registration: r,
                session: pane.session,
                pane: pane.pane_name,
                content: pane.content,
            },
        ]
    } else {
        Seq::empty()
    }) + sent(tmux::pane_stale_event(known, pane, r, now_ms)));
}

/// A look at a watched session tells first the hits of a window that is over, then what its
/// panes tell, and then its heartbeat; the panes that are seen are remembered, and no others.
pub proof fn law_look_at_a_watched_session(
    watch: WatchView,
    r: RegistrationView,
    panes: Seq<SnapshotView>,
    now_ms: u64,
)
    ensures
        ({
            let (after, actions) = tmux::session_watched(watch, r, Some(panes), now_ms);
            let first = Watched {
                watch: WatchView {
                    pending: tmux::window_rest(watch.pending, r, now_ms, false),
                    panes: watch.panes,
                    last_heartbeat: watch.last_heartbeat,
                    last_summarized: watch.last_summarized,
                },
                actions: sent(tmux::window_event(watch.pending, r, r.session, now_ms, false)),
                seen: Seq::empty(),
            };
            let mid = tmux::panes_watched(first, r, panes, now_ms);
            let kept = table::kept(
                mid.watch.panes,
                |entry: (Seq<char>, PaneView)| mid.seen.contains(entry.0),
            );
            let change = tmux::latest_change(kept, None);
            &&& after.panes == kept
            &&& after.pending == mid.watch.pending
            &&& after.last_summarized == mid.watch.last_summarized
            &&& after.last_heartbeat == tmux::heartbeat_after(
                r,
                change,
                mid.watch.last_heartbeat,
                now_ms,
            )
            &&& actions == mid.actions + sent(
                tmux::heartbeat_of(r, r.session, change, mid.watch.last_heartbeat, now_ms),
            )
        }),
{
    lemma_sent(Seq::empty(), tmux::window_event(watch.pending, r, r.session, now_ms, false));
    let told = sent(tmux::window_event(watch.pending, r, r.session, now_ms, false));
    assert(Seq::<ActionView>::empty() + told =~= told);
    let first = Watched {
        watch: WatchView {
            pending: tmux::window_rest(watch.pending, r, now_ms, false),
            panes: watch.panes,
            last_heartbeat: watch.last_heartbeat,
            last_summarized: watch.last_summarized,
        },
        actions: told,
        seen: Seq::empty(),
    };
    let mid = tmux::panes_watched(first, r, panes, now_ms);
    let keep = |entry: (Seq<char>, PaneView)| mid.seen.contains(entry.0);
    assert(keep =~= tmux::has_key(mid.seen));
    let kept = table::kept(mid.watch.panes, keep);
    let change = tmux::latest_change(kept, None);
    lemma_sent(
        mid.actions,
        tmux::heartbeat_of(r, r.session, change, mid.watch.last_heartbeat, now_ms),
    );
}

// ---------------------------------------------------------------------------
// The plain monitor
// ---------------------------------------------------------------------------

/// The plain monitor polls every session, each with the answer to its own question.
pub proof fn law_plain_monitor_polls_every_session(
    panes: Panes,
    sessions: Registry,
    probes: Seq<ProbeView>,
    now_ms: u64,
)
    ensures
        monitor::sessions_polled(panes, sessions, probes, now_ms) == numbers(
            sessions.len(),
        ).fold_left(
            DirectPoll { panes, events: Seq::empty(), seen: Seq::empty(), gone: Seq::empty() },
            |so_far: DirectPoll, i: int|
                monitor::session_polled(so_far, sessions[i].0, sessions[i].1, probes[i], now_ms),
        ),
    decreases sessions.len(),
{
    let start = DirectPoll {
        panes,
        events: Seq::empty(),
        seen: Seq::empty(),
        gone: Seq::empty(),
    };
    let f = |so_far: DirectPoll, i: int|
        monitor::session_polled(so_far, sessions[i].0, sessions[i].1, probes[i], now_ms);
    if sessions.len() > 0 {
        let front = sessions.drop_last();
        let g = |so_far: DirectPoll, i: int|
            monitor::session_polled(so_far, front[i].0, front[i].1, probes[i], now_ms);
        law_plain_monitor_polls_every_session(panes, front, probes, now_ms);
        assert(numbers(sessions.len()).drop_last() =~= numbers(front.len()));
        lemma_same_fold(numbers(front.len()), start, f, g);
    }
}

/// The plain monitor tells what each pane of a session tells, with the mention of the session,
/// remembers every pane, says which sessions are gone, and passes over those that could not be
/// read.
pub proof fn law_plain_poll_of_a_session(
    poll: DirectPoll,
    session: Seq<char>,
    r: RegistrationView,
    panes: Seq<SnapshotView>,
    now_ms: u64,
)
    ensures
        monitor::session_polled(poll, session, r, ProbeView::Unreadable, now_ms) == poll,
        ({
            let after = monitor::session_polled(poll, session, r, ProbeView::Gone, now_ms);
            &&& after.gone == poll.gone.push(session)
            &&& after.events == poll.events
            &&& after.seen == poll.seen
        }),
        monitor::session_polled(poll, session, r, ProbeView::Panes(panes), now_ms)
            == panes.fold_left(
            poll,
            |so_far: DirectPoll, pane: SnapshotView|
                {
                    let key = pane.session + "::"@ + pane.pane_id;
                    let known = table::lookup(so_far.panes, key);
                    DirectPoll {
                        panes: table::put(
                            so_far.panes,
                            key,
                            monitor::pane_remembered(known, pane, r, now_ms),
                        ),
                        events: so_far.events + monitor::pane_events(
                            known,
                            pane,
                            r,
                            now_ms,
                        ).map_values(|e: EventView| (e, r.mention)),
                        seen: so_far.seen.push(key),
                        gone: so_far.gone,
                    }
                },
        ),
    decreases panes.len(),
{
    if panes.len() > 0 {
        law_plain_poll_of_a_session(poll, session, r, panes.drop_last(), now_ms);
        let so_far = monitor::panes_polled(poll, r, panes.drop_last(), now_ms);
        let pane = panes.last();
        let key = pane.session + "::"@ + pane.pane_id;
        let known = table::lookup(so_far.panes, key);
        let told = monitor::pane_events(known, pane, r, now_ms);
        assert(monitor::mentioning(told, r.mention) =~= told.map_values(
            |e: EventView| (e, r.mention),
        ));
    }
}

proof fn lemma_named(registrations: Seq<RegistrationView>, session: Seq<char>, i: int)
    requires
        0 <= i < registrations.len(),
        registrations[i].session == session,
        forall|j: int|
            i < j < registrations.len() ==> (#[trigger] registrations[j]).session != session,
    ensures
        table::lookup(monitor::named_sessions(registrations), session) == Some(registrations[i]),
    decreases registrations.len(),
{
    let front = registrations.drop_last();
    let n = registrations.len() - 1;
    let before = monitor::named_sessions(front);
    let last = registrations.last();
    table::law_put_then_lookup(before, last.session, last, session);
    table::law_put_then_lookup(before, last.session, last, last.session);
    if i < n {
        assert(registrations[n].session != session);
        assert(front[i] == registrations[i]);
        assert forall|j: int| i < j < front.len() implies (#[trigger] front[j]).session
            != session by {
            assert(registrations[j].session != session);
        }
        lemma_named(front, session, i);
    }
}

proof fn lemma_extended<V>(m: Seq<(Seq<char>, V)>, more: Seq<(Seq<char>, V)>, key: Seq<char>)
    ensures
        table::lookup(table::extended(m, more), key) == (if table::lookup(more, key) is Some {
            table::lookup(more, key)
        } else {
            table::lookup(m, key)
        }),
    decreases more.len(),
{
    if more.len() > 0 {
        lemma_extended(m, more.drop_last(), key);
        table::law_put_then_lookup(
            table::extended(m, more.drop_last()),
            more.last().0,
            more.last().1,
            key,
        );
    }
}

/// The plain monitor watches what is registered, and besides what is configured, of which the
/// last entry for a session counts.
pub proof fn law_sessions_of_the_plain_monitor(
    config: AppSettingsView,
    registered: Registry,
    now: Seq<char>,
    i: int,
)
    requires
        0 <= i < config.monitors.tmux.sessions.len(),
        forall|j: int|
            i < j < config.monitors.tmux.sessions.len() ==> (
            #[trigger] config.monitors.tmux.sessions[j]).session
                != config.monitors.tmux.sessions[i].session,
    ensures
        ({
            let all = table::extended(
                monitor::named_sessions(registry::configured_all(config, now)),
                registered,
            );
            let session = config.monitors.tmux.sessions[i].session;
            &&& table::lookup(registered, session) is Some ==> table::lookup(all, session)
                == table::lookup(registered, session)
            &&& table::lookup(registered, session) is None ==> table::lookup(all, session) == Some(
                registry::configured(config.monitors.tmux.sessions[i], now),
            )
        }),
{
    let list = registry::configured_all(config, now);
    let session = config.monitors.tmux.sessions[i].session;
    assert forall|j: int| i < j < list.len() implies (#[trigger] list[j]).session != session by {
        assert(config.monitors.tmux.sessions[j].session != session);
    }
    lemma_named(list, session, i);
    lemma_extended(monitor::named_sessions(list), registered, session);
}

// ---------------------------------------------------------------------------
// Which sessions are polled
// ---------------------------------------------------------------------------

proof fn lemma_registrations_in(m: Resolved, session: Seq<char>)
    ensures
        table::lookup(registry::registrations_in(m), session) == (match table::lookup(m, session) {
            Some(present) => Some(present.registration),
            None => None,
        }),
    decreases m.len(),
{
    let all = registry::registrations_in(m);
    if m.len() > 0 {
        lemma_registrations_in(m.drop_last(), session);
        assert(all.drop_last() =~= registry::registrations_in(m.drop_last()));
    }
}

/// The sessions that are polled are those that are registered, each under its registration,
/// and besides those of the configuration, each under the closest of its entries.
pub proof fn law_sessions_that_are_polled(
    config: AppSettingsView,
    registered: Registry,
    available: Option<Seq<Seq<char>>>,
    now: Seq<char>,
    session: Seq<char>,
)
    ensures
        ({
            let closest = registry::resolved(registry::configured_all(config, now), available);
            let all = table::extended(registry::registrations_in(closest), registered);
            table::lookup(all, session) == (match table::lookup(registered, session) {
                Some(r) => Some(r),
                None => match table::lookup(closest, session) {
                    Some(present) => Some(present.registration),
                    None => None,
                },
            })
        }),
{
    let closest = registry::resolved(registry::configured_all(config, now), available);
    lemma_registrations_in(closest, session);
    lemma_extended(registry::registrations_in(closest), registered, session);
}

proof fn lemma_all_in_order(m: Resolved, sessions: Seq<Seq<char>>, r: RegistrationView)
    requires
        table::in_order(m),
    ensures
        table::in_order(registry::with_all_resolved(m, sessions, r)),
    decreases sessions.len(),
{
    if sessions.len() > 0 {
        let front = sessions.drop_last();
        lemma_all_in_order(m, front, r);
        let before = registry::with_all_resolved(m, front, r);
        let last = sessions.last();
        table::law_put_keeps_order(
            before,
            last,
            ResolvedView {
                specificity: registry::specificity_of(r.session),
                registration: RegistrationView { session: last, ..r },
            },
        );
    }
}

proof fn lemma_resolved_in_order(
    registrations: Seq<RegistrationView>,
    available: Option<Seq<Seq<char>>>,
)
    ensures
        table::in_order(registry::resolved(registrations, available)),
    decreases registrations.len(),
{
    if registrations.len() > 0 {
        let front = registrations.drop_last();
        lemma_resolved_in_order(front, available);
        lemma_all_in_order(
            registry::resolved(front, available),
            registry::stands_for(registrations.last(), available),
            registrations.last(),
        );
    }
}

/// The active sessions of a configuration are those that are there, each under the closest of
/// its entries.
pub proof fn law_active_sessions(
    config: AppSettingsView,
    available: Seq<Seq<char>>,
    now: Seq<char>,
    session: Seq<char>,
)
    ensures
        ({
            let closest = registry::resolved(
                registry::configured_all(config, now),
                Some(available),
            );
            table::lookup(registry::active_sessions(config, available, now), session) == (
            match table::lookup(closest, session) {
                Some(present) => if available.contains(session) {
                    Some(present.registration)
                } else {
                    None
                },
                None => None,
            })
        }),
{
    let list = registry::configured_all(config, now);
    let closest = registry::resolved(list, Some(available));
    lemma_resolved_in_order(list, Some(available));
    lemma_registrations_in(closest, session);
    let all = registry::registrations_in(closest);
    assert(table::in_order(all)) by {
        assert forall|i: int, j: int|
            #![trigger all[i], all[j]]
            0 <= i < j < all.len() implies crate::scan::comes_before(all[i].0, all[j].0) by {
            assert(crate::scan::comes_before(closest[i].0, closest[j].0));
        }
    }
    table::law_kept_then_lookup(all, registry::is_there(available), session);
}

/// Each session of a configuration is registered as it is configured, in their order.
pub proof fn law_configured_sessions(config: AppSettingsView, now: Seq<char>)
    ensures
        registry::configured_all(config, now) == config.monitors.tmux.sessions.map_values(
            |s: crate::config::TmuxSessionMonitorView| registry::configured(s, now),
        ),
{
    assert(registry::configured_all(config, now) =~= config.monitors.tmux.sessions.map_values(
        |s: crate::config::TmuxSessionMonitorView| registry::configured(s, now),
    ));
}

} // verus!
