//! Which registration a session is watched under.
use vstd::prelude::*;
use vstd::string::*;

use crate::config::TmuxSessionMonitorView;
use crate::glob;
use crate::registry;
use crate::registry::{RegistrationSource, RegistrationView, Registry, Resolved, ResolvedView};
use crate::table;

verus! {

/// A session of the configuration is registered as it is configured, by the configuration and
/// with no wrapper.
pub proof fn law_configured_session_is_registered(monitor: TmuxSessionMonitorView, now: Seq<char>)
    ensures
        ({
            let r = registry::configured(monitor, now);
            &&& r.session == monitor.session
            &&& r.channel == monitor.channel
            &&& r.mention == monitor.mention
            &&& r.keywords == monitor.keywords
            &&& r.keyword_window_secs == monitor.keyword_window_secs
            &&& r.stale_minutes == monitor.stale_minutes
            &&& r.format == monitor.format
            &&& r.registered_at == now
            &&& r.registration_source == RegistrationSource::ConfigMonitor
            &&& r.parent_process is None
            &&& !r.active_wrapper_monitor
            &&& r.summarize == monitor.summarize
            &&& r.summarizer == monitor.summarizer
            &&& r.heartbeat_mins == monitor.heartbeat_mins
            &&& r.min_new_lines == monitor.min_new_lines
            &&& r.summarize_interval_mins == monitor.summarize_interval_mins
            &&& r.heartbeat_interval == monitor.heartbeat_interval
            &&& r.summary_interval == monitor.summary_interval
            &&& r.live_state is None
            &&& r.from_config()
        }),
{
}

/// The newer settings for the minutes between two heartbeats or summaries count where they are
/// set, and the older ones where they are not.
pub proof fn law_minutes_between_reports(r: RegistrationView)
    ensures
        r.heartbeat_interval > 0 ==> r.heartbeat_minutes() == r.heartbeat_interval,
        r.heartbeat_interval == 0 ==> r.heartbeat_minutes() == r.heartbeat_mins,
        r.summary_interval > 0 ==> r.summary_minutes() == r.summary_interval,
        r.summary_interval == 0 ==> r.summary_minutes() == r.summarize_interval_mins,
{
}

/// The labels of what makes a registration.
pub proof fn law_labels_of_sources()
    ensures
        registry::source_label(RegistrationSource::CliWatch) == "cli-watch"@,
        registry::source_label(RegistrationSource::CliNew) == "cli-new"@,
        registry::source_label(RegistrationSource::ConfigMonitor) == "config-monitor"@,
{
}

/// How many stars a pattern has.
pub open spec fn stars(pattern: Seq<char>) -> nat {
    pattern.filter(|c: char| c == '*').len()
}

proof fn lemma_stars(pattern: Seq<char>)
    ensures
        registry::char_count(pattern, '*') == stars(pattern),
        stars(pattern) <= pattern.len(),
        stars(pattern) == 0 <==> !pattern.contains('*'),
    decreases pattern.len(),
{
    reveal(Seq::filter);
    if pattern.len() > 0 {
        let front = pattern.drop_last();
        lemma_stars(front);
        if pattern.last() == '*' {
            assert(pattern[pattern.len() - 1] == '*');
        } else if pattern.contains('*') {
            let i = choose|i: int| 0 <= i < pattern.len() && pattern[i] == '*';
            assert(front[i] == '*');
        } else if front.contains('*') {
            let i = choose|i: int| 0 <= i < front.len() && front[i] == '*';
            assert(pattern[i] == '*');
        }
    }
}

/// One pattern describes a session more closely than another.
pub open spec fn closer(a: Seq<char>, b: Seq<char>) -> bool {
    if a.contains('*') != b.contains('*') {
        b.contains('*')
    } else if a.len() - stars(a) != b.len() - stars(b) {
        a.len() - stars(a) > b.len() - stars(b)
    } else {
        stars(a) < stars(b)
    }
}

/// A name is closer than a pattern; of two patterns the one with more characters besides the
/// stars is, and where these are equal the one with fewer stars.
pub proof fn law_closer_pattern(a: Seq<char>, b: Seq<char>)
    requires
        a.len() <= usize::MAX,
        b.len() <= usize::MAX,
    ensures
        registry::ranks_above(registry::specificity_of(a), registry::specificity_of(b)) == closer(
            a,
            b,
        ),
{
    lemma_stars(a);
    lemma_stars(b);
}

proof fn lemma_fitting(pattern: Seq<char>, sessions: Seq<Seq<char>>)
    ensures
        registry::fitting(pattern, sessions) == sessions.filter(
            |s: Seq<char>| glob::fits(pattern, s),
        ),
    decreases sessions.len(),
{
    reveal(Seq::filter);
    if sessions.len() > 0 {
        lemma_fitting(pattern, sessions.drop_last());
    } else {
        assert(registry::fitting(pattern, sessions) =~= sessions.filter(
            |s: Seq<char>| glob::fits(pattern, s),
        ));
    }
}

/// A registration stands for all sessions that are there and that its pattern fits. Where it
/// fits none, a name stands for itself and a pattern for nothing.
pub proof fn law_sessions_of_a_registration(
    r: RegistrationView,
    there: Seq<Seq<char>>,
)
    ensures
        ({
            let fits = there.filter(|s: Seq<char>| glob::fits(r.session, s));
            let own = if r.session.contains('*') {
                Seq::<Seq<char>>::empty()
            } else {
                seq![r.session]
            };
            &&& fits.len() > 0 ==> registry::stands_for(r, Some(there)) == fits
            &&& fits.len() == 0 ==> registry::stands_for(r, Some(there)) == own
            &&& registry::stands_for(r, None) == own
        }),
{
    lemma_fitting(r.session, there);
    let fits = there.filter(|s: Seq<char>| glob::fits(r.session, s));
    if fits.len() == 0 {
        assert(fits =~= Seq::empty());
    }
}

/// A registration as it stands for a session.
pub open spec fn under(r: RegistrationView, session: Seq<char>) -> ResolvedView {
    ResolvedView {
        specificity: registry::specificity_of(r.session),
        registration: RegistrationView { session, ..r },
    }
}

spec fn above(a: RegistrationView, b: RegistrationView) -> bool {
    registry::ranks_above(
        registry::specificity_of(a.session),
        registry::specificity_of(b.session),
    )
}

proof fn lemma_all_resolved(
    m: Resolved,
    sessions: Seq<Seq<char>>,
    r: RegistrationView,
    session: Seq<char>,
)
    ensures
        table::lookup(registry::with_all_resolved(m, sessions, r), session) == (
        if !sessions.contains(session) {
            table::lookup(m, session)
        } else {
            match table::lookup(m, session) {
                Some(present) => if registry::ranks_above(
                    registry::specificity_of(r.session),
                    present.specificity,
                ) {
                    Some(under(r, session))
                } else {
                    Some(present)
                },
                None => Some(under(r, session)),
            }
        }),
    decreases sessions.len(),
{
    if sessions.len() > 0 {
        let front = sessions.drop_last();
        let last = sessions.last();
        lemma_all_resolved(m, front, r, session);
        let before = registry::with_all_resolved(m, front, r);
        table::law_put_then_lookup(before, last, under(r, last), session);
        assert(sessions[sessions.len() - 1] == last);
        if front.contains(session) {
            let i = choose|i: int| 0 <= i < front.len() && front[i] == session;
            assert(sessions[i] == session);
        } else if sessions.contains(session) && last != session {
            let i = choose|i: int| 0 <= i < sessions.len() && sessions[i] == session;
            assert(front[i] == session);
        }
    }
}

/// The registration of a list under which a session is watched: it stands for the session,
/// and it is closer than those before it and as close as those behind it.
pub open spec fn is_chosen(
    registrations: Seq<RegistrationView>,
    available: Option<Seq<Seq<char>>>,
    session: Seq<char>,
    k: int,
) -> bool {
    &&& 0 <= k < registrations.len()
    &&& registry::stands_for(registrations[k], available).contains(session)
    &&& forall|j: int|
        0 <= j < k && registry::stands_for(#[trigger] registrations[j], available).contains(session)
            ==> registry::ranks_above(
            registry::specificity_of(registrations[k].session),
            registry::specificity_of(registrations[j].session),
        )
    &&& forall|j: int|
        k < j < registrations.len() && registry::stands_for(
            #[trigger] registrations[j],
            available,
        ).contains(session) ==> !registry::ranks_above(
            registry::specificity_of(registrations[j].session),
            registry::specificity_of(registrations[k].session),
        )
}

/// A session is watched under the closest of the registrations that stand for it, the first of
/// them where several are as close, and under its own name. One for which none stands is not
/// watched.
pub proof fn law_session_is_watched(
    registrations: Seq<RegistrationView>,
    available: Option<Seq<Seq<char>>>,
    session: Seq<char>,
)
    ensures
        match table::lookup(registry::resolved(registrations, available), session) {
            Some(present) => exists|k: int| #[trigger]
                is_chosen(registrations, available, session, k) && present == under(
                    registrations[k],
                    session,
                ),
            None => forall|j: int|
                0 <= j < registrations.len() ==> !registry::stands_for(
                    #[trigger] registrations[j],
                    available,
                ).contains(session),
        },
    decreases registrations.len(),
{
    if registrations.len() > 0 {
        let front = registrations.drop_last();
        let last = registrations.last();
        let n = registrations.len() - 1;
        law_session_is_watched(front, available, session);
        let before = registry::resolved(front, available);
        let names = registry::stands_for(last, available);
        lemma_all_resolved(before, names, last, session);
        assert(registrations[n] == last);
        assert forall|j: int| 0 <= j < n implies front[j] == #[trigger] registrations[j] by {}
        match table::lookup(before, session) {
            Some(present) => {
                let k = choose|k: int| #[trigger]
                    is_chosen(front, available, session, k) && present == under(front[k], session);
                assert(registrations[k] == front[k]);
                if names.contains(session) && above(last, front[k]) {
                    assert forall|j: int|
                        0 <= j < n && registry::stands_for(
                            #[trigger] registrations[j],
                            available,
                        ).contains(session) implies above(last, registrations[j]) by {
                        assert(registry::stands_for(front[j], available).contains(session));
                    }
                    assert(is_chosen(registrations, available, session, n));
                    assert(under(registrations[n], session) == under(last, session));
                } else {
                    assert forall|j: int|
                        k < j < registrations.len() && registry::stands_for(
                            #[trigger] registrations[j],
                            available,
                        ).contains(session) implies !above(registrations[j], registrations[k]) by {
                        if j < n {
                            assert(registry::stands_for(front[j], available).contains(session));
                        }
                    }
                    assert forall|j: int|
                        0 <= j < k && registry::stands_for(
                            #[trigger] registrations[j],
                            available,
                        ).contains(session) implies above(registrations[k], registrations[j]) by {
                        assert(registry::stands_for(front[j], available).contains(session));
                    }
                    assert(is_chosen(registrations, available, session, k));
                }
            },
            None => {
                assert forall|j: int|
                    0 <= j < n implies !registry::stands_for(
                    #[trigger] registrations[j],
                    available,
                ).contains(session) by {
                    assert(!registry::stands_for(front[j], available).contains(session));
                }
                if names.contains(session) {
                    assert(is_chosen(registrations, available, session, n));
                }
            },
        }
    }
}

proof fn lemma_merged_elsewhere(registry: Registry, active: Registry, session: Seq<char>)
    requires
        forall|i: int| 0 <= i < active.len() ==> (#[trigger] active[i]).0 != session,
    ensures
        table::lookup(registry::merged(registry, active), session) == table::lookup(
            registry,
            session,
        ),
    decreases active.len(),
{
    if active.len() > 0 {
        let front = active.drop_last();
        assert forall|i: int| 0 <= i < front.len() implies (#[trigger] front[i]).0 != session by {
            assert(active[i].0 != session);
        }
        lemma_merged_elsewhere(registry, front, session);
        let so_far = registry::merged(registry, front);
        assert(active[active.len() - 1].0 != session);
        table::law_put_then_lookup(
            so_far,
            active.last().0,
            registry::taking_over(active.last().1, table::lookup(so_far, active.last().0)),
            session,
        );
    }
}

proof fn lemma_merged_at(registry: Registry, active: Registry, i: int)
    requires
        0 <= i < active.len(),
        table::has_no_key_twice(active),
    ensures
        ({
            let present = table::lookup(registry, active[i].0);
            table::lookup(registry::merged(registry, active), active[i].0) == Some(
                match present {
                    Some(old_one) => if old_one.active_wrapper_monitor {
                        old_one
                    } else {
                        registry::taking_over(active[i].1, present)
                    },
                    None => registry::taking_over(active[i].1, present),
                },
            )
        }),
    decreases active.len(),
{
    let front = active.drop_last();
    let session = active[i].0;
    let so_far = registry::merged(registry, front);
    assert(table::has_no_key_twice(front)) by {
        assert forall|a: int, b: int|
            #![trigger front[a], front[b]]
            0 <= a < b < front.len() implies front[a].0 != front[b].0 by {
            assert(active[a].0 != active[b].0);
        }
    }
    if i == active.len() - 1 {
        assert forall|j: int| 0 <= j < front.len() implies (#[trigger] front[j]).0 != session by {
            assert(active[j].0 != active[i].0);
        }
        lemma_merged_elsewhere(registry, front, session);
        table::law_put_then_lookup(
            so_far,
            session,
            registry::taking_over(active[i].1, table::lookup(so_far, session)),
            session,
        );
    } else {
        assert(front[i] == active[i]);
        lemma_merged_at(registry, front, i);
        assert(active[i].0 != active[active.len() - 1].0);
        table::law_put_then_lookup(
            so_far,
            active.last().0,
            registry::taking_over(active.last().1, table::lookup(so_far, active.last().0)),
            session,
        );
    }
}

/// An active session of the configuration is registered as it is configured; one that the
/// configuration had registered before keeps the moment of that and its process, and one that
/// a wrapper watches stays as it is.
pub proof fn law_active_session_is_registered(registry: Registry, active: Registry, i: int)
    requires
        table::in_order(registry),
        table::has_no_key_twice(active),
        0 <= i < active.len(),
        table::lookup(active, active[i].0) is Some,
    ensures
        ({
            let session = active[i].0;
            let r = active[i].1;
            let after = registry::merged(
                table::kept(registry, registry::stays(active)),
                active,
            );
            table::lookup(after, session) == Some(
                match table::lookup(registry, session) {
                    None => r,
                    Some(old_one) => if old_one.active_wrapper_monitor {
                        old_one
                    } else if old_one.registration_source == RegistrationSource::ConfigMonitor {
                        RegistrationView {
                            registered_at: old_one.registered_at,
                            parent_process: old_one.parent_process,
                            ..r
                        }
                    } else {
                        r
                    },
                },
            )
        }),
{
    let stays = table::kept(registry, registry::stays(active));
    table::law_kept_then_lookup(registry, registry::stays(active), active[i].0);
    lemma_merged_at(stays, active, i);
}

} // verus!
