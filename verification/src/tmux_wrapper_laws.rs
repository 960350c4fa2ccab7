//! What watching a single session does.
use vstd::prelude::*;
use vstd::string::*;

use crate::cli::{TmuxNewArgs, TmuxWrapperFormat};
use crate::events::{EventView, MessageFormat};
use crate::monitor;
use crate::registry::{ParentView, RegistrationSource, RegistrationView};
use crate::table;
use crate::text;
use crate::tmux;
use crate::tmux::{PaneView, Panes, SnapshotView};
use crate::tmux_wrapper;
use crate::tmux_wrapper::{Looked, MonitorArgsView};

verus! {

/// A session that the program watches is registered as the command line says, with the wrapper
/// as its monitor and hits gathered for half a minute.
pub proof fn law_watched_session_is_registered(
    args: MonitorArgsView,
    source: RegistrationSource,
    now: Seq<char>,
    parent: Option<ParentView>,
)
    ensures
        ({
            let r = tmux_wrapper::registered(args, source, now, parent);
            &&& r.session == args.session
            &&& r.channel == args.channel
            &&& r.mention == args.mention
            &&& r.keywords == args.keywords
            &&& r.keyword_window_secs == 30
            &&& r.stale_minutes == args.stale_minutes
            &&& match (args.format, r.format) {
                (None, None) => true,
                (Some(TmuxWrapperFormat::Compact), Some(MessageFormat::Compact)) => true,
                (Some(TmuxWrapperFormat::Alert), Some(MessageFormat::Alert)) => true,
                (Some(TmuxWrapperFormat::Inline), Some(MessageFormat::Inline)) => true,
                _ => false,
            }
            &&& r.registered_at == now
            &&& r.registration_source == source
            &&& r.parent_process == parent
            &&& r.active_wrapper_monitor
            &&& !r.from_config()
            &&& !r.summarize
            &&& r.live_state is None
        }),
{
}

/// The keywords of a list that say something.
pub open spec fn clean_keywords(keywords: Seq<Seq<char>>) -> Seq<Seq<char>> {
    keywords.filter(|k: Seq<char>| text::trimmed(k).len() > 0).map_values(
        |k: Seq<char>| text::trimmed(k),
    )
}

/// The keywords that are looked for are those of the command line, trimmed, without the blank
/// ones.
pub proof fn law_keywords_that_are_looked_for(keywords: Seq<Seq<char>>)
    ensures
        tmux_wrapper::cleaned(keywords) == clean_keywords(keywords),
    decreases keywords.len(),
{
    reveal(Seq::filter);
    let says = |k: Seq<char>| text::trimmed(k).len() > 0;
    if keywords.len() > 0 {
        let front = keywords.drop_last();
        law_keywords_that_are_looked_for(front);
        if says(keywords.last()) {
            assert(keywords.filter(says) == front.filter(says).push(keywords.last()));
            assert(clean_keywords(keywords) =~= clean_keywords(front).push(
                text::trimmed(keywords.last()),
            ));
        } else {
            assert(keywords.filter(says) == front.filter(says));
        }
    } else {
        assert(tmux_wrapper::cleaned(keywords) =~= clean_keywords(keywords));
    }
}

/// No pane of a list stands in it twice.
pub open spec fn each_once(list: Seq<SnapshotView>) -> bool {
    forall|i: int, j: int|
        #![trigger list[i], list[j]]
        0 <= i < j < list.len() ==> list[i].pane_id != list[j].pane_id
}

/// The registration by which panes are looked at.
pub open spec fn view_of(args: MonitorArgsView) -> RegistrationView {
    RegistrationView {
        keywords: clean_keywords(args.keywords),
        ..tmux_wrapper::registered(args, RegistrationSource::CliWatch, ""@, None)
    }
}

/// What a pane tells, with the mention of the command line.
pub open spec fn told_of(
    panes: Panes,
    args: MonitorArgsView,
    pane: SnapshotView,
    now_ms: u64,
) -> Seq<
    EventView,
> {
    monitor::pane_events(
        table::lookup(panes, pane.pane_id),
        pane,
        view_of(args),
        now_ms,
    ).map_values(|e: EventView| EventView { mention: args.mention, ..e })
}

proof fn lemma_looked(
    looked: Looked,
    args: MonitorArgsView,
    list: Seq<SnapshotView>,
    now_ms: u64,
    id: Seq<char>,
)
    requires
        each_once(list),
    ensures
        ({
            let after = tmux_wrapper::panes_looked(looked, args, list, now_ms);
            &&& after.events == looked.events + list.map_values(
                |pane: SnapshotView| told_of(looked.panes, args, pane, now_ms),
            ).flatten()
            &&& after.seen == looked.seen + list.map_values(|pane: SnapshotView| pane.pane_id)
            &&& (forall|i: int| 0 <= i < list.len() ==> (#[trigger] list[i]).pane_id != id)
                ==> table::lookup(after.panes, id) == table::lookup(looked.panes, id)
            &&& forall|i: int|
                0 <= i < list.len() && (#[trigger] list[i]).pane_id == id ==> table::lookup(
                    after.panes,
                    id,
                ) == Some(
                    tmux_wrapper::pane_kept(
                        table::lookup(looked.panes, id),
                        list[i],
                        view_of(args),
                        now_ms,
                    ),
                )
        }),
    decreases list.len(),
{
    law_keywords_that_are_looked_for(args.keywords);
    let f = |pane: SnapshotView| told_of(looked.panes, args, pane, now_ms);
    let g = |pane: SnapshotView| pane.pane_id;
    let after = tmux_wrapper::panes_looked(looked, args, list, now_ms);
    if list.len() == 0 {
        assert(list.map_values(f) =~= Seq::empty());
        assert(after.events =~= looked.events + list.map_values(f).flatten());
        assert(after.seen =~= looked.seen + list.map_values(g));
    } else {
        let front = list.drop_last();
        let pane = list.last();
        let n = list.len() - 1;
        assert(list[n] == pane);
        assert(each_once(front)) by {
            assert forall|i: int, j: int|
                #![trigger front[i], front[j]]
                0 <= i < j < front.len() implies front[i].pane_id != front[j].pane_id by {
                assert(list[i].pane_id != list[j].pane_id);
            }
        }
        lemma_looked(looked, args, front, now_ms, id);
        lemma_looked(looked, args, front, now_ms, pane.pane_id);
        let so_far = tmux_wrapper::panes_looked(looked, args, front, now_ms);
        assert forall|i: int| 0 <= i < front.len() implies (#[trigger] front[i]).pane_id
            != pane.pane_id by {
            assert(list[i].pane_id != list[n].pane_id);
        }
        let existing = table::lookup(so_far.panes, pane.pane_id);
        assert(existing == table::lookup(looked.panes, pane.pane_id));
        let kept = tmux_wrapper::pane_kept(existing, pane, view_of(args), now_ms);
        assert(tmux_wrapper::looked_at(args) == view_of(args));
        table::law_put_then_lookup(so_far.panes, pane.pane_id, kept, id);
        assert(tmux_wrapper::with_mention(
            monitor::pane_events(existing, pane, view_of(args), now_ms),
            args.mention,
        ) =~= f(pane));
        assert(list.map_values(f) =~= front.map_values(f).push(f(pane)));
        front.map_values(f).lemma_flatten_push(f(pane));
        assert(after.events =~= looked.events + list.map_values(f).flatten());
        assert(list.map_values(g) =~= front.map_values(g).push(pane.pane_id));
        assert(after.seen =~= looked.seen + list.map_values(g));
        assert forall|i: int| 0 <= i < list.len() && (#[trigger] list[i]).pane_id == id implies table::lookup(
            after.panes,
            id,
        ) == Some(
            tmux_wrapper::pane_kept(
                table::lookup(looked.panes, id),
                list[i],
                view_of(args),
                now_ms,
            ),
        ) by {
            if i < n {
                assert(front[i] == list[i]);
                assert(list[i].pane_id != list[n].pane_id);
            }
        }
        if forall|i: int| 0 <= i < list.len() ==> (#[trigger] list[i]).pane_id != id {
            assert forall|i: int| 0 <= i < front.len() implies (#[trigger] front[i]).pane_id
                != id by {
                assert(list[i].pane_id != id);
            }
        }
    }
}

/// A look at a session tells what each of its panes tells, in their order, and remembers those
/// panes and no others.
pub proof fn law_look_at_a_session(
    panes: Panes,
    args: MonitorArgsView,
    list: Seq<SnapshotView>,
    now_ms: u64,
    i: int,
    other: Seq<char>,
)
    requires
        table::in_order(panes),
        each_once(list),
        0 <= i < list.len(),
        forall|k: int| 0 <= k < list.len() ==> (#[trigger] list[k]).pane_id != other,
    ensures
        ({
            let (after, events) = tmux_wrapper::session_looked(panes, args, list, now_ms);
            &&& events == list.map_values(
                |pane: SnapshotView| told_of(panes, args, pane, now_ms),
            ).flatten()
            &&& table::lookup(after, list[i].pane_id) == Some(
                tmux_wrapper::pane_kept(
                    table::lookup(panes, list[i].pane_id),
                    list[i],
                    view_of(args),
                    now_ms,
                ),
            )
            &&& table::lookup(after, other) is None
        }),
{
    let start = Looked { panes, events: Seq::empty(), seen: Seq::empty() };
    let id = list[i].pane_id;
    lemma_looked(start, args, list, now_ms, id);
    lemma_looked(start, args, list, now_ms, other);
    let looked = tmux_wrapper::panes_looked(start, args, list, now_ms);
    lemma_order(start, args, list, now_ms);
    let g = |pane: SnapshotView| pane.pane_id;
    assert(looked.seen =~= list.map_values(g));
    assert(looked.events =~= list.map_values(
        |pane: SnapshotView| told_of(panes, args, pane, now_ms),
    ).flatten());
    table::law_kept_then_lookup(looked.panes, tmux::has_key(looked.seen), id);
    table::law_kept_then_lookup(looked.panes, tmux::has_key(looked.seen), other);
    assert(looked.seen[i] == id);
    assert(looked.seen.contains(id));
    if looked.seen.contains(other) {
        let k = choose|k: int| 0 <= k < looked.seen.len() && looked.seen[k] == other;
        assert(list[k].pane_id == other);
    }
}

proof fn lemma_order(looked: Looked, args: MonitorArgsView, list: Seq<SnapshotView>, now_ms: u64)
    requires
        table::in_order(looked.panes),
    ensures
        table::in_order(tmux_wrapper::panes_looked(looked, args, list, now_ms).panes),
    decreases list.len(),
{
    if list.len() > 0 {
        let front = list.drop_last();
        lemma_order(looked, args, front, now_ms);
        let so_far = tmux_wrapper::panes_looked(looked, args, front, now_ms);
        let pane = list.last();
        table::law_put_keeps_order(
            so_far.panes,
            pane.pane_id,
            tmux_wrapper::pane_kept(
                table::lookup(so_far.panes, pane.pane_id),
                pane,
                tmux_wrapper::looked_at(args),
                now_ms,
            ),
        );
    }
}

/// A pane is remembered as it is seen; one whose content changed as if it were seen for the
/// first time.
pub proof fn law_pane_is_kept(
    existing: Option<PaneView>,
    pane: SnapshotView,
    r: RegistrationView,
    now_ms: u64,
)
    ensures
        ({
            let after = tmux_wrapper::pane_kept(existing, pane, r, now_ms);
            &&& after.snapshot == pane.content
            &&& match existing {
                Some(known) => if known.snapshot == pane.content {
                    after.last_change == known.last_change
                } else {
                    after.last_change == now_ms && after.session == pane.session
                        && after.last_stale_notification is None
                },
                None => after.last_change == now_ms && after.session == pane.session
                    && after.last_stale_notification is None,
            }
        }),
{
}

/// A new session is started in the background under its name, with the name of the window and
/// the directory where they are given.
pub proof fn law_words_of_a_new_session(args: TmuxNewArgs)
    ensures
        tmux_wrapper::new_session_words(args) == seq![
            "new-session"@,
            "-d"@,
            "-s"@,
            args.session@,
        ] + (match args.window_name {
            Some(name) => seq!["-n"@, name@],
            None => Seq::empty(),
        }) + (match args.cwd {
            Some(dir) => seq!["-c"@, dir@],
            None => Seq::empty(),
        }),
{
    assert(tmux_wrapper::new_session_words(args) =~= seq![
        "new-session"@,
        "-d"@,
        "-s"@,
        args.session@,
    ] + (match args.window_name {
        Some(name) => seq!["-n"@, name@],
        None => Seq::empty(),
    }) + (match args.cwd {
        Some(dir) => seq!["-c"@, dir@],
        None => Seq::empty(),
    }));
}

/// What is typed into a new session: nothing for no command, a single word as it stands, and
/// several so that a shell reads them as they are; with a shell, as its argument.
pub proof fn law_what_is_typed(command: Seq<Seq<char>>, shell: Seq<char>)
    ensures
        command.len() == 0 ==> tmux_wrapper::typed(command, None) is None
            && tmux_wrapper::typed(command, Some(shell)) is None,
        command.len() == 1 ==> tmux_wrapper::typed(command, None) == Some(command[0]),
        command.len() > 1 ==> match tmux_wrapper::typed(command, None) {
            Some(line) => tmux_wrapper::shell_words(line) == Some(command),
            None => false,
        },
        command.len() > 0 ==> match (
            tmux_wrapper::typed(command, None),
            tmux_wrapper::typed(command, Some(shell)),
        ) {
            (Some(line), Some(run)) => run == tmux_wrapper::escaped(shell) + " -c "@
                + tmux_wrapper::escaped(line),
            _ => false,
        },
{
    tmux_wrapper::law_shell_reads_the_texts(command);
}

/// Enter is pressed again after half a second, after one and after two, as often as is asked
/// for.
pub proof fn law_pauses_before_enter(max_retries: u32)
    ensures
        ({
            let pauses = tmux_wrapper::retry_pauses(max_retries);
            &&& pauses.len() == (if max_retries < 3 {
                max_retries as nat
            } else {
                3
            })
            &&& max_retries > 0 ==> pauses[0] == 500
            &&& max_retries > 1 ==> pauses[1] == 1000
            &&& max_retries > 2 ==> pauses[2] == 2000
        }),
{
}

/// A pause doubles each time, as far as it can be told.
pub proof fn law_pause_doubles(first: u64, times: nat)
    ensures
        tmux_wrapper::doubled(first, 0) == first,
        2 * tmux_wrapper::doubled(first, times) <= u64::MAX ==> tmux_wrapper::doubled(
            first,
            times + 1,
        ) == 2 * tmux_wrapper::doubled(first, times),
        2 * tmux_wrapper::doubled(first, times) > u64::MAX ==> tmux_wrapper::doubled(
            first,
            times + 1,
        ) == u64::MAX,
{
}

} // verus!
