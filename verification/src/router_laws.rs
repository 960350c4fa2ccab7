//! Which routes an event takes, and where they lead.
use vstd::prelude::*;
use vstd::string::*;

use crate::config::{AppSettingsView, RouteView};
use crate::events;
use crate::events::{EventView, RoutingView};
use crate::glob;
use crate::render;
use crate::router;
use crate::router::{DeliveryView, TargetView, Tokens};
use crate::table;
use crate::template;
use crate::text;

verus! {

// ---------------------------------------------------------------------------
// Patterns
// ---------------------------------------------------------------------------

/// What stands before the first star of a pattern has to stand at the beginning of a value;
/// the star stands for any characters, and the rest of the pattern fits what follows them.
pub proof fn law_first_star(before: Seq<char>, rest: Seq<char>, value: Seq<char>)
    requires
        !before.contains('*'),
    ensures
        glob::fits(before.push('*') + rest, value) <==> exists|k: int|
            before.len() <= k <= value.len() && value.take(before.len() as int) == before
                && glob::fits(rest, #[trigger] value.skip(k)),
    decreases before.len(), value.len(),
{
    let pattern = before.push('*') + rest;
    let there = exists|k: int|
        before.len() <= k <= value.len() && value.take(before.len() as int) == before
            && glob::fits(rest, #[trigger] value.skip(k));
    if before.len() == 0 {
        assert(before =~= Seq::empty());
        assert(value.take(0) =~= before);
        assert(pattern.skip(1) =~= rest);
        assert(value.skip(0) =~= value);
        if value.len() > 0 {
            let next = value.skip(1);
            law_first_star(before, rest, next);
            let later = exists|k: int|
                before.len() <= k <= next.len() && next.take(before.len() as int) == before
                    && glob::fits(rest, #[trigger] next.skip(k));
            assert(next.take(0) =~= before);
            if later {
                let k = choose|k: int|
                    before.len() <= k <= next.len() && next.take(before.len() as int) == before
                        && glob::fits(rest, #[trigger] next.skip(k));
                assert(value.skip(k + 1) =~= next.skip(k));
                assert(there);
            }
            if there && !glob::fits(rest, value) {
                let k = choose|k: int|
                    before.len() <= k <= value.len() && value.take(before.len() as int) == before
                        && glob::fits(rest, #[trigger] value.skip(k));
                assert(next.skip(k - 1) =~= value.skip(k));
                assert(later);
            }
        }
        if glob::fits(rest, value) {
            assert(glob::fits(rest, value.skip(0)));
            assert(there);
        }
        if there && value.len() == 0 {
            let k = choose|k: int|
                before.len() <= k <= value.len() && value.take(before.len() as int) == before
                    && glob::fits(rest, #[trigger] value.skip(k));
            assert(k == 0);
        }
    } else {
        assert(before[0] != '*');
        assert(pattern[0] == before[0]);
        let tail = before.drop_first();
        assert(!tail.contains('*')) by {
            if tail.contains('*') {
                let i = choose|i: int| 0 <= i < tail.len() && tail[i] == '*';
                assert(before[i + 1] == '*');
            }
        }
        assert(pattern.skip(1) =~= tail.push('*') + rest);
        if value.len() > 0 {
            let next = value.skip(1);
            law_first_star(tail, rest, next);
            let later = exists|k: int|
                tail.len() <= k <= next.len() && next.take(tail.len() as int) == tail
                    && glob::fits(rest, #[trigger] next.skip(k));
            if later && value[0] == before[0] {
                let k = choose|k: int|
                    tail.len() <= k <= next.len() && next.take(tail.len() as int) == tail
                        && glob::fits(rest, #[trigger] next.skip(k));
                assert(value.skip(k + 1) =~= next.skip(k));
                assert(value.take(before.len() as int) =~= seq![value[0]] + next.take(
                    tail.len() as int,
                ));
                assert(seq![before[0]] + tail =~= before);
                assert(there);
            }
            if there {
                let k = choose|k: int|
                    before.len() <= k <= value.len() && value.take(before.len() as int) == before
                        && glob::fits(rest, #[trigger] value.skip(k));
                assert(value.take(before.len() as int)[0] == value[0]);
                assert(next.skip(k - 1) =~= value.skip(k));
                assert(next.take(tail.len() as int) =~= value.take(before.len() as int).skip(1));
                assert(before.skip(1) =~= tail);
                assert(later);
            }
        }
    }
}

// ---------------------------------------------------------------------------
// The routes that an event takes
// ---------------------------------------------------------------------------

/// Every entry of a filter holds of an event: its key is a token of the event, and the token
/// fits the pattern of the entry.
pub open spec fn filter_holds(filter: Tokens, tokens: Tokens) -> bool {
    forall|i: int|
        0 <= i < filter.len() ==> (table::lookup(tokens, (#[trigger] filter[i]).0) matches Some(
            actual,
        ) && glob::fits(filter[i].1, actual))
}

/// A pattern of a route fits a kind of event, by its own name or by one that it goes by too:
/// commits and changes of branches go by the names of GitHub, what starts, is blocked,
/// finishes or fails goes by the names of agents and of sessions, and events of sessions and
/// terminals go by their family.
pub proof fn law_names_of_a_kind(pattern: Seq<char>, kind: Seq<char>)
    ensures
        glob::fits(pattern, kind) ==> router::kind_fits(pattern, kind),
        kind == "git.commit"@ ==> router::kind_fits(pattern, kind) == (glob::fits(pattern, kind)
            || glob::fits(pattern, "github.commit"@)),
        kind == "git.branch-changed"@ ==> router::kind_fits(pattern, kind) == (glob::fits(
            pattern,
            kind,
        ) || glob::fits(pattern, "github.branch-changed"@)),
        kind == "tmux.content_changed"@ || kind == "tmux.heartbeat"@ ==> router::kind_fits(
            pattern,
            kind,
        ) == (glob::fits(pattern, kind) || glob::fits(pattern, "tmux.*"@)),
        kind == "session.retry-needed"@ || kind == "session.pr-created"@ || kind
            == "session.test-started"@ || kind == "session.test-finished"@ || kind
            == "session.test-failed"@ || kind == "session.handoff-needed"@ ==> router::kind_fits(
            pattern,
            kind,
        ) == (glob::fits(pattern, kind) || glob::fits(pattern, "session.*"@)),
{
    let names = router::candidates(kind);
    lemma_stage_kinds();
    lemma_own_name_comes_first(kind);
    if glob::fits(pattern, kind) {
        assert(glob::fits(pattern, names[0]));
    }
    if kind == "git.commit"@ || kind == "git.branch-changed"@ || kind == "tmux.content_changed"@
        || kind == "tmux.heartbeat"@ || kind == "session.retry-needed"@ || kind
        == "session.pr-created"@ || kind == "session.test-started"@ || kind
        == "session.test-finished"@ || kind == "session.test-failed"@ || kind
        == "session.handoff-needed"@ {
        lemma_two_names(kind);
        assert(router::kind_fits(pattern, kind) == (glob::fits(pattern, names[0]) || glob::fits(
            pattern,
            names[1],
        ))) by {
            if glob::fits(pattern, names[1]) {
                assert(router::kind_fits(pattern, kind));
            }
        }
    }
}

proof fn lemma_own_name_comes_first(kind: Seq<char>)
    ensures
        router::candidates(kind).len() > 0,
        router::candidates(kind)[0] == kind,
{
}

proof fn lemma_no_stage(kind: Seq<char>, family: Seq<char>, stage: Seq<char>)
    requires
        router::shared_stage(kind, family) == Some(stage),
    ensures
        kind == family + stage,
{
    assert(kind.subrange(0, family.len() as int) == family);
    assert(kind =~= family + kind.skip(family.len() as int));
}

proof fn lemma_stage_kinds()
    ensures
        "git.commit"@ != "agent."@ + "started"@,
        "git.commit"@ != "agent."@ + "blocked"@,
        "git.commit"@ != "agent."@ + "finished"@,
        "git.commit"@ != "agent."@ + "failed"@,
        "git.commit"@ != "session."@ + "started"@,
        "git.commit"@ != "session."@ + "blocked"@,
        "git.commit"@ != "session."@ + "finished"@,
        "git.commit"@ != "session."@ + "failed"@,
        "git.commit"@ != "tmux.content_changed"@,
        "git.commit"@ != "tmux.heartbeat"@,
        "git.commit"@ != "session.retry-needed"@,
        "git.commit"@ != "session.pr-created"@,
        "git.commit"@ != "session.test-started"@,
        "git.commit"@ != "session.test-finished"@,
        "git.commit"@ != "session.test-failed"@,
        "git.commit"@ != "session.handoff-needed"@,
        "git.branch-changed"@ != "agent."@ + "started"@,
        "git.branch-changed"@ != "agent."@ + "blocked"@,
        "git.branch-changed"@ != "agent."@ + "finished"@,
        "git.branch-changed"@ != "agent."@ + "failed"@,
        "git.branch-changed"@ != "session."@ + "started"@,
        "git.branch-changed"@ != "session."@ + "blocked"@,
        "git.branch-changed"@ != "session."@ + "finished"@,
        "git.branch-changed"@ != "session."@ + "failed"@,
        "git.branch-changed"@ != "git.commit"@,
        "git.branch-changed"@ != "tmux.content_changed"@,
        "git.branch-changed"@ != "tmux.heartbeat"@,
        "git.branch-changed"@ != "session.retry-needed"@,
        "git.branch-changed"@ != "session.pr-created"@,
        "git.branch-changed"@ != "session.test-started"@,
        "git.branch-changed"@ != "session.test-finished"@,
        "git.branch-changed"@ != "session.test-failed"@,
        "git.branch-changed"@ != "session.handoff-needed"@,
        "tmux.content_changed"@ != "agent."@ + "started"@,
        "tmux.content_changed"@ != "agent."@ + "blocked"@,
        "tmux.content_changed"@ != "agent."@ + "finished"@,
        "tmux.content_changed"@ != "agent."@ + "failed"@,
        "tmux.content_changed"@ != "session."@ + "started"@,
        "tmux.content_changed"@ != "session."@ + "blocked"@,
        "tmux.content_changed"@ != "session."@ + "finished"@,
        "tmux.content_changed"@ != "session."@ + "failed"@,
        "tmux.content_changed"@ != "tmux.heartbeat"@,
        "tmux.heartbeat"@ != "agent."@ + "started"@,
        "tmux.heartbeat"@ != "agent."@ + "blocked"@,
        "tmux.heartbeat"@ != "agent."@ + "finished"@,
        "tmux.heartbeat"@ != "agent."@ + "failed"@,
        "tmux.heartbeat"@ != "session."@ + "started"@,
        "tmux.heartbeat"@ != "session."@ + "blocked"@,
        "tmux.heartbeat"@ != "session."@ + "finished"@,
        "tmux.heartbeat"@ != "session."@ + "failed"@,
        "session.retry-needed"@ != "agent."@ + "started"@,
        "session.retry-needed"@ != "agent."@ + "blocked"@,
        "session.retry-needed"@ != "agent."@ + "finished"@,
        "session.retry-needed"@ != "agent."@ + "failed"@,
        "session.retry-needed"@ != "session."@ + "started"@,
        "session.retry-needed"@ != "session."@ + "blocked"@,
        "session.retry-needed"@ != "session."@ + "finished"@,
        "session.retry-needed"@ != "session."@ + "failed"@,
        "session.retry-needed"@ != "tmux.content_changed"@,
        "session.retry-needed"@ != "tmux.heartbeat"@,
        "session.retry-needed"@ != "session.test-started"@,
        "session.retry-needed"@ != "session.test-finished"@,
        "session.retry-needed"@ != "session.test-failed"@,
        "session.pr-created"@ != "agent."@ + "started"@,
        "session.pr-created"@ != "agent."@ + "blocked"@,
        "session.pr-created"@ != "agent."@ + "finished"@,
        "session.pr-created"@ != "agent."@ + "failed"@,
        "session.pr-created"@ != "session."@ + "started"@,
        "session.pr-created"@ != "session."@ + "blocked"@,
        "session.pr-created"@ != "session."@ + "finished"@,
        "session.pr-created"@ != "session."@ + "failed"@,
        "session.pr-created"@ != "tmux.content_changed"@,
        "session.pr-created"@ != "tmux.heartbeat"@,
        "session.pr-created"@ != "session.retry-needed"@,
        "session.pr-created"@ != "session.test-started"@,
        "session.pr-created"@ != "session.test-finished"@,
        "session.pr-created"@ != "session.test-failed"@,
        "session.test-started"@ != "agent."@ + "started"@,
        "session.test-started"@ != "agent."@ + "blocked"@,
        "session.test-started"@ != "agent."@ + "finished"@,
        "session.test-started"@ != "agent."@ + "failed"@,
        "session.test-started"@ != "session."@ + "started"@,
        "session.test-started"@ != "session."@ + "blocked"@,
        "session.test-started"@ != "session."@ + "finished"@,
        "session.test-started"@ != "session."@ + "failed"@,
        "session.test-started"@ != "tmux.content_changed"@,
        "session.test-started"@ != "tmux.heartbeat"@,
        "session.test-finished"@ != "agent."@ + "started"@,
        "session.test-finished"@ != "agent."@ + "blocked"@,
        "session.test-finished"@ != "agent."@ + "finished"@,
        "session.test-finished"@ != "agent."@ + "failed"@,
        "session.test-finished"@ != "session."@ + "started"@,
        "session.test-finished"@ != "session."@ + "blocked"@,
        "session.test-finished"@ != "session."@ + "finished"@,
        "session.test-finished"@ != "session."@ + "failed"@,
        "session.test-finished"@ != "tmux.content_changed"@,
        "session.test-finished"@ != "tmux.heartbeat"@,
        "session.test-finished"@ != "session.test-started"@,
        "session.test-failed"@ != "agent."@ + "started"@,
        "session.test-failed"@ != "agent."@ + "blocked"@,
        "session.test-failed"@ != "agent."@ + "finished"@,
        "session.test-failed"@ != "agent."@ + "failed"@,
        "session.test-failed"@ != "session."@ + "started"@,
        "session.test-failed"@ != "session."@ + "blocked"@,
        "session.test-failed"@ != "session."@ + "finished"@,
        "session.test-failed"@ != "session."@ + "failed"@,
        "session.test-failed"@ != "tmux.content_changed"@,
        "session.test-failed"@ != "tmux.heartbeat"@,
        "session.test-failed"@ != "session.test-started"@,
        "session.test-failed"@ != "session.test-finished"@,
        "session.handoff-needed"@ != "agent."@ + "started"@,
        "session.handoff-needed"@ != "agent."@ + "blocked"@,
        "session.handoff-needed"@ != "agent."@ + "finished"@,
        "session.handoff-needed"@ != "agent."@ + "failed"@,
        "session.handoff-needed"@ != "session."@ + "started"@,
        "session.handoff-needed"@ != "session."@ + "blocked"@,
        "session.handoff-needed"@ != "session."@ + "finished"@,
        "session.handoff-needed"@ != "session."@ + "failed"@,
        "session.handoff-needed"@ != "tmux.content_changed"@,
        "session.handoff-needed"@ != "tmux.heartbeat"@,
        "session.handoff-needed"@ != "session.retry-needed"@,
        "session.handoff-needed"@ != "session.pr-created"@,
        "session.handoff-needed"@ != "session.test-started"@,
        "session.handoff-needed"@ != "session.test-finished"@,
        "session.handoff-needed"@ != "session.test-failed"@,
{
    reveal_strlit("git.commit");
    reveal_strlit("git.branch-changed");
    reveal_strlit("tmux.content_changed");
    reveal_strlit("tmux.heartbeat");
    reveal_strlit("session.retry-needed");
    reveal_strlit("session.pr-created");
    reveal_strlit("session.test-started");
    reveal_strlit("session.test-finished");
    reveal_strlit("session.test-failed");
    reveal_strlit("session.handoff-needed");
    assert("git.commit"@.len() == 10);
    assert("git.branch-changed"@.len() == 18);
    assert("git.branch-changed"@[0] == 'g');
    assert("tmux.content_changed"@.len() == 20);
    assert("tmux.content_changed"@[0] == 't');
    assert("tmux.heartbeat"@.len() == 14);
    assert("session.retry-needed"@.len() == 20);
    assert("session.retry-needed"@[0] == 's');
    assert("session.retry-needed"@[8] == 'r');
    assert("session.pr-created"@.len() == 18);
    assert("session.pr-created"@[0] == 's');
    assert("session.test-started"@.len() == 20);
    assert("session.test-started"@[0] == 's');
    assert("session.test-started"@[8] == 't');
    assert("session.test-finished"@.len() == 21);
    assert("session.test-failed"@.len() == 19);
    assert("session.handoff-needed"@.len() == 22);
    reveal_strlit("agent.");
    assert("agent."@.len() == 6);
    reveal_strlit("session.");
    assert("session."@.len() == 8);
    reveal_strlit("started");
    assert("started"@.len() == 7);
    reveal_strlit("blocked");
    assert("blocked"@.len() == 7);
    reveal_strlit("finished");
    assert("finished"@.len() == 8);
    reveal_strlit("failed");
    assert("failed"@.len() == 6);
    assert(("agent."@ + "finished"@)[0] == 'a');
    assert("tmux.heartbeat"@[0] == 't');
    assert(("session."@ + "failed"@)[0] == 's');
    assert("tmux.heartbeat"@[0] == 't');
}

proof fn lemma_two_names(kind: Seq<char>)
    requires
        kind == "git.commit"@ || kind == "git.branch-changed"@ || kind == "tmux.content_changed"@
            || kind == "tmux.heartbeat"@ || kind == "session.retry-needed"@ || kind
            == "session.pr-created"@ || kind == "session.test-started"@ || kind
            == "session.test-finished"@ || kind == "session.test-failed"@ || kind
            == "session.handoff-needed"@,
    ensures
        router::candidates(kind).len() == 2,
        router::candidates(kind)[0] == kind,
        kind == "git.commit"@ ==> router::candidates(kind)[1] == "github.commit"@,
        kind == "git.branch-changed"@ ==> router::candidates(kind)[1] == "github.branch-changed"@,
        kind == "tmux.content_changed"@ || kind == "tmux.heartbeat"@ ==> router::candidates(
            kind,
        )[1] == "tmux.*"@,
        kind != "git.commit"@ && kind != "git.branch-changed"@ && kind != "tmux.content_changed"@
            && kind != "tmux.heartbeat"@ ==> router::candidates(kind)[1] == "session.*"@,
{
    lemma_stage_kinds();
    assert(router::shared_stage(kind, "agent."@) is None) by {
        if router::shared_stage(kind, "agent."@) is Some {
            lemma_no_stage(kind, "agent."@, router::shared_stage(kind, "agent."@)->Some_0);
        }
    }
    assert(router::shared_stage(kind, "session."@) is None) by {
        if router::shared_stage(kind, "session."@) is Some {
            lemma_no_stage(kind, "session."@, router::shared_stage(kind, "session."@)->Some_0);
        }
    }
}

/// A kind of any other family goes by its own name alone.
pub proof fn law_other_kinds_go_by_their_name(pattern: Seq<char>, kind: Seq<char>)
    requires
        kind != "git.commit"@,
        kind != "git.branch-changed"@,
        kind != "tmux.content_changed"@,
        kind != "tmux.heartbeat"@,
        !text::begins_with(kind, "agent."@),
        !text::begins_with(kind, "session."@),
    ensures
        router::kind_fits(pattern, kind) == glob::fits(pattern, kind),
{
    lemma_session_kinds(kind);
    assert(router::candidates(kind) == seq![kind]);
    assert(router::candidates(kind)[0] == kind);
    if router::kind_fits(pattern, kind) {
        let i = choose|i: int|
            0 <= i < router::candidates(kind).len() && #[trigger] glob::fits(
                pattern,
                router::candidates(kind)[i],
            );
        assert(i == 0);
    }
}

proof fn lemma_session_kinds(kind: Seq<char>)
    requires
        !text::begins_with(kind, "session."@),
    ensures
        kind != "session.retry-needed"@,
        kind != "session.pr-created"@,
        kind != "session.test-started"@,
        kind != "session.test-finished"@,
        kind != "session.test-failed"@,
        kind != "session.handoff-needed"@,
{
    reveal_strlit("session.");
    reveal_strlit("session.retry-needed");
    reveal_strlit("session.pr-created");
    reveal_strlit("session.test-started");
    reveal_strlit("session.test-finished");
    reveal_strlit("session.test-failed");
    reveal_strlit("session.handoff-needed");
    assert("session.retry-needed"@.subrange(0, 8) =~= "session."@);
    assert("session.pr-created"@.subrange(0, 8) =~= "session."@);
    assert("session.test-started"@.subrange(0, 8) =~= "session."@);
    assert("session.test-finished"@.subrange(0, 8) =~= "session."@);
    assert("session.test-failed"@.subrange(0, 8) =~= "session."@);
    assert("session.handoff-needed"@.subrange(0, 8) =~= "session."@);
}

/// A token is there and is not blank.
pub open spec fn is_told(tokens: Tokens, key: Seq<char>) -> bool {
    table::lookup(tokens, key) matches Some(value) && text::trimmed(value).len() > 0
}

/// An event says to which project, repository, worktree or session it belongs, and is one of
/// a session or of a terminal.
pub open spec fn says_where_it_belongs(kind: Seq<char>, tokens: Tokens) -> bool {
    &&& text::begins_with(kind, "session."@) || text::begins_with(kind, "tmux."@)
    &&& is_told(tokens, "project"@) || is_told(tokens, "repo_name"@) || is_told(
        tokens,
        "repo_path"@,
    ) || is_told(tokens, "worktree_path"@) || is_told(tokens, "session_id"@)
}

/// A route has a filter, and goes by patterns for the name of the session alone.
pub open spec fn goes_by_session_names(route: RouteView) -> bool {
    &&& route.filter.len() > 0
    &&& forall|i: int|
        0 <= i < route.filter.len() ==> ((#[trigger] route.filter[i]).0 == "session"@
            || route.filter[i].0 == "session_name"@) && route.filter[i].1.contains('*')
}

proof fn lemma_where(kind: Seq<char>, tokens: Tokens)
    ensures
        router::has_metadata(kind, tokens) == says_where_it_belongs(kind, tokens),
{
}

proof fn lemma_route_fits(route: RouteView, kind: Seq<char>, tokens: Tokens)
    ensures
        router::route_fits(route, kind, tokens) == (router::kind_fits(route.event, kind)
            && filter_holds(route.filter, tokens)),
        router::has_metadata(kind, tokens) == says_where_it_belongs(kind, tokens),
        router::is_heuristic(route) == goes_by_session_names(route),
{
    if router::passes(route.filter, tokens) {
        assert forall|i: int| 0 <= i < route.filter.len() implies (table::lookup(
            tokens,
            (#[trigger] route.filter[i]).0,
        ) matches Some(actual) && glob::fits(route.filter[i].1, actual)) by {
            assert(router::passes_one(route.filter[i], tokens));
        }
    }
    if filter_holds(route.filter, tokens) {
        assert forall|i: int| 0 <= i < route.filter.len() implies router::passes_one(
            #[trigger] route.filter[i],
            tokens,
        ) by {}
    }
    if router::is_heuristic(route) {
        assert forall|i: int| 0 <= i < route.filter.len() implies ((
        #[trigger] route.filter[i]).0 == "session"@ || route.filter[i].0 == "session_name"@)
            && route.filter[i].1.contains('*') by {
            assert(router::by_session_name(route.filter[i]));
        }
    }
    if goes_by_session_names(route) {
        assert forall|i: int| 0 <= i < route.filter.len() implies router::by_session_name(
            #[trigger] route.filter[i],
        ) by {}
    }
}

/// An event takes, in the order of the configuration, exactly the routes whose pattern fits
/// its kind and every entry of whose filter holds of it. Routes that go by the name of the
/// session alone are passed over where the event says where it belongs.
pub proof fn law_routes_that_an_event_takes(config: AppSettingsView, event: EventView)
    ensures
        ({
            let kind = events::canonical_kind(event.kind);
            let tokens = template::context_of(event);
            router::routes_of(config, event) == config.routes.filter(
                |route: RouteView|
                    router::kind_fits(route.event, kind) && filter_holds(route.filter, tokens)
                        && !(says_where_it_belongs(kind, tokens) && goes_by_session_names(route)),
            )
        }),
{
    lemma_matching(
        config.routes,
        events::canonical_kind(event.kind),
        template::context_of(event),
    );
}

proof fn lemma_matching(routes: Seq<RouteView>, kind: Seq<char>, tokens: Tokens)
    ensures
        router::matching(routes, kind, tokens) == routes.filter(
            |route: RouteView|
                router::kind_fits(route.event, kind) && filter_holds(route.filter, tokens) && !(
                says_where_it_belongs(kind, tokens) && goes_by_session_names(route)),
        ),
    decreases routes.len(),
{
    reveal(Seq::filter);
    if routes.len() > 0 {
        lemma_matching(routes.drop_last(), kind, tokens);
        lemma_route_fits(routes.last(), kind, tokens);
    } else {
        assert(routes =~= Seq::empty());
    }
}

/// A route with an entry in its filter that does not hold of an event, be it the first or any
/// other, is not among those that the event takes.
pub proof fn law_whole_filter_counts(
    config: AppSettingsView,
    event: EventView,
    i: int,
    j: int,
)
    requires
        0 <= i < router::routes_of(config, event).len(),
        0 <= j < router::routes_of(config, event)[i].filter.len(),
    ensures
        ({
            let entry = router::routes_of(config, event)[i].filter[j];
            table::lookup(template::context_of(event), entry.0) matches Some(actual) && glob::fits(
                entry.1,
                actual,
            )
        }),
{
    let kind = events::canonical_kind(event.kind);
    let tokens = template::context_of(event);
    router::law_taken_routes_fit(config.routes, kind, tokens, i);
    let route = router::routes_of(config, event)[i];
    lemma_route_fits(route, kind, tokens);
    assert(filter_holds(route.filter, tokens));
    let entry = route.filter[j];
}

// ---------------------------------------------------------------------------
// Where a route leads
// ---------------------------------------------------------------------------

/// The sink of a route is the one it names. One that names none, or Discord, and has a
/// webhook of Slack goes to Slack; else one that names none goes to Discord.
pub proof fn law_sink_of_a_route(route: RouteView)
    ensures
        ({
            let sink = text::trimmed(route.sink);
            let slack = route.slack_webhook matches Some(w) && text::trimmed(w).len() > 0;
            &&& (sink.len() == 0 || sink == "discord"@) && slack ==> route.sink_used() == "slack"@
            &&& sink.len() == 0 && !slack ==> route.sink_used() == "discord"@
            &&& sink == "discord"@ && !slack ==> route.sink_used() == "discord"@
            &&& sink.len() > 0 && sink != "discord"@ ==> route.sink_used() == sink
        }),
{
    reveal_strlit("discord");
    reveal_strlit("slack");
    assert("discord"@.len() == 7 && "slack"@.len() == 5);
}

/// The webhooks of a route: to Discord its webhook, to Slack its webhook of Slack, or else, if
/// it names Slack, its webhook.
pub proof fn law_webhooks_of_a_route(route: RouteView)
    ensures
        route.sink_used() == "discord"@ ==> route.discord_target() == (match route.webhook {
            Some(w) => if text::trimmed(w).len() > 0 {
                Some(text::trimmed(w))
            } else {
                None
            },
            None => None,
        }),
        route.sink_used() != "discord"@ ==> route.discord_target() is None,
        route.slack_webhook matches Some(w) && text::trimmed(w).len() > 0 ==> route.slack_target()
            == Some(text::trimmed(route.slack_webhook->Some_0)),
        (route.slack_webhook is None || text::trimmed(route.slack_webhook->Some_0).len() == 0)
            && text::trimmed(route.sink) != "slack"@ ==> route.slack_target() is None,
        (route.slack_webhook is None || text::trimmed(route.slack_webhook->Some_0).len() == 0)
            && text::trimmed(route.sink) == "slack"@ ==> route.slack_target() == (
        match route.webhook {
            Some(w) => if text::trimmed(w).len() > 0 {
                Some(text::trimmed(w))
            } else {
                None
            },
            None => None,
        }),
{
}

/// The first of three texts that is there.
pub open spec fn first_there(
    a: Option<Seq<char>>,
    b: Option<Seq<char>>,
    c: Option<Seq<char>>,
) -> Option<Seq<char>> {
    if a is Some {
        a
    } else if b is Some {
        b
    } else {
        c
    }
}

/// A delivery by a route: to its webhook where it has one. To Discord without a webhook it
/// goes to the channel of the route, else of the event, else to the default one; a message of
/// the user's own goes to its own channel first. Its format is that of the event, else of the
/// route, else the default one; its mention that of the route, else of the event; its template
/// that of the event, else of the route; and dynamic tokens are filled in where the route
/// allows it.
pub proof fn law_delivery_by_a_route(
    config: AppSettingsView,
    event: EventView,
    route: RouteView,
)
    ensures
        ({
            let custom = events::canonical_kind(event.kind) == "custom"@;
            let channel = if custom {
                first_there(event.channel, route.channel, config.defaults.channel)
            } else {
                first_there(route.channel, event.channel, config.defaults.channel)
            };
            let sink = route.sink_used();
            match router::delivery_of(config, event, Some(route)) {
                Ok(d) => {
                    &&& d.sink == sink
                    &&& sink == "discord"@ ==> d.target == (match route.discord_target() {
                        Some(webhook) => TargetView::DiscordWebhook(webhook),
                        None => TargetView::DiscordChannel(channel->Some_0),
                    })
                    &&& sink == "discord"@ && route.discord_target() is None ==> channel is Some
                    &&& sink == "slack"@ ==> route.slack_target() == (match d.target {
                        TargetView::SlackWebhook(webhook) => Some(webhook),
                        _ => None,
                    }) && d.target is SlackWebhook
                    &&& sink == "discord"@ || sink == "slack"@
                    &&& event.format matches Some(f) ==> d.format == f
                    &&& event.format is None && route.format is Some ==> Some(d.format)
                        == route.format
                    &&& event.format is None && route.format is None ==> d.format
                        == config.defaults.format
                    &&& d.mention == (if route.mention is Some {
                        route.mention
                    } else {
                        event.mention
                    })
                    &&& d.template == (if event.template is Some {
                        event.template
                    } else {
                        route.template
                    })
                    &&& d.allow_dynamic_tokens == route.allow_dynamic_tokens
                },
                Err(_) => {
                    ||| sink != "discord"@ && sink != "slack"@
                    ||| sink == "discord"@ && route.discord_target() is None && channel is None
                    ||| sink == "slack"@ && route.slack_target() is None
                },
            }
        }),
{
    reveal_strlit("discord");
    reveal_strlit("slack");
    assert("discord"@.len() == 7 && "slack"@.len() == 5);
}

/// An event that no route takes goes to Discord, to the channel it names or else to the
/// default one, with what it says itself; without any channel it cannot be delivered.
pub proof fn law_event_without_a_route(config: AppSettingsView, event: EventView)
    requires
        router::routes_of(config, event).len() == 0,
    ensures
        match router::resolved(config, event) {
            Ok(deliveries) => {
                &&& deliveries.len() == 1
                &&& deliveries[0].sink == "discord"@
                &&& event.channel matches Some(c) ==> deliveries[0].target
                    == TargetView::DiscordChannel(c)
                &&& event.channel is None ==> (config.defaults.channel matches Some(c)
                    && deliveries[0].target == TargetView::DiscordChannel(c))
                &&& event.format matches Some(f) ==> deliveries[0].format == f
                &&& event.format is None ==> deliveries[0].format == config.defaults.format
                &&& deliveries[0].mention == event.mention
                &&& deliveries[0].template == event.template
            },
            Err(e) => event.channel is None && config.defaults.channel is None && e
                == "no channel configured for event "@ + events::canonical_kind(event.kind),
        },
{
}

/// An event leads to as many deliveries as it takes routes, each by its route and in their
/// order; it leads to none where one of them leads nowhere.
pub proof fn law_event_with_routes(config: AppSettingsView, event: EventView)
    requires
        router::routes_of(config, event).len() > 0,
    ensures
        ({
            let routes = router::routes_of(config, event);
            match router::resolved(config, event) {
                Ok(deliveries) => {
                    &&& deliveries.len() == routes.len()
                    &&& forall|i: int|
                        0 <= i < routes.len() ==> router::delivery_of(
                            config,
                            event,
                            Some(routes[i]),
                        ) == Ok::<DeliveryView, Seq<char>>(#[trigger] deliveries[i])
                },
                Err(e) => exists|i: int|
                    0 <= i < routes.len() && router::delivery_of(
                        config,
                        event,
                        Some(#[trigger] routes[i]),
                    ) == Err::<DeliveryView, Seq<char>>(e),
            }
        }),
{
    let routes = router::routes_of(config, event);
    match router::resolved(config, event) {
        Ok(_) => router::law_one_delivery_per_route(config, event),
        Err(e) => lemma_some_route_fails(config, event, routes, e),
    }
}

proof fn lemma_some_route_fails(
    config: AppSettingsView,
    event: EventView,
    routes: Seq<RouteView>,
    e: Seq<char>,
)
    requires
        router::deliveries_of(config, event, routes) == Err::<Seq<DeliveryView>, Seq<char>>(e),
    ensures
        exists|i: int|
            0 <= i < routes.len() && router::delivery_of(config, event, Some(#[trigger] routes[i]))
                == Err::<DeliveryView, Seq<char>>(e),
    decreases routes.len(),
{
    let front = routes.drop_last();
    if router::deliveries_of(config, event, front) is Err {
        lemma_some_route_fails(config, event, front, e);
        let i = choose|i: int|
            0 <= i < front.len() && router::delivery_of(config, event, Some(#[trigger] front[i]))
                == Err::<DeliveryView, Seq<char>>(e);
        assert(routes[i] == front[i]);
    } else {
        assert(routes[routes.len() - 1] == routes.last());
    }
}

/// A message of the user's own that no route takes has its dynamic tokens filled in only
/// where some route to its channel allows it; no other event without a route has.
pub proof fn law_dynamic_tokens_without_a_route(config: AppSettingsView, event: EventView)
    requires
        router::routes_of(config, event).len() == 0,
        router::resolved(config, event) is Ok,
    ensures
        router::resolved(config, event)->Ok_0[0].allow_dynamic_tokens <==> {
            &&& events::canonical_kind(event.kind) == "custom"@
            &&& event.channel is Some
            &&& exists|i: int|
                0 <= i < config.routes.len() && (#[trigger] config.routes[i]).allow_dynamic_tokens
                    && config.routes[i].channel == event.channel
        },
{
}

// ---------------------------------------------------------------------------
// The text of a delivery
// ---------------------------------------------------------------------------

/// The text of a delivery is its template with the tokens of the event filled in, or where it
/// has none the message of the event in the format of the delivery. Where dynamic tokens are
/// allowed the template stands as it is, to be filled in later.
pub proof fn law_text_of_a_delivery(event: EventView, delivery: DeliveryView)
    ensures
        match router::body_of(event, delivery) {
            Ok(body) => {
                &&& body.dynamic == delivery.allow_dynamic_tokens
                &&& delivery.template matches Some(t) ==> if delivery.allow_dynamic_tokens {
                    body.text == t
                } else {
                    body.text == template::filled(t, template::context_of(event))
                }
                &&& delivery.template is None ==> render::rendered(event, delivery.format) == Ok::<
                    Seq<char>,
                    Seq<char>,
                >(body.text)
            },
            Err(e) => delivery.template is None && render::rendered(event, delivery.format)
                == Err::<Seq<char>, Seq<char>>(e),
        },
{
}

/// A blank mention leaves the text as it is.
pub proof fn law_blank_mention_says_nothing(mention: Option<Seq<char>>, content: Seq<char>)
    requires
        mention matches Some(m) ==> text::trimmed(m).len() == 0,
    ensures
        router::mentioned(mention, content) == content,
{
}

// ---------------------------------------------------------------------------
// The channel of a terminal session
// ---------------------------------------------------------------------------

/// A route that leads a terminal session to a channel of Discord.
pub open spec fn leads_session(
    route: RouteView,
    tmux: Tokens,
    session: Tokens,
    says_where: bool,
) -> bool {
    &&& (router::kind_fits(route.event, "tmux.keyword"@) && filter_holds(route.filter, tmux)) || (
    router::kind_fits(route.event, "session.started"@) && filter_holds(route.filter, session))
    &&& !(says_where && goes_by_session_names(route))
    &&& route.sink_used() == "discord"@
    &&& route.channel matches Some(c) && text::trimmed(c).len() > 0
}

proof fn lemma_leads(
    route: RouteView,
    tmux: Tokens,
    session: Tokens,
    says_where: bool,
)
    ensures
        leads_session(route, tmux, session, says_where) == (router::session_route(
            route,
            tmux,
            session,
            says_where,
        ) && router::own_channel(route) is Some),
        router::own_channel(route) is Some ==> router::own_channel(route) == Some(
            text::trimmed(route.channel->Some_0),
        ),
{
    lemma_route_fits(route, "tmux.keyword"@, tmux);
    lemma_route_fits(route, "session.started"@, session);
}

proof fn lemma_first_channel(
    routes: Seq<RouteView>,
    from: int,
    tmux: Tokens,
    session: Tokens,
    says_where: bool,
)
    requires
        0 <= from <= routes.len(),
    ensures
        match router::first_channel(routes, from, tmux, session, says_where) {
            Some(channel) => exists|i: int|
                from <= i < routes.len() && leads_session(
                    #[trigger] routes[i],
                    tmux,
                    session,
                    says_where,
                ) && channel == text::trimmed(routes[i].channel->Some_0) && forall|j: int|
                    from <= j < i ==> !leads_session(
                        #[trigger] routes[j],
                        tmux,
                        session,
                        says_where,
                    ),
            None => forall|j: int|
                from <= j < routes.len() ==> !leads_session(
                    #[trigger] routes[j],
                    tmux,
                    session,
                    says_where,
                ),
        },
    decreases routes.len() - from,
{
    if from < routes.len() {
        lemma_leads(routes[from], tmux, session, says_where);
        lemma_first_channel(routes, from + 1, tmux, session, says_where);
    }
}

/// The channel of a terminal session is that of the first route that its events take, as
/// keyword hits or as the start of the session, and that names one of Discord; where there is
/// none, the default one.
pub proof fn law_channel_of_a_session(
    config: AppSettingsView,
    name: Seq<char>,
    routing: RoutingView,
)
    ensures
        ({
            let tmux = router::tmux_tokens(name, routing);
            let session = router::session_tokens(name, routing);
            let says_where = says_where_it_belongs("tmux.keyword"@, tmux) || says_where_it_belongs(
                "session.started"@,
                session,
            );
            let channel = router::session_channel(config, name, routing);
            ||| exists|i: int|
                0 <= i < config.routes.len() && leads_session(
                    #[trigger] config.routes[i],
                    tmux,
                    session,
                    says_where,
                ) && channel == Some(text::trimmed(config.routes[i].channel->Some_0)) && forall|
                    j: int,
                |
                    0 <= j < i ==> !leads_session(
                        #[trigger] config.routes[j],
                        tmux,
                        session,
                        says_where,
                    )
            ||| channel == config.defaults.channel && forall|j: int|
                0 <= j < config.routes.len() ==> !leads_session(
                    #[trigger] config.routes[j],
                    tmux,
                    session,
                    says_where,
                )
        }),
{
    let tmux = router::tmux_tokens(name, routing);
    let session = router::session_tokens(name, routing);
    lemma_where("tmux.keyword"@, tmux);
    lemma_where("session.started"@, session);
    let says_where = says_where_it_belongs("tmux.keyword"@, tmux) || says_where_it_belongs(
        "session.started"@,
        session,
    );
    lemma_first_channel(config.routes, 0, tmux, session, says_where);
}

/// Whom a message mentions stands before it, with a blank between them.
pub proof fn law_mention_comes_first(mention: Seq<char>, content: Seq<char>)
    ensures
        text::trimmed(mention).len() > 0 ==> router::mentioned(Some(mention), content)
            == text::trimmed(mention) + " "@ + content,
        router::mentioned(None, content) == content,
{
}

} // verus!
