//! What is told of the terminals that are watched, and when.
use vstd::prelude::*;
use vstd::string::*;

use crate::events;
use crate::events::EventView;
use crate::json;
use crate::json::Node;
use crate::json_laws;
use crate::keywords;
use crate::keywords::{HitView, PendingView};
use crate::monitor;
use crate::registry::RegistrationView;
use crate::scan;
use crate::table;
use crate::text;
use crate::tmux;
use crate::tmux::{ActionView, PaneView, Panes, Polled, ProbeView, SnapshotView, WatchView};

verus! {

broadcast use json_laws::group_members;

// ---------------------------------------------------------------------------
// Keywords
// ---------------------------------------------------------------------------

/// A keyword stands at a place of a line, whatever the case of its letters.
pub open spec fn stands_at(line: Seq<char>, keyword: Seq<char>, i: int) -> bool {
    &&& 0 <= i
    &&& i + keyword.len() <= line.len()
    &&& forall|j: int|
        0 <= j < keyword.len() ==> scan::lower_char(line[i + j]) == scan::lower_char(
            #[trigger] keyword[j],
        )
}

/// A keyword stands in a line where its letters do, whatever their case.
pub proof fn law_case_of_keywords_does_not_matter(line: Seq<char>, keyword: Seq<char>)
    ensures
        keywords::mentions(line, keyword) <==> exists|i: int| #[trigger]
            stands_at(line, keyword, i),
{
    let a = scan::lowered(line);
    let b = scan::lowered(keyword);
    if keywords::mentions(line, keyword) {
        let i = choose|i: int| #[trigger] text::occurs_at(a, b, i);
        assert forall|j: int| 0 <= j < keyword.len() implies scan::lower_char(line[i + j])
            == scan::lower_char(#[trigger] keyword[j]) by {
            assert(a.subrange(i, i + b.len())[j] == a[i + j]);
            assert(b[j] == scan::lower_char(keyword[j]));
        }
        assert(stands_at(line, keyword, i));
    }
    if exists|i: int| #[trigger] stands_at(line, keyword, i) {
        let i = choose|i: int| #[trigger] stands_at(line, keyword, i);
        assert(a.subrange(i, i + b.len()) =~= b) by {
            assert forall|j: int| 0 <= j < b.len() implies a.subrange(i, i + b.len())[j]
                == #[trigger] b[j] by {
                assert(b[j] == scan::lower_char(keyword[j]));
                assert(a[i + j] == scan::lower_char(line[i + j]));
            }
        }
        assert(text::occurs_at(a, b, i));
    }
}

/// The hits of a line are the keywords that stand in it, in their order, each with the line.
pub proof fn law_hits_of_a_line(line: Seq<char>, keywords: Seq<Seq<char>>)
    ensures
        keywords::line_hits(line, keywords) == keywords.filter(
            |keyword: Seq<char>| keywords::mentions(line, keyword),
        ).map_values(|keyword: Seq<char>| HitView { keyword, line }),
    decreases keywords.len(),
{
    reveal(Seq::filter);
    if keywords.len() > 0 {
        law_hits_of_a_line(line, keywords.drop_last());
    }
    assert(keywords::line_hits(line, keywords) =~= keywords.filter(
        |keyword: Seq<char>| keywords::mentions(line, keyword),
    ).map_values(|keyword: Seq<char>| HitView { keyword, line }));
}

proof fn lemma_line_hits(line: Seq<char>, keywords: Seq<Seq<char>>, hit: HitView)
    ensures
        keywords::line_hits(line, keywords).contains(hit) <==> hit.line == line
            && keywords.contains(hit.keyword) && keywords::mentions(line, hit.keyword),
    decreases keywords.len(),
{
    let all = keywords::line_hits(line, keywords);
    if keywords.len() > 0 {
        let front = keywords.drop_last();
        let before = keywords::line_hits(line, front);
        lemma_line_hits(line, front, hit);
        let last = keywords.last();
        assert(keywords[keywords.len() - 1] == last);
        assert(keywords.contains(hit.keyword) <==> front.contains(hit.keyword) || hit.keyword
            == last) by {
            if front.contains(hit.keyword) {
                let i = choose|i: int| 0 <= i < front.len() && front[i] == hit.keyword;
                assert(keywords[i] == hit.keyword);
            }
            if keywords.contains(hit.keyword) && hit.keyword != last {
                let i = choose|i: int| 0 <= i < keywords.len() && keywords[i] == hit.keyword;
                assert(front[i] == hit.keyword);
            }
        }
        lemma_contains_push(before, HitView { keyword: last, line }, hit);
    }
}

proof fn lemma_contains_push<T>(s: Seq<T>, last: T, item: T)
    ensures
        s.push(last).contains(item) <==> s.contains(item) || item == last,
{
    let after = s.push(last);
    if s.contains(item) {
        let i = choose|i: int| 0 <= i < s.len() && s[i] == item;
        assert(after[i] == item);
    }
    if item == last {
        assert(after[s.len() as int] == item);
    }
    if after.contains(item) && item != last {
        let i = choose|i: int| 0 <= i < after.len() && after[i] == item;
        assert(s[i] == item);
    }
}

proof fn lemma_contains_add<T>(a: Seq<T>, b: Seq<T>, item: T)
    ensures
        (a + b).contains(item) <==> a.contains(item) || b.contains(item),
{
    let all = a + b;
    if a.contains(item) {
        let i = choose|i: int| 0 <= i < a.len() && a[i] == item;
        assert(all[i] == item);
    }
    if b.contains(item) {
        let i = choose|i: int| 0 <= i < b.len() && b[i] == item;
        assert(all[a.len() + i] == item);
    }
    if all.contains(item) {
        let i = choose|i: int| 0 <= i < all.len() && all[i] == item;
        if i < a.len() {
            assert(a[i] == item);
        } else {
            assert(b[i - a.len()] == item);
        }
    }
}

/// What a poll of its own finds are the keywords in lines that were not there before: in all
/// of them and in no other.
pub proof fn law_hits_are_in_new_lines(
    before: Seq<Seq<char>>,
    lines: Seq<Seq<char>>,
    keywords: Seq<Seq<char>>,
    hit: HitView,
)
    ensures
        keywords::unseen_hits(before, lines, keywords).contains(hit) <==> lines.contains(hit.line)
            && !before.contains(hit.line) && keywords.contains(hit.keyword)
            && keywords::mentions(hit.line, hit.keyword),
    decreases lines.len(),
{
    if lines.len() > 0 {
        let front = lines.drop_last();
        let last = lines.last();
        law_hits_are_in_new_lines(before, front, keywords, hit);
        lemma_line_hits(last, keywords, hit);
        lemma_contains_add(
            keywords::unseen_hits(before, front, keywords),
            keywords::line_hits(last, keywords),
            hit,
        );
        assert(front.push(last) =~= lines);
        lemma_contains_push(front, last, hit.line);
    }
}

/// How often a line occurs is how many of the lines are that line.
pub proof fn law_occurrences_are_counted(lines: Seq<Seq<char>>, line: Seq<char>)
    ensures
        keywords::occurrences(lines, line) == lines.filter(|l: Seq<char>| l == line).len(),
    decreases lines.len(),
{
    reveal(Seq::filter);
    if lines.len() > 0 {
        law_occurrences_are_counted(lines.drop_last(), line);
    }
}

/// What a watch finds are the keywords in lines that occur more often than before: in all of
/// them and in no other.
pub proof fn law_hits_are_in_gained_lines(
    before: Seq<Seq<char>>,
    lines: Seq<Seq<char>>,
    keywords: Seq<Seq<char>>,
    hit: HitView,
)
    ensures
        keywords::gained_hits(before, lines, keywords).contains(hit) <==> lines.filter(
            |l: Seq<char>| l == hit.line,
        ).len() > before.filter(|l: Seq<char>| l == hit.line).len() && keywords.contains(
            hit.keyword,
        ) && keywords::mentions(hit.line, hit.keyword),
{
    lemma_gained(before, lines, keywords, hit);
    law_occurrences_are_counted(lines, hit.line);
    law_occurrences_are_counted(before, hit.line);
}

proof fn lemma_gained(
    before: Seq<Seq<char>>,
    lines: Seq<Seq<char>>,
    keywords: Seq<Seq<char>>,
    hit: HitView,
)
    ensures
        keywords::gained_hits(before, lines, keywords).contains(hit) <==> keywords::occurrences(
            lines,
            hit.line,
        ) > keywords::occurrences(before, hit.line) && keywords.contains(hit.keyword)
            && keywords::mentions(hit.line, hit.keyword),
    decreases lines.len(),
{
    if lines.len() > 0 {
        let front = lines.drop_last();
        lemma_gained(before, front, keywords, hit);
        lemma_line_hits(lines.last(), keywords, hit);
        lemma_contains_add(
            keywords::gained_hits(before, front, keywords),
            keywords::line_hits(lines.last(), keywords),
            hit,
        );
    }
}

/// A window keeps the hits that it has, in their order, and gains those that it has not.
pub proof fn law_window_gains_hits(hits: Seq<HitView>, more: Seq<HitView>, hit: HitView)
    ensures
        keywords::with_hits(hits, more).contains(hit) <==> hits.contains(hit) || more.contains(hit),
        hits.len() <= keywords::with_hits(hits, more).len(),
        keywords::with_hits(hits, more).take(hits.len() as int) == hits,
    decreases more.len(),
{
    if more.len() > 0 {
        let front = more.drop_last();
        law_window_gains_hits(hits, front, hit);
        law_window_gains_hits(hits, front, more.last());
        let so_far = keywords::with_hits(hits, front);
        lemma_contains_push(so_far, more.last(), hit);
        assert(front.push(more.last()) =~= more);
        lemma_contains_push(front, more.last(), hit);
        assert(so_far.push(more.last()).take(hits.len() as int) =~= so_far.take(
            hits.len() as int,
        ));
    } else {
        assert(hits.take(hits.len() as int) =~= hits);
    }
}

/// What is shown of an output is its last line that is not blank, trimmed, or that there is
/// none.
pub proof fn law_last_line_is_shown(content: Seq<char>)
    ensures
        ({
            let lines = scan::lines(content);
            let shown = keywords::shown_line(content);
            ||| exists|i: int|
                0 <= i < lines.len() && text::trimmed(#[trigger] lines[i]).len() > 0 && shown
                    == text::trimmed(lines[i]) && forall|j: int|
                    i < j < lines.len() ==> text::trimmed(#[trigger] lines[j]).len() == 0
            ||| shown == "<no output>"@ && forall|j: int|
                0 <= j < lines.len() ==> text::trimmed(#[trigger] lines[j]).len() == 0
        }),
{
    lemma_last_meaningful(scan::lines(content));
}

proof fn lemma_last_meaningful(lines: Seq<Seq<char>>)
    ensures
        match keywords::last_meaningful(lines) {
            Some(line) => exists|i: int|
                0 <= i < lines.len() && text::trimmed(#[trigger] lines[i]).len() > 0 && line
                    == text::trimmed(lines[i]) && forall|j: int|
                    i < j < lines.len() ==> text::trimmed(#[trigger] lines[j]).len() == 0,
            None => forall|j: int|
                0 <= j < lines.len() ==> text::trimmed(#[trigger] lines[j]).len() == 0,
        },
    decreases lines.len(),
{
    if lines.len() > 0 {
        let front = lines.drop_last();
        lemma_last_meaningful(front);
        assert(lines[lines.len() - 1] == lines.last());
        if text::trimmed(lines.last()).len() == 0 {
            match keywords::last_meaningful(front) {
                Some(line) => {
                    let i = choose|i: int|
                        0 <= i < front.len() && text::trimmed(#[trigger] front[i]).len() > 0 && line
                            == text::trimmed(front[i]) && forall|j: int|
                            i < j < front.len() ==> text::trimmed(#[trigger] front[j]).len() == 0;
                    assert(lines[i] == front[i]);
                    assert forall|j: int| i < j < lines.len() implies text::trimmed(
                        #[trigger] lines[j],
                    ).len() == 0 by {
                        if j < front.len() {
                            assert(front[j] == lines[j]);
                        }
                    }
                },
                None => {
                    assert forall|j: int| 0 <= j < lines.len() implies text::trimmed(
                        #[trigger] lines[j],
                    ).len() == 0 by {
                        if j < front.len() {
                            assert(front[j] == lines[j]);
                        }
                    }
                },
            }
        }
    }
}

// ---------------------------------------------------------------------------
// Panes
// ---------------------------------------------------------------------------

/// Minutes are whole ones, and none have passed since a moment that is still to come.
pub proof fn law_minutes_are_whole(since_ms: u64, now_ms: u64)
    ensures
        now_ms <= since_ms ==> tmux::minutes(since_ms, now_ms) == 0,
        now_ms > since_ms ==> tmux::minutes(since_ms, now_ms) == (now_ms - since_ms) / 60_000,
{
}

/// A pane is called stale where its minutes are set, it is alive, its content is the same, and
/// that many minutes have passed since it changed and since it was last called so; and only
/// then.
pub proof fn law_pane_turns_stale(
    known: PaneView,
    pane: SnapshotView,
    r: RegistrationView,
    now_ms: u64,
)
    ensures
        tmux::pane_stale_event(Some(known), pane, r, now_ms) is Some <==> {
            &&& r.stale_minutes > 0
            &&& !pane.pane_dead
            &&& known.snapshot == pane.content
            &&& tmux::minutes(known.last_change, now_ms) >= r.stale_minutes
            &&& known.last_stale_notification matches Some(moment) ==> tmux::minutes(
                moment,
                now_ms,
            ) >= r.stale_minutes
        },
        tmux::pane_stale_event(Some(known), pane, r, now_ms) matches Some(e) ==> e
            == tmux::stale_event(
            r,
            known.session,
            known.pane_name,
            keywords::shown_line(pane.content),
        ),
{
}

proof fn lemma_metadata_names()
    ensures
        "project"@ != "repo_name"@,
        "project"@ != "repo_path"@,
        "project"@ != "worktree_path"@,
        "project"@ != "session_id"@,
        "project"@ != "session"@,
        "project"@ != "pane"@,
        "project"@ != "minutes"@,
        "project"@ != "last_line"@,
        "project"@ != "keyword"@,
        "project"@ != "line"@,
        "project"@ != "hit_count"@,
        "project"@ != "hits"@,
        "project"@ != "minutes_since_change"@,
        "repo_name"@ != "repo_path"@,
        "repo_name"@ != "worktree_path"@,
        "repo_name"@ != "session_id"@,
        "repo_name"@ != "session"@,
        "repo_name"@ != "pane"@,
        "repo_name"@ != "minutes"@,
        "repo_name"@ != "last_line"@,
        "repo_name"@ != "keyword"@,
        "repo_name"@ != "line"@,
        "repo_name"@ != "hit_count"@,
        "repo_name"@ != "hits"@,
        "repo_name"@ != "minutes_since_change"@,
        "repo_path"@ != "worktree_path"@,
        "repo_path"@ != "session_id"@,
        "repo_path"@ != "session"@,
        "repo_path"@ != "pane"@,
        "repo_path"@ != "minutes"@,
        "repo_path"@ != "last_line"@,
        "repo_path"@ != "keyword"@,
        "repo_path"@ != "line"@,
        "repo_path"@ != "hit_count"@,
        "repo_path"@ != "hits"@,
        "repo_path"@ != "minutes_since_change"@,
        "worktree_path"@ != "session_id"@,
        "worktree_path"@ != "session"@,
        "worktree_path"@ != "pane"@,
        "worktree_path"@ != "minutes"@,
        "worktree_path"@ != "last_line"@,
        "worktree_path"@ != "keyword"@,
        "worktree_path"@ != "line"@,
        "worktree_path"@ != "hit_count"@,
        "worktree_path"@ != "hits"@,
        "worktree_path"@ != "minutes_since_change"@,
        "session_id"@ != "session"@,
        "session_id"@ != "pane"@,
        "session_id"@ != "minutes"@,
        "session_id"@ != "last_line"@,
        "session_id"@ != "keyword"@,
        "session_id"@ != "line"@,
        "session_id"@ != "hit_count"@,
        "session_id"@ != "hits"@,
        "session_id"@ != "minutes_since_change"@,
        "session"@ != "pane"@,
        "session"@ != "minutes"@,
        "session"@ != "last_line"@,
        "session"@ != "keyword"@,
        "session"@ != "line"@,
        "session"@ != "hit_count"@,
        "session"@ != "hits"@,
        "session"@ != "minutes_since_change"@,
        "pane"@ != "minutes"@,
        "pane"@ != "last_line"@,
        "pane"@ != "keyword"@,
        "pane"@ != "line"@,
        "pane"@ != "hit_count"@,
        "pane"@ != "hits"@,
        "pane"@ != "minutes_since_change"@,
        "minutes"@ != "last_line"@,
        "minutes"@ != "keyword"@,
        "minutes"@ != "line"@,
        "minutes"@ != "hit_count"@,
        "minutes"@ != "hits"@,
        "minutes"@ != "minutes_since_change"@,
        "last_line"@ != "keyword"@,
        "last_line"@ != "line"@,
        "last_line"@ != "hit_count"@,
        "last_line"@ != "hits"@,
        "last_line"@ != "minutes_since_change"@,
        "keyword"@ != "line"@,
        "keyword"@ != "hit_count"@,
        "keyword"@ != "hits"@,
        "keyword"@ != "minutes_since_change"@,
        "line"@ != "hit_count"@,
        "line"@ != "hits"@,
        "line"@ != "minutes_since_change"@,
        "hit_count"@ != "hits"@,
        "hit_count"@ != "minutes_since_change"@,
        "hits"@ != "minutes_since_change"@,
{
    reveal_strlit("project");
    reveal_strlit("repo_name");
    reveal_strlit("repo_path");
    reveal_strlit("worktree_path");
    reveal_strlit("session_id");
    reveal_strlit("session");
    reveal_strlit("pane");
    reveal_strlit("minutes");
    reveal_strlit("last_line");
    reveal_strlit("keyword");
    reveal_strlit("line");
    reveal_strlit("hit_count");
    reveal_strlit("hits");
    reveal_strlit("minutes_since_change");
    assert("project"@.len() == 7);
    assert("project"@[0] == 'p');
    assert("repo_name"@.len() == 9);
    assert("repo_name"@[0] == 'r');
    assert("repo_name"@[5] == 'n');
    assert("repo_path"@.len() == 9);
    assert("repo_path"@[0] == 'r');
    assert("repo_path"@[5] == 'p');
    assert("worktree_path"@.len() == 13);
    assert("session_id"@.len() == 10);
    assert("session"@.len() == 7);
    assert("session"@[0] == 's');
    assert("pane"@.len() == 4);
    assert("pane"@[0] == 'p');
    assert("minutes"@.len() == 7);
    assert("minutes"@[0] == 'm');
    assert("last_line"@.len() == 9);
    assert("last_line"@[0] == 'l');
    assert("keyword"@.len() == 7);
    assert("keyword"@[0] == 'k');
    assert("line"@.len() == 4);
    assert("line"@[0] == 'l');
    assert("hit_count"@.len() == 9);
    assert("hit_count"@[0] == 'h');
    assert("hits"@.len() == 4);
    assert("hits"@[0] == 'h');
    assert("minutes_since_change"@.len() == 20);
}

proof fn lemma_metadata_stays(payload: Node, routing: events::RoutingView, key: Seq<char>)
    requires
        payload is Object,
        key != "project"@,
        key != "repo_name"@,
        key != "repo_path"@,
        key != "worktree_path"@,
        key != "session_id"@,
    ensures
        json::member(events::with_metadata(payload, routing), key) == json::member(payload, key),
{
}

/// What is known of where an event belongs stands in its payload, as far as it is known.
pub proof fn law_metadata_is_told(payload: Node, routing: events::RoutingView)
    requires
        payload is Object,
    ensures
        ({
            let p = events::with_metadata(payload, routing);
            &&& routing.project matches Some(s) ==> json::member(p, "project"@) == Some(
                Node::Text(s),
            )
            &&& routing.project is None ==> json::member(p, "project"@) == json::member(
                payload,
                "project"@,
            )
            &&& routing.repo_name matches Some(s) ==> json::member(p, "repo_name"@) == Some(
                Node::Text(s),
            )
            &&& routing.repo_name is None ==> json::member(p, "repo_name"@) == json::member(
                payload,
                "repo_name"@,
            )
            &&& routing.repo_path matches Some(s) ==> json::member(p, "repo_path"@) == Some(
                Node::Text(s),
            )
            &&& routing.repo_path is None ==> json::member(p, "repo_path"@) == json::member(
                payload,
                "repo_path"@,
            )
            &&& routing.worktree_path matches Some(s) ==> json::member(p, "worktree_path"@)
                == Some(Node::Text(s))
            &&& routing.worktree_path is None ==> json::member(p, "worktree_path"@)
                == json::member(payload, "worktree_path"@)
            &&& routing.session_id matches Some(s) ==> json::member(p, "session_id"@) == Some(
                Node::Text(s),
            )
            &&& routing.session_id is None ==> json::member(p, "session_id"@) == json::member(
                payload,
                "session_id"@,
            )
        }),
{
    lemma_metadata_names();
}

/// An event goes where the registration of its session says.
pub open spec fn goes_with(event: EventView, r: RegistrationView, kind: Seq<char>) -> bool {
    &&& event.kind == kind
    &&& event.channel == r.channel
    &&& event.mention == r.mention
    &&& event.format == r.format
    &&& event.template is None
}

/// A stale pane is told with its session, its name, its minutes and its last line.
pub proof fn law_event_of_a_stale_pane(
    r: RegistrationView,
    session: Seq<char>,
    pane: Seq<char>,
    last_line: Seq<char>,
)
    ensures
        ({
            let e = tmux::stale_event(r, session, pane, last_line);
            &&& goes_with(e, r, "tmux.stale"@)
            &&& json::member(e.payload, "session"@) == Some(Node::Text(session))
            &&& json::member(e.payload, "pane"@) == Some(Node::Text(pane))
            &&& json::count(e.payload, "minutes"@) == Some(r.stale_minutes)
            &&& json::member(e.payload, "last_line"@) == Some(Node::Text(last_line))
        }),
{
    lemma_metadata_names();
}

/// Keyword hits are told with their session: a single one by its keyword and line, several by
/// how many there are and a list of them in their order.
pub proof fn law_event_of_keyword_hits(
    r: RegistrationView,
    session: Seq<char>,
    hits: Seq<HitView>,
)
    requires
        hits.len() > 0,
    ensures
        ({
            let e = tmux::keyword_event(r, session, hits);
            &&& goes_with(e, r, "tmux.keyword"@)
            &&& json::member(e.payload, "session"@) == Some(Node::Text(session))
            &&& hits.len() == 1 ==> json::member(e.payload, "keyword"@) == Some(
                Node::Text(hits[0].keyword),
            ) && json::member(e.payload, "line"@) == Some(Node::Text(hits[0].line))
            &&& hits.len() > 1 ==> json::count(e.payload, "hit_count"@) == Some(hits.len() as u64)
                && (json::items(e.payload, "hits"@) matches Some(list) && list.len() == hits.len()
                && forall|i: int|
                0 <= i < hits.len() ==> json::member(#[trigger] list[i], "keyword"@) == Some(
                    Node::Text(hits[i].keyword),
                ) && json::member(list[i], "line"@) == Some(Node::Text(hits[i].line)))
        }),
{
    lemma_metadata_names();
}

/// A heartbeat is told with its session and the minutes since something changed.
pub proof fn law_event_of_a_heartbeat(r: RegistrationView, session: Seq<char>, mins: u64)
    ensures
        ({
            let e = tmux::heartbeat_event(r, session, mins);
            &&& goes_with(e, r, "tmux.heartbeat"@)
            &&& json::member(e.payload, "session"@) == Some(Node::Text(session))
            &&& json::count(e.payload, "minutes_since_change"@) == Some(mins)
        }),
{
    lemma_metadata_names();
}

/// A heartbeat comes where the session has an interval and so many minutes have passed since
/// something changed in it and since the last heartbeat; and only then. It tells the minutes
/// since the change.
pub proof fn law_heartbeat_comes(
    r: RegistrationView,
    session: Seq<char>,
    change: Option<u64>,
    last: Option<u64>,
    now_ms: u64,
)
    ensures
        ({
            let interval = if r.heartbeat_interval > 0 {
                r.heartbeat_interval
            } else {
                r.heartbeat_mins
            };
            let beat = tmux::heartbeat_of(r, session, change, last, now_ms);
            &&& beat is Some <==> {
                &&& interval > 0
                &&& change matches Some(moment) && tmux::minutes(moment, now_ms) >= interval
                &&& last matches Some(moment) && tmux::minutes(moment, now_ms) >= interval
            }
            &&& beat matches Some(e) ==> e == tmux::heartbeat_event(
                r,
                session,
                tmux::minutes(change->Some_0, now_ms),
            )
            &&& beat is Some ==> tmux::heartbeat_after(r, change, last, now_ms) == Some(now_ms)
            &&& beat is None && interval > 0 ==> tmux::heartbeat_after(r, change, last, now_ms)
                == (if last is Some {
                last
            } else {
                Some(now_ms)
            })
            &&& interval == 0 ==> tmux::heartbeat_after(r, change, last, now_ms) is None
        }),
{
}

/// The change that counts for a session is the latest among its panes.
pub proof fn law_latest_change_counts(panes: Panes, session: Option<Seq<char>>)
    ensures
        ({
            let counts = |i: int|
                0 <= i < panes.len() && (session matches Some(name) ==> panes[i].1.session == name);
            match tmux::latest_change(panes, session) {
                Some(moment) => {
                    &&& exists|i: int|
                        #![trigger panes[i]]
                        counts(i) && panes[i].1.last_change == moment
                    &&& forall|i: int|
                        #![trigger panes[i]]
                        counts(i) ==> panes[i].1.last_change <= moment
                },
                None => forall|i: int| #![trigger panes[i]] !counts(i),
            }
        }),
    decreases panes.len(),
{
    if panes.len() > 0 {
        let front = panes.drop_last();
        law_latest_change_counts(front, session);
        assert(panes[panes.len() - 1] == panes.last());
        assert forall|i: int| 0 <= i < front.len() implies #[trigger] panes[i] == front[i] by {}
        match tmux::latest_change(front, session) {
            Some(moment) => {
                let i = choose|i: int|
                    #![trigger front[i]]
                    0 <= i < front.len() && (session matches Some(name) ==> front[i].1.session
                        == name) && front[i].1.last_change == moment;
                assert(panes[i] == front[i]);
            },
            None => {
                assert forall|i: int|
                    #![trigger panes[i]]
                    0 <= i < front.len() implies !(session matches Some(name) ==> panes[i].1.session
                    == name) by {
                    assert(front[i] == panes[i]);
                }
            },
        }
    }
}

/// A change asks for a summary where summaries are wanted, enough lines were gained, and the
/// minutes since the last one have passed; and only then.
pub proof fn law_summary_is_asked_for(
    known: PaneView,
    pane: SnapshotView,
    r: RegistrationView,
    last: Option<u64>,
    now_ms: u64,
)
    ensures
        ({
            let interval = if r.summary_interval > 0 {
                r.summary_interval
            } else {
                r.summarize_interval_mins
            };
            let gained = scan::lines(pane.content).len() - scan::lines(known.snapshot).len();
            tmux::pane_summarized(Some(known), pane, r, last, now_ms) <==> {
                &&& r.summarize
                &&& known.snapshot != pane.content
                &&& gained >= r.min_new_lines || r.min_new_lines == 0
                &&& interval == 0 || last is None || tmux::minutes(last->Some_0, now_ms)
                    >= interval
            }
        }),
{
}

/// The hits of a pane are looked for only where it is known and its content is another, in
/// the lines that it gained.
pub proof fn law_hits_of_a_pane(known: PaneView, pane: SnapshotView, r: RegistrationView)
    ensures
        known.snapshot == pane.content ==> tmux::pane_hits(Some(known), pane, r).len() == 0,
        known.snapshot != pane.content ==> tmux::pane_hits(Some(known), pane, r)
            == keywords::gained_hits(
            scan::lines(known.snapshot),
            scan::lines(pane.content),
            r.keywords,
        ),
{
}

/// What is remembered of a pane: as it is now, changed now where it is new or its content is
/// another, and else changed when it last did. That it was called stale is forgotten when it
/// changes.
pub proof fn law_pane_is_remembered(
    existing: Option<PaneView>,
    pane: SnapshotView,
    r: RegistrationView,
    now_ms: u64,
    follow: bool,
)
    ensures
        ({
            let after = tmux::pane_after(existing, pane, r, now_ms, follow);
            &&& after.snapshot == pane.content
            &&& after.pane_dead == pane.pane_dead
            &&& match existing {
                None => after.last_change == now_ms && after.last_stale_notification is None
                    && after.session == pane.session && after.pane_name == pane.pane_name,
                Some(known) => if known.snapshot != pane.content {
                    after.last_change == now_ms && after.last_stale_notification is None
                        && after.pane_name == pane.pane_name && after.session == (if follow {
                        pane.session
                    } else {
                        known.session
                    })
                } else {
                    after.last_change == known.last_change && after.session == known.session
                        && after.pane_name == known.pane_name && after.last_stale_notification == (
                    if tmux::pane_stale_event(existing, pane, r, now_ms) is Some {
                        Some(now_ms)
                    } else {
                        known.last_stale_notification
                    })
                },
            }
        }),
{
}

// ---------------------------------------------------------------------------
// Windows of hits
// ---------------------------------------------------------------------------

/// The hits of a window are told, all in one event, once its seconds are over or it is made to
/// end, and the window is then gone. Until then nothing of it is told.
pub proof fn law_window_of_hits(
    pending: PendingView,
    r: RegistrationView,
    session: Seq<char>,
    now_ms: u64,
    force: bool,
)
    ensures
        ({
            let secs: int = if r.keyword_window_secs > 1 {
                r.keyword_window_secs as int
            } else {
                1
            };
            let over = force || (now_ms > pending.started_ms && now_ms - pending.started_ms >= secs
                * 1000);
            let told = tmux::window_event(Some(pending), r, session, now_ms, force);
            let rest = tmux::window_rest(Some(pending), r, now_ms, force);
            &&& over ==> rest is None
            &&& !over ==> rest == Some(pending) && told is None
            &&& over && pending.hits.len() > 0 ==> told == Some(
                tmux::keyword_event(r, session, pending.hits),
            )
            &&& over && pending.hits.len() == 0 ==> told is None
        }),
{
}

/// A window begins with the first hits, and later ones join it without putting it off.
pub proof fn law_window_begins_with_hits(
    pending: Option<PendingView>,
    now_ms: u64,
    hits: Seq<HitView>,
)
    ensures
        ({
            let after = tmux::window_with(pending, now_ms, hits);
            &&& hits.len() == 0 ==> after == pending
            &&& hits.len() > 0 ==> (after matches Some(w) && match pending {
                Some(p) => w.started_ms == p.started_ms && w.hits == keywords::with_hits(
                    p.hits,
                    hits,
                ),
                None => w.started_ms == now_ms && w.hits == keywords::with_hits(
                    Seq::empty(),
                    hits,
                ),
            })
        }),
{
}

// ---------------------------------------------------------------------------
// Polls
// ---------------------------------------------------------------------------

/// A look at one pane of a poll: the pane is remembered, its hits join the window of the
/// session, a summary is asked for and the pane is called stale where they are due, in this
/// order and behind what the poll led to before; other panes and other sessions stay as they
/// were.
pub proof fn law_poll_of_a_pane(
    polled: Polled,
    session: Seq<char>,
    r: RegistrationView,
    pane: SnapshotView,
    now_ms: u64,
    other: Seq<char>,
)
    requires
        table::lookup(polled.state.pending, session) is Some || tmux::pane_hits(
            table::lookup(polled.state.panes, pane.session + "::"@ + pane.pane_id),
            pane,
            r,
        ).len() > 0,
    ensures
        ({
            let key = pane.session + "::"@ + pane.pane_id;
            let known = table::lookup(polled.state.panes, key);
            let after = tmux::pane_polled(polled, session, r, pane, now_ms);
            let asked = tmux::pane_summarized(
                known,
                pane,
                r,
                table::lookup(polled.state.summaries, session),
                now_ms,
            );
            let stale = tmux::pane_stale_event(known, pane, r, now_ms);
            &&& table::lookup(after.state.panes, key) == Some(
                tmux::pane_after(known, pane, r, now_ms, false),
            )
            &&& other != key ==> table::lookup(after.state.panes, other) == table::lookup(
                polled.state.panes,
                other,
            )
            &&& table::lookup(after.state.pending, session) == tmux::window_with(
                table::lookup(polled.state.pending, session),
                now_ms,
                tmux::pane_hits(known, pane, r),
            )
            &&& other != session ==> table::lookup(after.state.pending, other) == table::lookup(
                polled.state.pending,
                other,
            )
            &&& asked ==> table::lookup(after.state.summaries, session) == Some(now_ms)
            &&& !asked ==> after.state.summaries == polled.state.summaries
            &&& after.actions == polled.actions + (if asked {
                seq![
                    ActionView::Summarize {
                        registration: r,
                        session,
                        pane: pane.pane_name,
                        content: pane.content,
                    },
                ]
            } else {
                Seq::empty()
            }) + (if stale is Some {
                seq![ActionView::Emit(stale->Some_0)]
            } else {
                Seq::empty()
            })
            &&& after.gone == polled.gone
        }),
{
    let key = pane.session + "::"@ + pane.pane_id;
    let known = table::lookup(polled.state.panes, key);
    let remembered = tmux::pane_after(known, pane, r, now_ms, false);
    table::law_put_then_lookup(polled.state.panes, key, remembered, other);
    table::law_put_then_lookup(polled.state.panes, key, remembered, key);
    table::law_put_then_lookup(polled.state.summaries, session, now_ms, session);
    let window = tmux::window_with(
        table::lookup(polled.state.pending, session),
        now_ms,
        tmux::pane_hits(known, pane, r),
    );
    match window {
        Some(w) => {
            table::law_put_then_lookup(polled.state.pending, session, w, other);
            table::law_put_then_lookup(polled.state.pending, session, w, session);
        },
        None => {},
    }
    let after = tmux::pane_polled(polled, session, r, pane, now_ms);
    let asked = tmux::pane_summarized(
        known,
        pane,
        r,
        table::lookup(polled.state.summaries, session),
        now_ms,
    );
    let stale = tmux::pane_stale_event(known, pane, r, now_ms);
    assert(after.actions =~= polled.actions + (if asked {
        seq![
            ActionView::Summarize {
                registration: r,
                session,
                pane: pane.pane_name,
                content: pane.content,
            },
        ]
    } else {
        Seq::empty()
    }) + (if stale is Some {
        seq![ActionView::Emit(stale->Some_0)]
    } else {
        Seq::empty()
    }));
}

/// A session that cannot be read only has its window looked at: it is not taken for gone.
pub proof fn law_unreadable_session_is_kept(
    polled: Polled,
    session: Seq<char>,
    r: RegistrationView,
    now_ms: u64,
)
    requires
        !r.active_wrapper_monitor,
    ensures
        ({
            let after = tmux::session_polled(polled, session, r, ProbeView::Unreadable, now_ms);
            &&& after.gone == polled.gone
            &&& after.state.panes == polled.state.panes
            &&& after.state.heartbeats == polled.state.heartbeats
            &&& after.state.summaries == polled.state.summaries
        }),
{
}

/// A session of a poll that is gone is told to be, and one that is there is not.
pub proof fn law_gone_sessions(
    polled: Polled,
    session: Seq<char>,
    r: RegistrationView,
    probe: ProbeView,
    now_ms: u64,
)
    requires
        !r.active_wrapper_monitor,
    ensures
        tmux::session_polled(polled, session, r, probe, now_ms).gone == (match probe {
            ProbeView::Gone => polled.gone.push(session),
            _ => polled.gone,
        }),
{
    match probe {
        ProbeView::Panes(panes) => {
            let flushed = tmux::window_polled(polled, session, r, now_ms, false);
            lemma_panes_leave_gone(
                Polled { changed: false, ..flushed },
                session,
                r,
                panes,
                now_ms,
            );
        },
        _ => {},
    }
}

proof fn lemma_panes_leave_gone(
    polled: Polled,
    session: Seq<char>,
    r: RegistrationView,
    panes: Seq<SnapshotView>,
    now_ms: u64,
)
    ensures
        tmux::panes_polled(polled, session, r, panes, now_ms).gone == polled.gone,
    decreases panes.len(),
{
    if panes.len() > 0 {
        lemma_panes_leave_gone(polled, session, r, panes.drop_last(), now_ms);
    }
}

/// After a poll the panes that were not seen are forgotten, and so is what was known of
/// sessions that are no longer polled.
pub proof fn law_poll_forgets_what_is_gone(
    polled: Polled,
    sessions: Seq<(Seq<char>, RegistrationView)>,
    key: Seq<char>,
)
    requires
        polled.state.well_formed(),
    ensures
        ({
            let after = tmux::state_after(polled, sessions);
            let is_polled = exists|i: int|
                0 <= i < sessions.len() && (#[trigger] sessions[i]).0 == key;
            &&& polled.seen.contains(key) ==> table::lookup(after.panes, key) == table::lookup(
                polled.state.panes,
                key,
            )
            &&& !polled.seen.contains(key) ==> table::lookup(after.panes, key) is None
            &&& is_polled ==> table::lookup(after.pending, key) == table::lookup(
                polled.state.pending,
                key,
            ) && table::lookup(after.heartbeats, key) == table::lookup(
                polled.state.heartbeats,
                key,
            ) && table::lookup(after.summaries, key) == table::lookup(polled.state.summaries, key)
            &&& !is_polled ==> table::lookup(after.pending, key) is None && table::lookup(
                after.heartbeats,
                key,
            ) is None && table::lookup(after.summaries, key) is None
        }),
{
    let names = tmux::keys_of(sessions);
    let is_polled = exists|i: int| 0 <= i < sessions.len() && (#[trigger] sessions[i]).0 == key;
    assert(names.contains(key) == is_polled) by {
        if is_polled {
            let i = choose|i: int| 0 <= i < sessions.len() && (#[trigger] sessions[i]).0 == key;
            assert(names[i] == key);
        }
        if names.contains(key) {
            let i = choose|i: int| 0 <= i < names.len() && names[i] == key;
            assert(sessions[i].0 == key);
        }
    }
    table::law_kept_then_lookup(polled.state.panes, tmux::has_key(polled.seen), key);
    table::law_kept_then_lookup(polled.state.pending, tmux::has_key(names), key);
    table::law_kept_then_lookup(polled.state.heartbeats, tmux::has_key(names), key);
    table::law_kept_then_lookup(polled.state.summaries, tmux::has_key(names), key);
}

/// A watch of a session that is gone tells the hits that wait, in one event, and nothing else.
pub proof fn law_watch_of_a_gone_session(
    watch: WatchView,
    r: RegistrationView,
    now_ms: u64,
)
    ensures
        ({
            let (after, actions) = tmux::session_watched(watch, r, None, now_ms);
            &&& after.pending is None
            &&& match watch.pending {
                Some(p) => if p.hits.len() > 0 {
                    actions == seq![ActionView::Emit(tmux::keyword_event(r, r.session, p.hits))]
                } else {
                    actions.len() == 0
                },
                None => actions.len() == 0,
            }
        }),
{
    let (after, actions) = tmux::session_watched(watch, r, None, now_ms);
    match watch.pending {
        Some(p) => {
            if p.hits.len() > 0 {
                assert(actions =~= seq![
                    ActionView::Emit(tmux::keyword_event(r, r.session, p.hits)),
                ]);
            }
        },
        None => {},
    }
}

// ---------------------------------------------------------------------------
// What tmux says
// ---------------------------------------------------------------------------

/// The sessions of a list are its lines that are not blank, trimmed, in their order.
pub proof fn law_sessions_of_a_list(lines: Seq<Seq<char>>)
    ensures
        tmux::names_in(lines) == lines.filter(
            |line: Seq<char>| text::trimmed(line).len() > 0,
        ).map_values(|line: Seq<char>| text::trimmed(line)),
    decreases lines.len(),
{
    reveal(Seq::filter);
    if lines.len() > 0 {
        law_sessions_of_a_list(lines.drop_last());
    }
    assert(tmux::names_in(lines) =~= lines.filter(
        |line: Seq<char>| text::trimmed(line).len() > 0,
    ).map_values(|line: Seq<char>| text::trimmed(line)));
}

/// A line that tells of a pane holds its identifier, its session, its name and whether it is
/// dead, with bars between them; one without an identifier tells of none.
pub proof fn law_line_of_a_pane(line: Seq<char>)
    ensures
        ({
            let fields = scan::split(line, '|');
            let at = |i: int|
                if i < fields.len() {
                    fields[i]
                } else {
                    Seq::empty()
                };
            match tmux::pane_in(line) {
                Some(pane) => {
                    &&& pane.pane_id == at(0)
                    &&& pane.pane_id.len() > 0
                    &&& pane.session == at(1)
                    &&& pane.pane_name == at(2)
                    &&& pane.pane_dead == (at(3) == "1"@)
                    &&& pane.content.len() == 0
                },
                None => at(0).len() == 0,
            }
        }),
{
}

// ---------------------------------------------------------------------------
// The poll of the plain monitor
// ---------------------------------------------------------------------------

/// The plain monitor says nothing of a pane it does not know. Where the content is another it
/// tells each hit in a line that is new by an event of its own; where it is the same, and has
/// been for the minutes that are set, one at least, that the pane is stale.
pub proof fn law_plain_look_at_a_pane(
    known: PaneView,
    pane: SnapshotView,
    r: RegistrationView,
    now_ms: u64,
)
    ensures
        monitor::pane_events(None, pane, r, now_ms).len() == 0,
        ({
            let told = monitor::pane_events(Some(known), pane, r, now_ms);
            let hits = keywords::unseen_hits(
                scan::lines(known.snapshot),
                scan::lines(pane.content),
                r.keywords,
            );
            let mins: u64 = if r.stale_minutes > 1 {
                r.stale_minutes
            } else {
                1
            };
            let stale = tmux::minutes(known.last_change, now_ms) >= mins && (
            known.last_stale_notification matches Some(moment) ==> tmux::minutes(moment, now_ms)
                >= mins);
            &&& known.snapshot != pane.content ==> told.len() == hits.len() && forall|i: int|
                0 <= i < hits.len() ==> {
                    &&& (#[trigger] told[i]).kind == "tmux.keyword"@
                    &&& told[i].channel == r.channel
                    &&& told[i].format == r.format
                    &&& json::member(told[i].payload, "session"@) == Some(
                        Node::Text(pane.session),
                    )
                    &&& json::member(told[i].payload, "keyword"@) == Some(
                        Node::Text(hits[i].keyword),
                    )
                    &&& json::member(told[i].payload, "line"@) == Some(Node::Text(hits[i].line))
                }
            &&& known.snapshot == pane.content && !stale ==> told.len() == 0
            &&& known.snapshot == pane.content && stale ==> told.len() == 1 && {
                &&& told[0].kind == "tmux.stale"@
                &&& told[0].channel == r.channel
                &&& told[0].format == r.format
                &&& json::member(told[0].payload, "session"@) == Some(Node::Text(known.session))
                &&& json::member(told[0].payload, "pane"@) == Some(Node::Text(known.pane_name))
                &&& json::count(told[0].payload, "minutes"@) == Some(r.stale_minutes)
                &&& json::member(told[0].payload, "last_line"@) == Some(
                    Node::Text(keywords::shown_line(pane.content)),
                )
            }
        }),
{
    lemma_metadata_names();
}

/// The plain monitor remembers a pane as it is now: changed now where it is new or its content
/// is another, and called stale now where it is.
pub proof fn law_plain_monitor_remembers(
    existing: Option<PaneView>,
    pane: SnapshotView,
    r: RegistrationView,
    now_ms: u64,
)
    ensures
        ({
            let after = monitor::pane_remembered(existing, pane, r, now_ms);
            &&& after.snapshot == pane.content
            &&& match existing {
                None => after.last_change == now_ms && after.last_stale_notification is None,
                Some(known) => if known.snapshot != pane.content {
                    after.last_change == now_ms && after.last_stale_notification is None
                } else {
                    after.last_change == known.last_change && after.last_stale_notification == (
                    if monitor::pane_events(existing, pane, r, now_ms).len() > 0 {
                        Some(now_ms)
                    } else {
                        known.last_stale_notification
                    })
                },
            }
        }),
{
}

} // verus!
