//! Keywords in the output of terminal sessions.
use vstd::prelude::*;
use vstd::string::*;

use crate::scan;
use crate::scan::{lines_of, lower};
use crate::text;
use crate::text::{contains, list_has, same, trim};

verus! {

broadcast use crate::text::views_push;

/// A keyword and the line in which it turned up.
#[derive(Debug, PartialEq, Eq)]
pub struct KeywordHit {
    pub keyword: String,
    pub line: String,
}

/// A keyword and the line in which it turned up.
pub struct HitView {
    pub keyword: Seq<char>,
    pub line: Seq<char>,
}

impl View for KeywordHit {
    type V = HitView;

    open spec fn view(&self) -> HitView {
        HitView { keyword: self.keyword@, line: self.line@ }
    }
}

impl Clone for KeywordHit {
    fn clone(&self) -> (r: Self)
        ensures
            r@ == self@,
    {
        KeywordHit { keyword: self.keyword.clone(), line: self.line.clone() }
    }
}

// ---------------------------------------------------------------------------
// Lines
// ---------------------------------------------------------------------------

/// The last line that is not blank, trimmed.
pub open spec fn last_meaningful(lines: Seq<Seq<char>>) -> Option<Seq<char>>
    decreases lines.len(),
{
    if lines.len() == 0 {
        None
    } else {
        text::or_else(text::meaningful(lines.last()), last_meaningful(lines.drop_last()))
    }
}

/// What is shown of an output: its last line that is not blank.
pub open spec fn shown_line(content: Seq<char>) -> Seq<char> {
    match last_meaningful(scan::lines(content)) {
        Some(line) => line,
        None => "<no output>"@,
    }
}

/// What is shown of an output: its last line that is not blank.
pub fn last_nonempty_line(content: &str) -> (r: String)
    ensures
        r@ == shown_line(content@),
{
    let lines = lines_of(content);
    let ghost all = text::views(lines@);
    let mut i: usize = lines.len();
    assert(all.take(i as int) =~= all);
    while i > 0
        invariant
            i <= lines.len(),
            all == text::views(lines@),
            all == scan::lines(content@),
            last_meaningful(all) == last_meaningful(all.take(i as int)),
        decreases i,
    {
        assert(all.take(i as int).drop_last() =~= all.take(i - 1));
        assert(all.take(i as int).last() == lines@[i - 1]@);
        let line = trim(lines[i - 1].as_str());
        if !line.is_empty() {
            return line.to_owned();
        }
        i = i - 1;
    }
    "<no output>".to_owned()
}

/// How many lines an output has gained.
pub fn count_new_lines(old_content: &str, new_content: &str) -> (r: usize)
    ensures
        r == (if scan::lines(new_content@).len() > scan::lines(old_content@).len() {
            scan::lines(new_content@).len() - scan::lines(old_content@).len()
        } else {
            0
        }),
{
    let before = lines_of(old_content);
    let after = lines_of(new_content);
    assert(text::views(before@).len() == before@.len());
    assert(text::views(after@).len() == after@.len());
    if after.len() > before.len() {
        after.len() - before.len()
    } else {
        0
    }
}

// ---------------------------------------------------------------------------
// Hits
// ---------------------------------------------------------------------------

/// A keyword stands in a line, in upper or lower case.
pub open spec fn mentions(line: Seq<char>, keyword: Seq<char>) -> bool {
    text::occurs_in(scan::lowered(line), scan::lowered(keyword))
}

/// The keywords that stand in a line, in their order.
pub open spec fn line_hits(line: Seq<char>, keywords: Seq<Seq<char>>) -> Seq<HitView>
    decreases keywords.len(),
{
    if keywords.len() == 0 {
        Seq::empty()
    } else if mentions(line, keywords.last()) {
        line_hits(line, keywords.drop_last()).push(HitView { keyword: keywords.last(), line })
    } else {
        line_hits(line, keywords.drop_last())
    }
}

/// The keywords in the lines that an earlier output does not have.
pub open spec fn unseen_hits(
    before: Seq<Seq<char>>,
    lines: Seq<Seq<char>>,
    keywords: Seq<Seq<char>>,
) -> Seq<HitView>
    decreases lines.len(),
{
    if lines.len() == 0 {
        Seq::empty()
    } else if before.contains(lines.last()) {
        unseen_hits(before, lines.drop_last(), keywords)
    } else {
        unseen_hits(before, lines.drop_last(), keywords) + line_hits(lines.last(), keywords)
    }
}

/// How often a line occurs.
pub open spec fn occurrences(lines: Seq<Seq<char>>, line: Seq<char>) -> nat
    decreases lines.len(),
{
    if lines.len() == 0 {
        0
    } else if lines.last() == line {
        occurrences(lines.drop_last(), line) + 1
    } else {
        occurrences(lines.drop_last(), line)
    }
}

/// The keywords in the lines that occur more often than in an earlier output.
pub open spec fn gained_hits(
    before: Seq<Seq<char>>,
    lines: Seq<Seq<char>>,
    keywords: Seq<Seq<char>>,
) -> Seq<HitView>
    decreases lines.len(),
{
    if lines.len() == 0 {
        Seq::empty()
    } else if occurrences(lines, lines.last()) <= occurrences(before, lines.last()) {
        gained_hits(before, lines.drop_last(), keywords)
    } else {
        gained_hits(before, lines.drop_last(), keywords) + line_hits(lines.last(), keywords)
    }
}

fn push_line_hits(out: &mut Vec<KeywordHit>, line: &str, keywords: &Vec<String>)
    ensures
        text::all_views(final(out)@) == text::all_views(old(out)@) + line_hits(
            line@,
            text::views(keywords@),
        ),
{
    let ghost before = text::all_views(out@);
    let ghost all = text::views(keywords@);
    let low = lower(line);
    let mut i: usize = 0;
    assert(before + line_hits(line@, all.take(0)) =~= before);
    while i < keywords.len()
        invariant
            i <= keywords.len(),
            all == text::views(keywords@),
            low@ == scan::lowered(line@),
            text::all_views(out@) == before + line_hits(line@, all.take(i as int)),
        decreases keywords.len() - i,
    {
        assert(all.take(i + 1).drop_last() =~= all.take(i as int));
        assert(all.take(i + 1).last() == keywords@[i as int]@);
        if contains(low.as_str(), lower(keywords[i].as_str()).as_str()) {
            let ghost so_far = text::all_views(out@);
            let hit = KeywordHit { keyword: keywords[i].clone(), line: line.to_owned() };
            let ghost view = hit@;
            out.push(hit);
            assert(text::all_views(out@) =~= so_far.push(view));
            assert(text::all_views(out@) =~= before + line_hits(line@, all.take(i + 1)));
        }
        i = i + 1;
    }
    assert(all.take(i as int) =~= all);
}

/// The keywords in the lines of an output that an earlier output does not have.
pub fn collect_keyword_hits(previous: &str, current: &str, keywords: &Vec<String>) -> (r: Vec<
    KeywordHit,
>)
    ensures
        text::all_views(r@) == unseen_hits(
            scan::lines(previous@),
            scan::lines(current@),
            text::views(keywords@),
        ),
{
    let before = lines_of(previous);
    let lines = lines_of(current);
    let ghost all = text::views(lines@);
    let ghost keys = text::views(keywords@);
    let mut out: Vec<KeywordHit> = Vec::new();
    let mut i: usize = 0;
    assert(text::all_views(out@) =~= Seq::<HitView>::empty());
    while i < lines.len()
        invariant
            i <= lines.len(),
            all == text::views(lines@),
            keys == text::views(keywords@),
            text::views(before@) == scan::lines(previous@),
            text::all_views(out@) == unseen_hits(
                scan::lines(previous@),
                all.take(i as int),
                keys,
            ),
        decreases lines.len() - i,
    {
        assert(all.take(i + 1).drop_last() =~= all.take(i as int));
        assert(all.take(i + 1).last() == lines@[i as int]@);
        if !list_has(&before, lines[i].as_str()) {
            push_line_hits(&mut out, lines[i].as_str(), keywords);
        }
        i = i + 1;
    }
    assert(all.take(i as int) =~= all);
    out
}

fn count_in(lines: &Vec<String>, end: usize, line: &str) -> (r: usize)
    requires
        end <= lines@.len(),
    ensures
        r == occurrences(text::views(lines@).take(end as int), line@),
{
    let ghost all = text::views(lines@);
    let mut n: usize = 0;
    let mut i: usize = 0;
    while i < end
        invariant
            i <= end <= lines@.len(),
            all == text::views(lines@),
            n <= i,
            n == occurrences(all.take(i as int), line@),
        decreases end - i,
    {
        assert(all.take(i + 1).drop_last() =~= all.take(i as int));
        assert(all.take(i + 1).last() == lines@[i as int]@);
        if same(lines[i].as_str(), line) {
            n = n + 1;
        }
        i = i + 1;
    }
    n
}

/// The keywords in the lines of an output that occur more often than in an
/// earlier output.
pub fn collect_gained_hits(previous: &str, current: &str, keywords: &Vec<String>) -> (r: Vec<
    KeywordHit,
>)
    ensures
        text::all_views(r@) == gained_hits(
            scan::lines(previous@),
            scan::lines(current@),
            text::views(keywords@),
        ),
{
    let before = lines_of(previous);
    let lines = lines_of(current);
    let ghost earlier = text::views(before@);
    let ghost all = text::views(lines@);
    let ghost keys = text::views(keywords@);
    let mut out: Vec<KeywordHit> = Vec::new();
    let mut i: usize = 0;
    assert(text::all_views(out@) =~= Seq::<HitView>::empty());
    assert(earlier.take(before@.len() as int) =~= earlier);
    while i < lines.len()
        invariant
            i <= lines.len(),
            all == text::views(lines@),
            earlier == text::views(before@),
            earlier.take(before@.len() as int) == earlier,
            keys == text::views(keywords@),
            text::all_views(out@) == gained_hits(earlier, all.take(i as int), keys),
        decreases lines.len() - i,
    {
        assert(all.take(i + 1).drop_last() =~= all.take(i as int));
        assert(all.take(i + 1).last() == lines@[i as int]@);
        if count_in(&lines, i + 1, lines[i].as_str()) > count_in(
            &before,
            before.len(),
            lines[i].as_str(),
        ) {
            push_line_hits(&mut out, lines[i].as_str(), keywords);
        }
        i = i + 1;
    }
    assert(all.take(i as int) =~= all);
    out
}

// ---------------------------------------------------------------------------
// Hits of a window
// ---------------------------------------------------------------------------

/// The hits of a window of time, none of them twice.
#[derive(Debug)]
pub struct PendingKeywordHits {
    pub started_ms: u64,
    pub hits: Vec<KeywordHit>,
}

/// The hits of a window of time.
pub struct PendingView {
    pub started_ms: u64,
    pub hits: Seq<HitView>,
}

impl View for PendingKeywordHits {
    type V = PendingView;

    open spec fn view(&self) -> PendingView {
        PendingView { started_ms: self.started_ms, hits: text::all_views(self.hits@) }
    }
}

/// Hits with further ones, those left out that are there already.
pub open spec fn with_hits(hits: Seq<HitView>, more: Seq<HitView>) -> Seq<HitView>
    decreases more.len(),
{
    if more.len() == 0 {
        hits
    } else {
        let so_far = with_hits(hits, more.drop_last());
        if so_far.contains(more.last()) {
            so_far
        } else {
            so_far.push(more.last())
        }
    }
}

/// The milliseconds from one moment to another, none where it comes first.
pub open spec fn elapsed(since_ms: u64, now_ms: u64) -> u64 {
    if now_ms > since_ms {
        (now_ms - since_ms) as u64
    } else {
        0
    }
}

/// The milliseconds from one moment to another, none where it comes first.
pub fn elapsed_ms(since_ms: u64, now_ms: u64) -> (r: u64)
    ensures
        r == elapsed(since_ms, now_ms),
{
    if now_ms > since_ms {
        now_ms - since_ms
    } else {
        0
    }
}

fn has_hit(hits: &Vec<KeywordHit>, hit: &KeywordHit) -> (r: bool)
    ensures
        r == text::all_views(hits@).contains(hit@),
{
    let ghost all = text::all_views(hits@);
    let mut i: usize = 0;
    while i < hits.len()
        invariant
            i <= hits.len(),
            all == text::all_views(hits@),
            forall|k: int| 0 <= k < i ==> all[k] != hit@,
        decreases hits.len() - i,
    {
        assert(all[i as int] == hits@[i as int]@);
        if same(hits[i].keyword.as_str(), hit.keyword.as_str()) && same(
            hits[i].line.as_str(),
            hit.line.as_str(),
        ) {
            assert(all.contains(hit@));
            return true;
        }
        i = i + 1;
    }
    false
}

impl PendingKeywordHits {
    /// A window that begins now.
    pub fn new(now_ms: u64) -> (r: Self)
        ensures
            r@ == (PendingView { started_ms: now_ms, hits: Seq::empty() }),
    {
        let r = PendingKeywordHits { started_ms: now_ms, hits: Vec::new() };
        assert(text::all_views(r.hits@) =~= Seq::<HitView>::empty());
        r
    }

    /// Adds hits to this window, those left out that are there already.
    pub fn push(&mut self, hits: Vec<KeywordHit>)
        ensures
            final(self)@ == (PendingView {
                hits: with_hits(old(self)@.hits, text::all_views(hits@)),
                ..old(self)@
            }),
    {
        let ghost before = self@.hits;
        let ghost all = text::all_views(hits@);
        let mut i: usize = 0;
        while i < hits.len()
            invariant
                i <= hits.len(),
                all == text::all_views(hits@),
                self.started_ms == old(self).started_ms,
                text::all_views(self.hits@) == with_hits(before, all.take(i as int)),
            decreases hits.len() - i,
        {
            assert(all.take(i + 1).drop_last() =~= all.take(i as int));
            assert(all.take(i + 1).last() == hits@[i as int]@);
            if !has_hit(&self.hits, &hits[i]) {
                let ghost so_far = text::all_views(self.hits@);
                let hit = hits[i].clone();
                let ghost view = hit@;
                self.hits.push(hit);
                assert(text::all_views(self.hits@) =~= so_far.push(view));
            }
            i = i + 1;
        }
        assert(all.take(i as int) =~= all);
    }

    /// Tells whether this window has lasted for some seconds.
    pub fn ready_to_flush(&self, now_ms: u64, window_secs: u64) -> (r: bool)
        ensures
            r == (elapsed(self@.started_ms, now_ms) >= window_secs * 1000),
    {
        elapsed_ms(self.started_ms, now_ms) / 1000 >= window_secs
    }

    /// The hits of this window.
    pub fn into_hits(self) -> (r: Vec<KeywordHit>)
        ensures
            text::all_views(r@) == self@.hits,
    {
        self.hits
    }
}

// ---------------------------------------------------------------------------
// Laws
// ---------------------------------------------------------------------------

/// An output that has not changed has no hits.
pub proof fn law_same_output_has_no_hits(lines: Seq<Seq<char>>, keywords: Seq<Seq<char>>)
    ensures
        unseen_hits(lines, lines, keywords) == Seq::<HitView>::empty(),
        gained_hits(lines, lines, keywords) == Seq::<HitView>::empty(),
{
    lemma_no_unseen(lines, lines, keywords);
    lemma_no_gain(lines, lines, keywords);
}

proof fn lemma_no_unseen(before: Seq<Seq<char>>, lines: Seq<Seq<char>>, keywords: Seq<Seq<char>>)
    requires
        forall|i: int| 0 <= i < lines.len() ==> before.contains(#[trigger] lines[i]),
    ensures
        unseen_hits(before, lines, keywords) == Seq::<HitView>::empty(),
    decreases lines.len(),
{
    if lines.len() > 0 {
        assert(before.contains(lines[lines.len() - 1]));
        assert forall|i: int| 0 <= i < lines.drop_last().len() implies before.contains(
            #[trigger] lines.drop_last()[i],
        ) by {
            assert(lines[i] == lines.drop_last()[i]);
        }
        lemma_no_unseen(before, lines.drop_last(), keywords);
    }
}

proof fn lemma_no_gain(before: Seq<Seq<char>>, lines: Seq<Seq<char>>, keywords: Seq<Seq<char>>)
    requires
        forall|line: Seq<char>| occurrences(lines, line) <= #[trigger] occurrences(before, line),
    ensures
        gained_hits(before, lines, keywords) == Seq::<HitView>::empty(),
    decreases lines.len(),
{
    if lines.len() > 0 {
        let front = lines.drop_last();
        assert forall|line: Seq<char>| occurrences(front, line) <= #[trigger] occurrences(
            before,
            line,
        ) by {
            assert(occurrences(lines, line) >= occurrences(front, line));
        }
        lemma_no_gain(before, front, keywords);
    }
}

/// A window holds no hit twice.
pub proof fn law_window_holds_no_hit_twice(hits: Seq<HitView>, more: Seq<HitView>)
    requires
        hits.no_duplicates(),
    ensures
        with_hits(hits, more).no_duplicates(),
    decreases more.len(),
{
    if more.len() > 0 {
        law_window_holds_no_hit_twice(hits, more.drop_last());
    }
}

} // verus!
