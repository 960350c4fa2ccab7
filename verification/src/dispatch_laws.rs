//! What the gathering of CI jobs tells, and when.
use vstd::prelude::*;
use vstd::string::*;

use crate::compose;
use crate::dispatch;
use crate::dispatch::{BatcherView, CiBatchView, CiJobView, WakeView};
use crate::dispatcher;
use crate::dispatcher::{DeliveryStepView, InputView};
use crate::events;
use crate::events::EventView;
use crate::json;
use crate::json::Node;
use crate::json_laws;
use crate::router;
use crate::router::DeliveryView;
use crate::scan;
use crate::table;
use crate::text;

verus! {

broadcast use json_laws::group_members;

// ---------------------------------------------------------------------------
// What the event of a batch says
// ---------------------------------------------------------------------------

/// A job ended in some way.
pub open spec fn ended(job: CiJobView, how: Seq<char>) -> bool {
    job.conclusion == Some(how)
}

proof fn lemma_tally(jobs: Seq<(Seq<char>, CiJobView)>)
    ensures
        ({
            let t = dispatch::tally(jobs);
            &&& t.passed == jobs.filter(
                |j: (Seq<char>, CiJobView)| ended(j.1, "success"@) || ended(j.1, "neutral"@),
            ).len()
            &&& t.skipped == jobs.filter(|j: (Seq<char>, CiJobView)| ended(j.1, "skipped"@)).len()
            &&& t.failed == jobs.filter(
                |j: (Seq<char>, CiJobView)|
                    ended(j.1, "failure"@) || ended(j.1, "timed_out"@) || ended(
                        j.1,
                        "startup_failure"@,
                    ) || ended(j.1, "action_required"@),
            ).len()
            &&& t.cancelled == jobs.filter(
                |j: (Seq<char>, CiJobView)| ended(j.1, "cancelled"@),
            ).len()
            &&& t.failed > 0 <==> exists|i: int|
                0 <= i < jobs.len() && (ended((#[trigger] jobs[i]).1, "failure"@) || ended(
                    jobs[i].1,
                    "timed_out"@,
                ) || ended(jobs[i].1, "startup_failure"@) || ended(jobs[i].1, "action_required"@))
            &&& t.passed > 0 <==> exists|i: int|
                0 <= i < jobs.len() && (ended((#[trigger] jobs[i]).1, "success"@) || ended(
                    jobs[i].1,
                    "neutral"@,
                ))
            &&& t.skipped > 0 <==> exists|i: int|
                0 <= i < jobs.len() && ended((#[trigger] jobs[i]).1, "skipped"@)
            &&& t.cancelled > 0 <==> exists|i: int|
                0 <= i < jobs.len() && ended((#[trigger] jobs[i]).1, "cancelled"@)
        }),
    decreases jobs.len(),
{
    reveal(Seq::filter);
    if jobs.len() > 0 {
        let front = jobs.drop_last();
        lemma_tally(front);
        assert forall|i: int| 0 <= i < front.len() implies #[trigger] front[i] == jobs[i] by {}
        assert(jobs[jobs.len() - 1] == jobs.last());
        assert forall|i: int| 0 <= i < jobs.len() - 1 implies #[trigger] jobs[i] == front[i] by {}
    }
}

/// How a run is told. One failed job, be it that it failed, ran out of time, could not start
/// or waits for someone, makes the run a failed one. Without any, a job that has not ended
/// makes it a running one. Where all have ended it was cancelled if some job was and none
/// passed or was skipped, and else it passed.
pub proof fn law_outcome_of_a_run(batch: CiBatchView)
    ensures
        ({
            let jobs = batch.jobs;
            let kind = dispatch::batch_event(batch).kind;
            let failed = exists|i: int|
                0 <= i < jobs.len() && (ended((#[trigger] jobs[i]).1, "failure"@) || ended(
                    jobs[i].1,
                    "timed_out"@,
                ) || ended(jobs[i].1, "startup_failure"@) || ended(jobs[i].1, "action_required"@));
            let unfinished = exists|i: int|
                0 <= i < jobs.len() && (#[trigger] jobs[i]).1.status != "completed"@;
            let cancelled = exists|i: int|
                0 <= i < jobs.len() && ended((#[trigger] jobs[i]).1, "cancelled"@);
            let passed = exists|i: int|
                0 <= i < jobs.len() && (ended((#[trigger] jobs[i]).1, "success"@) || ended(
                    jobs[i].1,
                    "neutral"@,
                ) || ended(jobs[i].1, "skipped"@));
            &&& failed ==> kind == "github.ci-failed"@
            &&& !failed && unfinished ==> kind == "github.ci-started"@
            &&& !failed && !unfinished && cancelled && !passed ==> kind == "github.ci-cancelled"@
            &&& !failed && !unfinished && (!cancelled || passed) ==> kind == "github.ci-passed"@
        }),
{
    let jobs = batch.jobs;
    lemma_tally(jobs);
    let unfinished = exists|i: int|
        0 <= i < jobs.len() && (#[trigger] jobs[i]).1.status != "completed"@;
    assert(dispatch::all_terminal(jobs) == !unfinished) by {
        if !unfinished {
            assert forall|i: int| 0 <= i < jobs.len() implies dispatch::is_terminal(
                (#[trigger] jobs[i]).1,
            ) by {}
        }
    }
}

/// A run all of whose jobs were cancelled is told as cancelled, whatever else is known of it.
pub proof fn law_cancelled_run_is_told_as_cancelled(batch: CiBatchView)
    requires
        batch.jobs.len() > 0,
        forall|i: int|
            0 <= i < batch.jobs.len() ==> (#[trigger] batch.jobs[i]).1.status == "completed"@
                && batch.jobs[i].1.conclusion == Some("cancelled"@),
    ensures
        dispatch::batch_event(batch).kind == "github.ci-cancelled"@,
{
    law_outcome_of_a_run(batch);
    lemma_endings_differ();
    let jobs = batch.jobs;
    assert(jobs[0].1.conclusion == Some("cancelled"@));
    assert(ended(jobs[0].1, "cancelled"@));
}

/// A run all of whose jobs passed is told as passed.
pub proof fn law_passed_run_is_told_as_passed(batch: CiBatchView)
    requires
        forall|i: int|
            0 <= i < batch.jobs.len() ==> (#[trigger] batch.jobs[i]).1.status == "completed"@
                && batch.jobs[i].1.conclusion == Some("success"@),
    ensures
        dispatch::batch_event(batch).kind == "github.ci-passed"@,
{
    law_outcome_of_a_run(batch);
    lemma_endings_differ();
}

proof fn lemma_endings_differ()
    ensures
        "cancelled"@ != "success"@,
        "cancelled"@ != "neutral"@,
        "cancelled"@ != "skipped"@,
        "cancelled"@ != "failure"@,
        "cancelled"@ != "timed_out"@,
        "cancelled"@ != "startup_failure"@,
        "cancelled"@ != "action_required"@,
        "success"@ != "failure"@,
        "success"@ != "timed_out"@,
        "success"@ != "startup_failure"@,
        "success"@ != "action_required"@,
{
    reveal_strlit("cancelled");
    reveal_strlit("success");
    reveal_strlit("neutral");
    reveal_strlit("skipped");
    reveal_strlit("failure");
    reveal_strlit("timed_out");
    reveal_strlit("startup_failure");
    reveal_strlit("action_required");
    assert("cancelled"@.len() == 9);
    assert("cancelled"@[0] == 'c');
    assert("success"@.len() == 7);
    assert("success"@[0] == 's');
    assert("success"@[1] == 'u');
    assert("neutral"@.len() == 7);
    assert("neutral"@[0] == 'n');
    assert("skipped"@.len() == 7);
    assert("skipped"@[0] == 's');
    assert("skipped"@[1] == 'k');
    assert("failure"@.len() == 7);
    assert("failure"@[0] == 'f');
    assert("timed_out"@.len() == 9);
    assert("timed_out"@[0] == 't');
    assert("startup_failure"@.len() == 15);
    assert("startup_failure"@[0] == 's');
    assert("action_required"@.len() == 15);
    assert("action_required"@[0] == 'a');
}

proof fn lemma_summary_names()
    ensures
        "repo"@ != "number"@,
        "repo"@ != "branch"@,
        "repo"@ != "sha"@,
        "repo"@ != "url"@,
        "repo"@ != "batched"@,
        "repo"@ != "total_count"@,
        "repo"@ != "passed_count"@,
        "repo"@ != "skipped_count"@,
        "repo"@ != "failed_count"@,
        "repo"@ != "cancelled_count"@,
        "repo"@ != "jobs"@,
        "number"@ != "branch"@,
        "number"@ != "sha"@,
        "number"@ != "url"@,
        "number"@ != "batched"@,
        "number"@ != "total_count"@,
        "number"@ != "passed_count"@,
        "number"@ != "skipped_count"@,
        "number"@ != "failed_count"@,
        "number"@ != "cancelled_count"@,
        "number"@ != "jobs"@,
        "branch"@ != "sha"@,
        "branch"@ != "url"@,
        "branch"@ != "batched"@,
        "branch"@ != "total_count"@,
        "branch"@ != "passed_count"@,
        "branch"@ != "skipped_count"@,
        "branch"@ != "failed_count"@,
        "branch"@ != "cancelled_count"@,
        "branch"@ != "jobs"@,
        "sha"@ != "url"@,
        "sha"@ != "batched"@,
        "sha"@ != "total_count"@,
        "sha"@ != "passed_count"@,
        "sha"@ != "skipped_count"@,
        "sha"@ != "failed_count"@,
        "sha"@ != "cancelled_count"@,
        "sha"@ != "jobs"@,
        "url"@ != "batched"@,
        "url"@ != "total_count"@,
        "url"@ != "passed_count"@,
        "url"@ != "skipped_count"@,
        "url"@ != "failed_count"@,
        "url"@ != "cancelled_count"@,
        "url"@ != "jobs"@,
        "batched"@ != "total_count"@,
        "batched"@ != "passed_count"@,
        "batched"@ != "skipped_count"@,
        "batched"@ != "failed_count"@,
        "batched"@ != "cancelled_count"@,
        "batched"@ != "jobs"@,
        "total_count"@ != "passed_count"@,
        "total_count"@ != "skipped_count"@,
        "total_count"@ != "failed_count"@,
        "total_count"@ != "cancelled_count"@,
        "total_count"@ != "jobs"@,
        "passed_count"@ != "skipped_count"@,
        "passed_count"@ != "failed_count"@,
        "passed_count"@ != "cancelled_count"@,
        "passed_count"@ != "jobs"@,
        "skipped_count"@ != "failed_count"@,
        "skipped_count"@ != "cancelled_count"@,
        "skipped_count"@ != "jobs"@,
        "failed_count"@ != "cancelled_count"@,
        "failed_count"@ != "jobs"@,
        "cancelled_count"@ != "jobs"@,
{
    reveal_strlit("repo");
    reveal_strlit("number");
    reveal_strlit("branch");
    reveal_strlit("sha");
    reveal_strlit("url");
    reveal_strlit("batched");
    reveal_strlit("total_count");
    reveal_strlit("passed_count");
    reveal_strlit("skipped_count");
    reveal_strlit("failed_count");
    reveal_strlit("cancelled_count");
    reveal_strlit("jobs");
    assert("repo"@.len() == 4);
    assert("repo"@[0] == 'r');
    assert("number"@.len() == 6);
    assert("number"@[0] == 'n');
    assert("branch"@.len() == 6);
    assert("branch"@[0] == 'b');
    assert("sha"@.len() == 3);
    assert("sha"@[0] == 's');
    assert("url"@.len() == 3);
    assert("url"@[0] == 'u');
    assert("batched"@.len() == 7);
    assert("total_count"@.len() == 11);
    assert("passed_count"@.len() == 12);
    assert("passed_count"@[0] == 'p');
    assert("skipped_count"@.len() == 13);
    assert("failed_count"@.len() == 12);
    assert("failed_count"@[0] == 'f');
    assert("cancelled_count"@.len() == 15);
    assert("jobs"@.len() == 4);
    assert("jobs"@[0] == 'j');
}

proof fn lemma_job_names()
    ensures
        "workflow"@ != "status"@,
        "workflow"@ != "conclusion"@,
        "workflow"@ != "url"@,
        "status"@ != "conclusion"@,
        "status"@ != "url"@,
        "conclusion"@ != "url"@,
{
    reveal_strlit("workflow");
    reveal_strlit("status");
    reveal_strlit("conclusion");
    reveal_strlit("url");
    assert("workflow"@.len() == 8);
    assert("status"@.len() == 6);
    assert("conclusion"@.len() == 10);
    assert("url"@.len() == 3);
}

/// The event of a batch says of which run it tells, how many jobs it has, how many of them
/// ended in each way, and goes where the events of its jobs were to go.
pub proof fn law_event_of_a_batch(batch: CiBatchView)
    ensures
        ({
            let e = dispatch::batch_event(batch);
            let p = e.payload;
            let jobs = batch.jobs;
            &&& e.channel == batch.channel
            &&& e.mention == batch.mention
            &&& e.format == batch.format
            &&& e.template is None
            &&& json::member(p, "repo"@) == Some(Node::Text(batch.repo))
            &&& json::count(p, "number"@) == batch.number
            &&& json::member(p, "number"@) is Some
            &&& json::raw_field(p, "branch"@) == batch.branch
            &&& json::member(p, "branch"@) is Some
            &&& json::member(p, "sha"@) == Some(Node::Text(batch.sha))
            &&& json::member(p, "url"@) == Some(Node::Text(batch.url))
            &&& json::flag(p, "batched"@) == Some(true)
            &&& json::count(p, "total_count"@) == Some(
                if jobs.len() > batch.expected_jobs {
                    jobs.len() as u64
                } else {
                    batch.expected_jobs
                },
            )
            &&& json::count(p, "passed_count"@) == Some(
                jobs.filter(
                    |j: (Seq<char>, CiJobView)| ended(j.1, "success"@) || ended(j.1, "neutral"@),
                ).len() as u64,
            )
            &&& json::count(p, "skipped_count"@) == Some(
                jobs.filter(|j: (Seq<char>, CiJobView)| ended(j.1, "skipped"@)).len() as u64,
            )
            &&& json::count(p, "failed_count"@) == Some(
                jobs.filter(
                    |j: (Seq<char>, CiJobView)|
                        ended(j.1, "failure"@) || ended(j.1, "timed_out"@) || ended(
                            j.1,
                            "startup_failure"@,
                        ) || ended(j.1, "action_required"@),
                ).len() as u64,
            )
            &&& json::count(p, "cancelled_count"@) == Some(
                jobs.filter(|j: (Seq<char>, CiJobView)| ended(j.1, "cancelled"@)).len() as u64,
            )
            &&& json::items(p, "jobs"@) matches Some(list) && list.len() == jobs.len()
        }),
{
    lemma_tally(batch.jobs);
    lemma_summary_names();
}

/// Each job stands in the event of its batch, with its workflow, how it stands, how it ended
/// if it has, and its link.
pub proof fn law_event_lists_each_job(batch: CiBatchView, i: int)
    requires
        0 <= i < batch.jobs.len(),
    ensures
        ({
            let job = batch.jobs[i].1;
            let node = json::items(dispatch::batch_event(batch).payload, "jobs"@)->Some_0[i];
            &&& json::member(node, "workflow"@) == Some(Node::Text(job.workflow))
            &&& json::member(node, "status"@) == Some(Node::Text(job.status))
            &&& json::raw_field(node, "conclusion"@) == job.conclusion
            &&& json::member(node, "url"@) == Some(Node::Text(job.url))
        }),
{
    let job = batch.jobs[i].1;
    lemma_job_names();
    assert(json::items(dispatch::batch_event(batch).payload, "jobs"@) == Some(
        dispatch::job_nodes(batch.jobs),
    ));
    assert(dispatch::job_nodes(batch.jobs)[i] == dispatch::job_node(job));
}

// ---------------------------------------------------------------------------
// How jobs are gathered
// ---------------------------------------------------------------------------

/// The text of a key as it stands, or another where there is none.
pub open spec fn text_of(p: Node, key: Seq<char>, otherwise: Seq<char>) -> Seq<char> {
    match json::member(p, key) {
        Some(Node::Text(s)) => s,
        _ => otherwise,
    }
}

/// The jobs of one run are those with the same repository, pull request, commit and run: by
/// these the run is known. The run is the one that the link names, or the link itself.
pub proof fn law_run_is_known_by(p: Node)
    ensures
        dispatch::batch_key(p) == text_of(p, "repo"@, "unknown"@) + ":"@ + (match json::count(
            p,
            "number"@,
        ) {
            Some(n) => compose::decimal(n as nat),
            None => "none"@,
        }) + ":"@ + text_of(p, "sha"@, "unknown"@) + ":"@ + (match dispatch::run_id(
            text_of(p, "url"@, ""@),
        ) {
            Some(id) => id,
            None => text_of(p, "url"@, ""@),
        }),
{
}

proof fn lemma_after_first(s: Seq<char>, part: Seq<char>, from: int, at: int)
    requires
        0 <= from <= at <= s.len(),
        text::occurs_at(s, part, at),
        forall|i: int| from <= i < at ==> !#[trigger] text::occurs_at(s, part, i),
    ensures
        scan::after_first(s, part, from) == Some(s.skip(at + part.len())),
    decreases at - from,
{
    if from < at {
        assert(!text::occurs_at(s, part, from));
        lemma_after_first(s, part, from + 1, at);
    }
}

proof fn lemma_until(head: Seq<char>, rest: Seq<char>)
    requires
        !head.contains('/'),
        rest.len() == 0 || rest[0] == '/',
    ensures
        scan::until(head + rest, '/') == head,
    decreases head.len(),
{
    let s = head + rest;
    if head.len() == 0 {
        assert(s =~= rest);
        assert(head =~= Seq::empty());
    } else {
        assert(head[0] != '/');
        let tail = head.drop_first();
        assert(!tail.contains('/')) by {
            if tail.contains('/') {
                let i = choose|i: int| 0 <= i < tail.len() && tail[i] == '/';
                assert(head[i + 1] == '/');
            }
        }
        lemma_until(tail, rest);
        assert(s.drop_first() =~= tail + rest);
        assert(seq![head[0]] + tail =~= head);
    }
}

/// The run of a link is the part behind `/actions/runs/`, up to the next slash.
pub proof fn law_link_names_its_run(base: Seq<char>, id: Seq<char>, rest: Seq<char>)
    requires
        id.len() > 0,
        !id.contains('/'),
        rest.len() == 0 || rest[0] == '/',
        forall|i: int|
            0 <= i < base.len() ==> !#[trigger] text::occurs_at(
                base + "/actions/runs/"@ + id + rest,
                "/actions/runs/"@,
                i,
            ),
    ensures
        dispatch::run_id(base + "/actions/runs/"@ + id + rest) == Some(id),
{
    let part = "/actions/runs/"@;
    let url = base + part + id + rest;
    let at = base.len() as int;
    assert(url.subrange(at, at + part.len()) =~= part);
    lemma_after_first(url, part, 0, at);
    assert(url.skip(at + part.len()) =~= id + rest);
    lemma_until(id, rest);
}

/// The job of an event: its workflow, how it stands, how it ended and its link.
pub proof fn law_job_of_an_event(event: EventView)
    ensures
        ({
            let job = dispatch::job_in(event);
            let p = event.payload;
            &&& job.workflow == text_of(p, "workflow"@, "unknown"@)
            &&& job.status == text_of(p, "status"@, "unknown"@)
            &&& job.conclusion == (match json::member(p, "conclusion"@) {
                Some(Node::Text(s)) => Some(s),
                _ => None,
            })
            &&& job.url == text_of(p, "url"@, ""@)
        }),
{
}

/// One more job of a run: the job counts from now on as the event tells it, every other job
/// as it did. What the event says of the run counts, and what it leaves open stays. The
/// moment at which the run is told is not put off.
pub proof fn law_job_joins_its_run(batch: CiBatchView, event: EventView, other: Seq<char>)
    ensures
        ({
            let p = event.payload;
            let after = dispatch::with_job(batch, event);
            let workflow = text_of(p, "workflow"@, "unknown"@);
            &&& table::lookup(after.jobs, workflow) == Some(dispatch::job_in(event))
            &&& other != workflow ==> table::lookup(after.jobs, other) == table::lookup(
                batch.jobs,
                other,
            )
            &&& after.repo == text_of(p, "repo"@, batch.repo)
            &&& after.number == (match json::count(p, "number"@) {
                Some(n) => Some(n),
                None => batch.number,
            })
            &&& after.branch == (match json::member(p, "branch"@) {
                Some(Node::Text(s)) => Some(s),
                _ => batch.branch,
            })
            &&& after.sha == text_of(p, "sha"@, batch.sha)
            &&& after.url == text_of(p, "url"@, batch.url)
            &&& event.channel is Some ==> after.channel == event.channel
            &&& event.channel is None ==> after.channel == batch.channel
            &&& event.mention is Some ==> after.mention == event.mention
            &&& event.mention is None ==> after.mention == batch.mention
            &&& event.format is Some ==> after.format == event.format
            &&& event.format is None ==> after.format == batch.format
            &&& after.expected_jobs >= batch.expected_jobs
            &&& json::count(p, "run_job_count"@) matches Some(n) ==> after.expected_jobs >= n && (
            after.expected_jobs == n || after.expected_jobs == batch.expected_jobs)
            &&& json::count(p, "run_job_count"@) is None && batch.expected_jobs > 0
                ==> after.expected_jobs == batch.expected_jobs
            &&& after.run_all_terminal == (match json::member(p, "run_all_terminal"@) {
                Some(Node::Bool(b)) => b,
                _ => batch.run_all_terminal,
            })
            &&& after.saw_in_progress == (batch.saw_in_progress || text_of(
                p,
                "status"@,
                "unknown"@,
            ) != "completed"@)
            &&& after.deliver_at_ms == batch.deliver_at_ms
            &&& after.version != batch.version
        }),
{
    let job = dispatch::job_in(event);
    table::law_put_then_lookup(batch.jobs, job.workflow, job, other);
}

/// The first job of a run opens a batch that is told at the end of the window.
pub proof fn law_first_job_opens_a_batch(event: EventView, deliver_at_ms: u64)
    ensures
        ({
            let p = event.payload;
            let b = dispatch::new_batch(event, deliver_at_ms);
            &&& b.jobs.len() == 0
            &&& b.repo == text_of(p, "repo"@, "unknown"@)
            &&& b.number == json::count(p, "number"@)
            &&& b.sha == text_of(p, "sha"@, ""@)
            &&& b.url == text_of(p, "url"@, ""@)
            &&& b.channel == event.channel
            &&& b.mention == event.mention
            &&& b.format == event.format
            &&& b.expected_jobs == (match json::count(p, "run_job_count"@) {
                Some(n) => n,
                None => 1u64,
            })
            &&& b.run_all_terminal == (json::member(p, "run_all_terminal"@) == Some(
                Node::Bool(true),
            ))
            &&& !b.saw_in_progress
            &&& b.deliver_at_ms == deliver_at_ms
        }),
{
}

/// A job lets its run out at once only where an unfinished job of it was seen, the run says
/// that all its jobs have ended, as many jobs were seen as it has, and each of them is
/// completed; and then it always does, with one event. Else nothing comes out.
pub proof fn law_complete_run_comes_out(
    state: BatcherView,
    event: EventView,
    now_ms: u64,
    window_ms: u64,
)
    ensures
        ({
            let batch = state.batch_with(event, now_ms, window_ms);
            let complete = batch.saw_in_progress && batch.run_all_terminal && batch.jobs.len()
                >= batch.expected_jobs && (forall|i: int|
                0 <= i < batch.jobs.len() ==> (#[trigger] batch.jobs[i]).1.status
                    == "completed"@);
            let out = state.observed_events(event, now_ms, window_ms);
            let after = state.observed(event, now_ms, window_ms);
            &&& complete ==> out == seq![dispatch::batch_event(batch)]
            &&& complete ==> table::lookup(after.pending, dispatch::batch_key(event.payload))
                is None
            &&& !complete ==> out.len() == 0
            &&& !complete ==> table::lookup(after.pending, dispatch::batch_key(event.payload))
                == Some(batch)
        }),
{
    let batch = state.batch_with(event, now_ms, window_ms);
    let key = dispatch::batch_key(event.payload);
    table::law_without_then_lookup(state.pending, key, key);
    table::law_put_then_lookup(state.pending, key, batch, key);
    assert(dispatch::all_terminal(batch.jobs) == (forall|i: int|
        0 <= i < batch.jobs.len() ==> (#[trigger] batch.jobs[i]).1.status == "completed"@)) by {
        if dispatch::all_terminal(batch.jobs) {
            assert forall|i: int| 0 <= i < batch.jobs.len() implies (
            #[trigger] batch.jobs[i]).1.status == "completed"@ by {
                assert(dispatch::is_terminal(batch.jobs[i].1));
            }
        }
    }
}

/// The batch that a job joins is the one of its run, where there is one, and else a new one
/// that ends a window from now.
pub proof fn law_job_finds_its_batch(
    state: BatcherView,
    event: EventView,
    now_ms: u64,
    window_ms: u64,
)
    requires
        now_ms + window_ms <= u64::MAX,
    ensures
        ({
            let batch = state.batch_with(event, now_ms, window_ms);
            match table::lookup(state.pending, dispatch::batch_key(event.payload)) {
                Some(known) => batch == dispatch::with_job(known, event) && batch.deliver_at_ms
                    == known.deliver_at_ms,
                None => batch == dispatch::with_job(
                    dispatch::new_batch(event, (now_ms + window_ms) as u64),
                    event,
                ) && batch.deliver_at_ms == now_ms + window_ms,
            }
        }),
{
}

// ---------------------------------------------------------------------------
// When batches come out
// ---------------------------------------------------------------------------

proof fn lemma_due_only(wakes: Seq<WakeView>, now_ms: u64, j: int) -> (i: int)
    requires
        0 <= j < dispatch::due_wakes(wakes, now_ms).len(),
    ensures
        0 <= i < wakes.len(),
        wakes[i] == dispatch::due_wakes(wakes, now_ms)[j],
        wakes[i].deliver_at_ms <= now_ms,
    decreases wakes.len(),
{
    let front = dispatch::due_wakes(wakes.drop_last(), now_ms);
    if j < front.len() {
        lemma_due_only(wakes.drop_last(), now_ms, j)
    } else {
        wakes.len() - 1
    }
}

proof fn lemma_stays(
    pending: Seq<(Seq<char>, CiBatchView)>,
    wakes: Seq<WakeView>,
    key: Seq<char>,
    batch: CiBatchView,
)
    requires
        table::lookup(pending, key) == Some(batch),
        forall|i: int|
            0 <= i < wakes.len() ==> (#[trigger] wakes[i]).key != key || wakes[i].version
                != batch.version,
    ensures
        table::lookup(dispatch::flush_wakes(pending, wakes).pending, key) == Some(batch),
    decreases wakes.len(),
{
    if wakes.len() > 0 {
        let front = wakes.drop_last();
        assert forall|i: int| 0 <= i < front.len() implies (#[trigger] front[i]).key != key
            || front[i].version != batch.version by {
            assert(wakes[i].key != key || wakes[i].version != batch.version);
        }
        lemma_stays(pending, front, key, batch);
        let before = dispatch::flush_wakes(pending, front);
        let wake = wakes.last();
        assert(wakes[wakes.len() - 1] == wake);
        table::law_without_then_lookup(before.pending, wake.key, key);
    }
}

/// A batch none of whose moments has come stays as it is.
pub proof fn law_batch_waits_for_its_moment(
    state: BatcherView,
    key: Seq<char>,
    batch: CiBatchView,
    now_ms: u64,
)
    requires
        table::lookup(state.pending, key) == Some(batch),
        forall|i: int|
            0 <= i < state.wakes.len() ==> (#[trigger] state.wakes[i]).key != key
                || state.wakes[i].version != batch.version || state.wakes[i].deliver_at_ms
                > now_ms,
    ensures
        table::lookup(dispatcher::flushed(state, now_ms).0.pending, key) == Some(batch),
{
    let due = dispatch::due_wakes(state.wakes, now_ms);
    assert forall|j: int| 0 <= j < due.len() implies (#[trigger] due[j]).key != key
        || due[j].version != batch.version by {
        let i = lemma_due_only(state.wakes, now_ms, j);
        assert(state.wakes[i].deliver_at_ms <= now_ms);
    }
    lemma_stays(state.pending, due, key, batch);
}

proof fn lemma_came_out(
    pending: Seq<(Seq<char>, CiBatchView)>,
    wakes: Seq<WakeView>,
    key: Seq<char>,
    batch: CiBatchView,
)
    requires
        table::lookup(pending, key) == Some(batch),
    ensures
        ({
            let out = dispatch::flush_wakes(pending, wakes);
            table::lookup(out.pending, key) == Some(batch) || exists|k: int|
                0 <= k < out.events.len() && #[trigger] out.events[k] == dispatch::batch_event(
                    batch,
                )
        }),
    decreases wakes.len(),
{
    if wakes.len() > 0 {
        let front = wakes.drop_last();
        lemma_came_out(pending, front, key, batch);
        let before = dispatch::flush_wakes(pending, front);
        let out = dispatch::flush_wakes(pending, wakes);
        table::law_without_then_lookup(before.pending, wakes.last().key, key);
        if table::lookup(before.pending, key) != Some(batch) {
            let k = choose|k: int|
                0 <= k < before.events.len() && #[trigger] before.events[k]
                    == dispatch::batch_event(batch);
            assert(out.events[k] == before.events[k]);
        } else if table::lookup(out.pending, key) != Some(batch) {
            assert(out.events[before.events.len() as int] == dispatch::batch_event(batch));
        }
    }
}

/// A batch whose moment has come, and that has not changed since that moment was set, is
/// told and is gone.
pub proof fn law_due_batch_is_told(
    state: BatcherView,
    key: Seq<char>,
    batch: CiBatchView,
    i: int,
    now_ms: u64,
)
    requires
        table::lookup(state.pending, key) == Some(batch),
        0 <= i < state.wakes.len(),
        state.wakes[i].key == key,
        state.wakes[i].version == batch.version,
        state.wakes[i].deliver_at_ms <= now_ms,
    ensures
        table::lookup(dispatcher::flushed(state, now_ms).0.pending, key) is None,
        exists|k: int|
            0 <= k < dispatcher::flushed(state, now_ms).1.len()
                && #[trigger] dispatcher::flushed(state, now_ms).1[k] == dispatch::batch_event(
                batch,
            ),
{
    dispatch::law_batch_comes_out_at_its_moment(state, key, i, now_ms);
    let due = dispatch::due_wakes(state.wakes, now_ms);
    lemma_came_out(state.pending, due, key, batch);
    let out = dispatch::flush_wakes(state.pending, due);
    let k = choose|k: int|
        0 <= k < out.events.len() && #[trigger] out.events[k] == dispatch::batch_event(batch);
    assert(dispatcher::flushed(state, now_ms).1[k] == dispatch::batch_event(batch));
}

/// What comes out at a moment are events of batches that were waiting, and nothing else.
pub proof fn law_only_waiting_batches_come_out(state: BatcherView, now_ms: u64, k: int)
    requires
        0 <= k < dispatcher::flushed(state, now_ms).1.len(),
    ensures
        exists|key: Seq<char>|
            #![trigger table::lookup(state.pending, key)]
            table::lookup(state.pending, key) matches Some(batch) && dispatcher::flushed(
                state,
                now_ms,
            ).1[k] == dispatch::batch_event(batch),
{
    lemma_events_of_batches(state.pending, dispatch::due_wakes(state.wakes, now_ms), k);
}

proof fn lemma_events_of_batches(
    pending: Seq<(Seq<char>, CiBatchView)>,
    wakes: Seq<WakeView>,
    k: int,
)
    requires
        0 <= k < dispatch::flush_wakes(pending, wakes).events.len(),
    ensures
        exists|key: Seq<char>|
            #![trigger table::lookup(pending, key)]
            table::lookup(pending, key) matches Some(batch) && dispatch::flush_wakes(
                pending,
                wakes,
            ).events[k] == dispatch::batch_event(batch),
    decreases wakes.len(),
{
    if wakes.len() > 0 {
        let before = dispatch::flush_wakes(pending, wakes.drop_last());
        let out = dispatch::flush_wakes(pending, wakes);
        if k < before.events.len() {
            lemma_events_of_batches(pending, wakes.drop_last(), k);
            assert(out.events[k] == before.events[k]);
        } else {
            let key = wakes.last().key;
            lemma_flush_leaves(pending, wakes.drop_last(), key);
            assert(table::lookup(pending, key) is Some);
        }
    }
}

proof fn lemma_flush_leaves(
    pending: Seq<(Seq<char>, CiBatchView)>,
    wakes: Seq<WakeView>,
    key: Seq<char>,
)
    ensures
        ({
            let left = table::lookup(dispatch::flush_wakes(pending, wakes).pending, key);
            left is None || left == table::lookup(pending, key)
        }),
    decreases wakes.len(),
{
    if wakes.len() > 0 {
        lemma_flush_leaves(pending, wakes.drop_last(), key);
        let before = dispatch::flush_wakes(pending, wakes.drop_last());
        table::law_without_then_lookup(before.pending, wakes.last().key, key);
    }
}

// ---------------------------------------------------------------------------
// What the dispatcher does
// ---------------------------------------------------------------------------

/// A CI job is never sent on by itself: behind what was due comes only the run that it
/// completes, if it does.
pub proof fn law_ci_jobs_are_gathered(
    state: BatcherView,
    event: EventView,
    now_ms: u64,
    window_ms: u64,
)
    requires
        events::canonical_kind(event.kind) == "github.ci-started"@ || events::canonical_kind(
            event.kind,
        ) == "github.ci-failed"@ || events::canonical_kind(event.kind) == "github.ci-passed"@
            || events::canonical_kind(event.kind) == "github.ci-cancelled"@,
    ensures
        ({
            let tick = dispatcher::handled(state, InputView::Tick, now_ms, window_ms);
            let out = dispatcher::handled(state, InputView::Event(event), now_ms, window_ms);
            &&& out.0 == tick.0.observed(event, now_ms, window_ms)
            &&& out.1 == tick.1 + tick.0.observed_events(event, now_ms, window_ms)
        }),
{
}

/// Every event of another kind goes out at once, as it is, behind what was due.
pub proof fn law_other_events_go_out(
    state: BatcherView,
    event: EventView,
    now_ms: u64,
    window_ms: u64,
)
    requires
        events::canonical_kind(event.kind) != "github.ci-started"@,
        events::canonical_kind(event.kind) != "github.ci-failed"@,
        events::canonical_kind(event.kind) != "github.ci-passed"@,
        events::canonical_kind(event.kind) != "github.ci-cancelled"@,
    ensures
        ({
            let tick = dispatcher::handled(state, InputView::Tick, now_ms, window_ms);
            let out = dispatcher::handled(state, InputView::Event(event), now_ms, window_ms);
            &&& out.0 == tick.0
            &&& out.1 == tick.1.push(event)
        }),
{
}

/// A delivery is sent where its sink is there and its text can be made; what is sent is the
/// delivery with that text.
pub proof fn law_delivery_is_sent(
    event: EventView,
    deliveries: Seq<DeliveryView>,
    sinks: Seq<Seq<char>>,
    i: int,
)
    requires
        0 <= i < deliveries.len(),
    ensures
        ({
            let steps = dispatcher::steps_of(event, deliveries, sinks);
            &&& steps.len() == deliveries.len()
            &&& !sinks.contains(deliveries[i].sink) ==> steps[i] == DeliveryStepView::MissingSink(
                deliveries[i],
            )
            &&& sinks.contains(deliveries[i].sink) ==> (match router::body_of(
                event,
                deliveries[i],
            ) {
                Ok(body) => steps[i] == DeliveryStepView::Send(deliveries[i], body),
                Err(e) => steps[i] == DeliveryStepView::Unrendered(deliveries[i], e),
            })
        }),
{
}

/// The message of a delivery has the kind and the payload of its event, the format of the
/// delivery and its text, with the mention before it where there is one.
pub proof fn law_message_of_a_delivery(
    event: EventView,
    delivery: DeliveryView,
    content: Seq<char>,
)
    ensures
        ({
            let m = dispatcher::message_of(event, delivery, content);
            &&& m.event_kind == events::canonical_kind(event.kind)
            &&& m.format == delivery.format
            &&& m.payload == event.payload
            &&& match delivery.mention {
                Some(mention) => if text::trimmed(mention).len() > 0 {
                    m.content == text::trimmed(mention) + " "@ + content
                } else {
                    m.content == content
                },
                None => m.content == content,
            }
        }),
{
}

} // verus!
