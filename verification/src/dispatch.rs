//! Gathering the jobs of a CI run into one event.
use vstd::prelude::*;
use vstd::string::*;

use std::time::Duration;

use crate::compose;
use crate::compose::{cat7, number};
use crate::config;
use crate::events::{EventView, IncomingEvent, MessageFormat};
use crate::json;
use crate::json::{Json, Node};
use crate::labels;
use crate::labels::first_of;
use crate::scan;
use crate::scan::{after_part, until_char};
use crate::table;
use crate::table::{find_entry, remove_entry, set_entry};
use crate::text;
use crate::text::{copy_opt, same};

verus! {

broadcast use {crate::json::group_trees, crate::text::views_push};

// ---------------------------------------------------------------------------
// What is gathered
// ---------------------------------------------------------------------------

/// A job of a CI run.
#[derive(Debug)]
pub struct BatchedCiJob {
    pub workflow: String,
    pub status: String,
    pub conclusion: Option<String>,
    pub url: String,
}

/// A job of a CI run.
pub struct CiJobView {
    pub workflow: Seq<char>,
    pub status: Seq<char>,
    pub conclusion: Option<Seq<char>>,
    pub url: Seq<char>,
}

impl View for BatchedCiJob {
    type V = CiJobView;

    open spec fn view(&self) -> CiJobView {
        CiJobView {
            workflow: self.workflow@,
            status: self.status@,
            conclusion: text::opt_text(self.conclusion),
            url: self.url@,
        }
    }
}

/// The jobs of a CI run that were seen so far.
#[derive(Debug)]
pub struct PendingCiBatch {
    pub repo: String,
    pub number: Option<u64>,
    pub branch: Option<String>,
    pub sha: String,
    pub url: String,
    pub channel: Option<String>,
    pub mention: Option<String>,
    pub format: Option<MessageFormat>,
    /// The jobs by workflow.
    pub jobs: Vec<(String, BatchedCiJob)>,
    pub expected_jobs: u64,
    pub run_all_terminal: bool,
    pub saw_in_progress: bool,
    pub deliver_at_ms: u64,
    pub version: u64,
}

/// The jobs of a CI run that were seen so far.
pub struct CiBatchView {
    pub repo: Seq<char>,
    pub number: Option<u64>,
    pub branch: Option<Seq<char>>,
    pub sha: Seq<char>,
    pub url: Seq<char>,
    pub channel: Option<Seq<char>>,
    pub mention: Option<Seq<char>>,
    pub format: Option<MessageFormat>,
    pub jobs: Seq<(Seq<char>, CiJobView)>,
    pub expected_jobs: u64,
    pub run_all_terminal: bool,
    pub saw_in_progress: bool,
    pub deliver_at_ms: u64,
    pub version: u64,
}

impl View for PendingCiBatch {
    type V = CiBatchView;

    open spec fn view(&self) -> CiBatchView {
        CiBatchView {
            repo: self.repo@,
            number: self.number,
            branch: text::opt_text(self.branch),
            sha: self.sha@,
            url: self.url@,
            channel: text::opt_text(self.channel),
            mention: text::opt_text(self.mention),
            format: self.format,
            jobs: table::pairs(self.jobs@),
            expected_jobs: self.expected_jobs,
            run_all_terminal: self.run_all_terminal,
            saw_in_progress: self.saw_in_progress,
            deliver_at_ms: self.deliver_at_ms,
            version: self.version,
        }
    }
}

/// A moment at which a batch is to be looked at. It counts only if the batch has
/// not changed since.
#[derive(Debug)]
pub struct ScheduledBatchKey {
    pub key: String,
    pub version: u64,
    pub deliver_at_ms: u64,
}

/// A moment at which a batch is to be looked at.
pub struct WakeView {
    pub key: Seq<char>,
    pub version: u64,
    pub deliver_at_ms: u64,
}

impl View for ScheduledBatchKey {
    type V = WakeView;

    open spec fn view(&self) -> WakeView {
        WakeView { key: self.key@, version: self.version, deliver_at_ms: self.deliver_at_ms }
    }
}

/// Gathers the jobs of CI runs.
#[derive(Debug)]
pub struct GitHubCiBatcher {
    pub pending: Vec<(String, PendingCiBatch)>,
    /// The moments to come, the earliest first.
    pub wakes: Vec<ScheduledBatchKey>,
    pub window: Duration,
}

/// The state of a gathering.
pub struct BatcherView {
    pub pending: Seq<(Seq<char>, CiBatchView)>,
    pub wakes: Seq<WakeView>,
}

impl View for GitHubCiBatcher {
    type V = BatcherView;

    open spec fn view(&self) -> BatcherView {
        BatcherView { pending: table::pairs(self.pending@), wakes: text::all_views(self.wakes@) }
    }
}

/// The length of a window in whole milliseconds.
pub open spec fn millis_in(window: Duration) -> u64 {
    (config::nanos_in(window) / 1_000_000) as u64
}

/// `std::time::Duration::as_millis`: the whole milliseconds of a duration.
pub assume_specification[ Duration::as_millis ](d: &Duration) -> (r: u128)
    ensures
        r == config::nanos_in(*d) / 1_000_000,
;

// ---------------------------------------------------------------------------
// Which run a job belongs to
// ---------------------------------------------------------------------------

/// The number of the run in the address of a job.
pub open spec fn run_id(url: Seq<char>) -> Option<Seq<char>> {
    match scan::after_first(url, "/actions/runs/"@, 0) {
        Some(tail) => {
            let id = scan::until(tail, '/');
            if id.len() > 0 {
                Some(id)
            } else {
                None
            }
        },
        None => None,
    }
}

/// The number of the run in the address of a job.
pub fn extract_run_id(url: &str) -> (r: Option<String>)
    ensures
        text::opt_text(r) == run_id(url@),
{
    match after_part(url, "/actions/runs/") {
        Some(tail) => {
            let id = until_char(tail, '/');
            if id.is_empty() {
                None
            } else {
                Some(id.to_owned())
            }
        },
        None => None,
    }
}

/// The text of a key as it stands, or another.
pub open spec fn raw_or(node: Node, key: Seq<char>, otherwise: Seq<char>) -> Seq<char> {
    labels::or_text(json::raw_field(node, key), otherwise)
}

fn raw_text_or(payload: &Json, key: &str, otherwise: &str) -> (r: String)
    ensures
        r@ == raw_or(payload@, key@, otherwise@),
{
    match payload.raw_field(key) {
        Some(s) => s.to_owned(),
        None => otherwise.to_owned(),
    }
}

fn raw_text(payload: &Json, key: &str) -> (r: Option<String>)
    ensures
        text::opt_text(r) == json::raw_field(payload@, key@),
{
    match payload.raw_field(key) {
        Some(s) => Some(s.to_owned()),
        None => None,
    }
}

/// What the jobs of one run have in common: repository, pull request, commit and
/// run.
pub open spec fn batch_key(payload: Node) -> Seq<char> {
    let url = raw_or(payload, "url"@, ""@);
    raw_or(payload, "repo"@, "unknown"@) + ":"@ + (match json::count(payload, "number"@) {
        Some(n) => compose::decimal(n as nat),
        None => "none"@,
    }) + ":"@ + raw_or(payload, "sha"@, "unknown"@) + ":"@ + labels::or_text(run_id(url), url)
}

/// What the jobs of one run have in common.
pub fn ci_batch_key(payload: &Json) -> (r: String)
    ensures
        r@ == batch_key(payload@),
{
    let repo = raw_text_or(payload, "repo", "unknown");
    let place = match payload.count("number") {
        Some(n) => number(n),
        None => "none".to_owned(),
    };
    let sha = raw_text_or(payload, "sha", "unknown");
    let url = raw_text_or(payload, "url", "");
    let run = match extract_run_id(url.as_str()) {
        Some(id) => id,
        None => url,
    };
    cat7(repo.as_str(), ":", place.as_str(), ":", sha.as_str(), ":", run.as_str())
}

/// How many jobs a run has.
pub open spec fn job_count(payload: Node) -> u64 {
    match json::count(payload, "run_job_count"@) {
        Some(n) => n,
        None => 1,
    }
}

fn ci_run_job_count(payload: &Json) -> (r: u64)
    ensures
        r == job_count(payload@),
{
    match payload.count("run_job_count") {
        Some(n) => n,
        None => 1,
    }
}

// ---------------------------------------------------------------------------
// One more job
// ---------------------------------------------------------------------------

/// A truth value of a key, or another.
pub open spec fn flag_or(payload: Node, key: Seq<char>, otherwise: bool) -> bool {
    match json::flag(payload, key) {
        Some(b) => b,
        None => otherwise,
    }
}

fn flag_value_or(payload: &Json, key: &str, otherwise: bool) -> (r: bool)
    ensures
        r == flag_or(payload@, key@, otherwise),
{
    match payload.flag(key) {
        Some(b) => b,
        None => otherwise,
    }
}

/// A batch that has no job yet.
pub open spec fn new_batch(event: EventView, deliver_at_ms: u64) -> CiBatchView {
    let p = event.payload;
    CiBatchView {
        repo: raw_or(p, "repo"@, "unknown"@),
        number: json::count(p, "number"@),
        branch: json::raw_field(p, "branch"@),
        sha: raw_or(p, "sha"@, ""@),
        url: raw_or(p, "url"@, ""@),
        channel: event.channel,
        mention: event.mention,
        format: event.format,
        jobs: Seq::empty(),
        expected_jobs: job_count(p),
        run_all_terminal: flag_or(p, "run_all_terminal"@, false),
        saw_in_progress: false,
        deliver_at_ms,
        version: 0,
    }
}

/// The job that an event tells of.
pub open spec fn job_in(event: EventView) -> CiJobView {
    let p = event.payload;
    CiJobView {
        workflow: raw_or(p, "workflow"@, "unknown"@),
        status: raw_or(p, "status"@, "unknown"@),
        conclusion: json::raw_field(p, "conclusion"@),
        url: raw_or(p, "url"@, ""@),
    }
}

/// A batch with one more job, or with a job that was seen before brought up to
/// date. What the event does not say stays as it was.
pub open spec fn with_job(batch: CiBatchView, event: EventView) -> CiBatchView {
    let p = event.payload;
    let job = job_in(event);
    CiBatchView {
        repo: raw_or(p, "repo"@, batch.repo),
        number: text::or_else(json::count(p, "number"@), batch.number),
        branch: text::or_else(json::raw_field(p, "branch"@), batch.branch),
        sha: raw_or(p, "sha"@, batch.sha),
        url: raw_or(p, "url"@, batch.url),
        channel: text::or_else(event.channel, batch.channel),
        mention: text::or_else(event.mention, batch.mention),
        format: text::or_else(event.format, batch.format),
        jobs: table::put(batch.jobs, job.workflow, job),
        expected_jobs: if job_count(p) > batch.expected_jobs {
            job_count(p)
        } else {
            batch.expected_jobs
        },
        run_all_terminal: flag_or(p, "run_all_terminal"@, batch.run_all_terminal),
        saw_in_progress: batch.saw_in_progress || job.status != "completed"@,
        deliver_at_ms: batch.deliver_at_ms,
        version: if batch.version == u64::MAX {
            0
        } else {
            (batch.version + 1) as u64
        },
    }
}

/// A job that has ended.
pub open spec fn is_terminal(job: CiJobView) -> bool {
    job.status == "completed"@
}

/// All jobs of a table have ended.
pub open spec fn all_terminal(jobs: Seq<(Seq<char>, CiJobView)>) -> bool {
    forall|i: int| 0 <= i < jobs.len() ==> is_terminal((#[trigger] jobs[i]).1)
}

/// A run of which every job was seen and has ended.
pub open spec fn is_complete(batch: CiBatchView) -> bool {
    batch.saw_in_progress && batch.run_all_terminal && batch.jobs.len() >= batch.expected_jobs
        && all_terminal(batch.jobs)
}

fn is_terminal_job(job: &BatchedCiJob) -> (r: bool)
    ensures
        r == is_terminal(job@),
{
    same(job.status.as_str(), "completed")
}

fn all_jobs_terminal(jobs: &Vec<(String, BatchedCiJob)>) -> (r: bool)
    ensures
        r == all_terminal(table::pairs(jobs@)),
{
    let ghost all = table::pairs(jobs@);
    let mut i: usize = 0;
    while i < jobs.len()
        invariant
            i <= jobs.len(),
            all == table::pairs(jobs@),
            forall|k: int| 0 <= k < i ==> is_terminal((#[trigger] all[k]).1),
        decreases jobs.len() - i,
    {
        assert(all[i as int].1 == jobs@[i as int].1@);
        if !is_terminal_job(&jobs[i].1) {
            return false;
        }
        i = i + 1;
    }
    true
}

fn start_batch(event: &IncomingEvent, deliver_at_ms: u64) -> (r: PendingCiBatch)
    ensures
        r@ == new_batch(event@, deliver_at_ms),
{
    let p = &event.payload;
    let r = PendingCiBatch {
        repo: raw_text_or(p, "repo", "unknown"),
        number: p.count("number"),
        branch: raw_text(p, "branch"),
        sha: raw_text_or(p, "sha", ""),
        url: raw_text_or(p, "url", ""),
        channel: copy_opt(&event.channel),
        mention: copy_opt(&event.mention),
        format: event.format,
        jobs: Vec::new(),
        expected_jobs: ci_run_job_count(p),
        run_all_terminal: flag_value_or(p, "run_all_terminal", false),
        saw_in_progress: false,
        deliver_at_ms,
        version: 0,
    };
    assert(table::pairs(r.jobs@) =~= Seq::<(Seq<char>, CiJobView)>::empty());
    r
}

fn add_job(batch: PendingCiBatch, event: &IncomingEvent) -> (r: PendingCiBatch)
    ensures
        r@ == with_job(batch@, event@),
{
    let p = &event.payload;
    let job = BatchedCiJob {
        workflow: raw_text_or(p, "workflow", "unknown"),
        status: raw_text_or(p, "status", "unknown"),
        conclusion: raw_text(p, "conclusion"),
        url: raw_text_or(p, "url", ""),
    };
    let ended = is_terminal_job(&job);
    let count = ci_run_job_count(p);
    let workflow = job.workflow.clone();
    let mut jobs = batch.jobs;
    set_entry(&mut jobs, workflow.as_str(), job);
    PendingCiBatch {
        repo: raw_text_or(p, "repo", batch.repo.as_str()),
        number: match p.count("number") {
            Some(n) => Some(n),
            None => batch.number,
        },
        branch: first_of(raw_text(p, "branch"), batch.branch),
        sha: raw_text_or(p, "sha", batch.sha.as_str()),
        url: raw_text_or(p, "url", batch.url.as_str()),
        channel: first_of(copy_opt(&event.channel), batch.channel),
        mention: first_of(copy_opt(&event.mention), batch.mention),
        format: match event.format {
            Some(f) => Some(f),
            None => batch.format,
        },
        jobs,
        expected_jobs: if count > batch.expected_jobs {
            count
        } else {
            batch.expected_jobs
        },
        run_all_terminal: flag_value_or(p, "run_all_terminal", batch.run_all_terminal),
        saw_in_progress: batch.saw_in_progress || !ended,
        deliver_at_ms: batch.deliver_at_ms,
        version: batch.version.wrapping_add(1),
    }
}

// ---------------------------------------------------------------------------
// The event of a batch
// ---------------------------------------------------------------------------

/// A job that passed.
pub open spec fn is_pass(job: CiJobView) -> bool {
    job.conclusion == Some("success"@) || job.conclusion == Some("neutral"@)
}

/// A job that was skipped.
pub open spec fn is_skip(job: CiJobView) -> bool {
    job.conclusion == Some("skipped"@)
}

/// A job that failed.
pub open spec fn is_failed(job: CiJobView) -> bool {
    job.conclusion == Some("failure"@) || job.conclusion == Some("timed_out"@) || job.conclusion
        == Some("startup_failure"@) || job.conclusion == Some("action_required"@)
}

/// A job that was cancelled.
pub open spec fn is_cancel(job: CiJobView) -> bool {
    job.conclusion == Some("cancelled"@)
}

/// How many jobs ended in each way.
pub struct Tally {
    pub passed: nat,
    pub skipped: nat,
    pub failed: nat,
    pub cancelled: nat,
}

/// How many jobs of a table ended in each way.
pub open spec fn tally(jobs: Seq<(Seq<char>, CiJobView)>) -> Tally
    decreases jobs.len(),
{
    if jobs.len() == 0 {
        Tally { passed: 0, skipped: 0, failed: 0, cancelled: 0 }
    } else {
        let t = tally(jobs.drop_last());
        let job = jobs.last().1;
        Tally {
            passed: t.passed + (if is_pass(job) {
                1nat
            } else {
                0
            }),
            skipped: t.skipped + (if is_skip(job) {
                1nat
            } else {
                0
            }),
            failed: t.failed + (if is_failed(job) {
                1nat
            } else {
                0
            }),
            cancelled: t.cancelled + (if is_cancel(job) {
                1nat
            } else {
                0
            }),
        }
    }
}

/// The kind of the event of a batch: a failure counts before anything else, and
/// a run that goes on is told as started.
pub open spec fn batch_kind(jobs: Seq<(Seq<char>, CiJobView)>) -> Seq<char> {
    let t = tally(jobs);
    if t.failed > 0 {
        "github.ci-failed"@
    } else if all_terminal(jobs) {
        if t.cancelled > 0 && t.passed == 0 && t.skipped == 0 {
            "github.ci-cancelled"@
        } else {
            "github.ci-passed"@
        }
    } else {
        "github.ci-started"@
    }
}

/// A job in a payload.
pub open spec fn job_node(job: CiJobView) -> Node {
    json::empty().with_text("workflow"@, job.workflow).with_text(
        "status"@,
        job.status,
    ).with_text_or_null("conclusion"@, job.conclusion).with_text("url"@, job.url)
}

/// The jobs in a payload, by workflow.
pub open spec fn job_nodes(jobs: Seq<(Seq<char>, CiJobView)>) -> Seq<Node> {
    Seq::new(jobs.len(), |i: int| job_node(jobs[i].1))
}

/// The larger of two numbers.
pub open spec fn larger(a: u64, b: nat) -> u64 {
    if b > a {
        b as u64
    } else {
        a
    }
}

/// What the event of a batch says of the run as a whole.
pub open spec fn batch_summary(batch: CiBatchView) -> Node {
    let t = tally(batch.jobs);
    json::empty().with_text("repo"@, batch.repo).with_count_or_null(
        "number"@,
        batch.number,
    ).with_text_or_null("branch"@, batch.branch).with_text("sha"@, batch.sha).with_text(
        "url"@,
        batch.url,
    ).with("batched"@, Node::Bool(true)).with_count(
        "total_count"@,
        larger(batch.expected_jobs, batch.jobs.len()),
    ).with_count("passed_count"@, t.passed as u64).with_count(
        "skipped_count"@,
        t.skipped as u64,
    ).with_count("failed_count"@, t.failed as u64).with_count(
        "cancelled_count"@,
        t.cancelled as u64,
    )
}

/// The event that tells of a batch.
pub open spec fn batch_event(batch: CiBatchView) -> EventView {
    EventView {
        kind: batch_kind(batch.jobs),
        channel: batch.channel,
        mention: batch.mention,
        format: batch.format,
        template: None,
        payload: batch_summary(batch).with("jobs"@, Node::List(job_nodes(batch.jobs))),
    }
}

fn ended_as(job: &BatchedCiJob, conclusion: &str) -> (r: bool)
    ensures
        r == (job@.conclusion == Some(conclusion@)),
{
    match &job.conclusion {
        Some(s) => same(s.as_str(), conclusion),
        None => false,
    }
}

fn is_failure(job: &BatchedCiJob) -> (r: bool)
    ensures
        r == is_failed(job@),
{
    ended_as(job, "failure") || ended_as(job, "timed_out") || ended_as(job, "startup_failure")
        || ended_as(job, "action_required")
}

fn job_json(job: &BatchedCiJob) -> (r: Json)
    ensures
        r@ == job_node(job@),
{
    Json::object().with_text("workflow", job.workflow.as_str()).with_text(
        "status",
        job.status.as_str(),
    ).with_text_or_null("conclusion", &job.conclusion).with_text("url", job.url.as_str())
}

fn event_of_batch(batch: &PendingCiBatch) -> (r: IncomingEvent)
    ensures
        r@ == batch_event(batch@),
{
    let ghost all = batch@.jobs;
    let n = batch.jobs.len();
    let mut nodes: Vec<Json> = Vec::new();
    let mut passed: u64 = 0;
    let mut skipped: u64 = 0;
    let mut failed: u64 = 0;
    let mut cancelled: u64 = 0;
    let mut i: usize = 0;
    assert(json::nodes(nodes@) =~= job_nodes(all.take(0)));
    while i < n
        invariant
            i <= n == batch.jobs.len(),
            all == batch@.jobs,
            json::nodes(nodes@) == job_nodes(all.take(i as int)),
            passed == tally(all.take(i as int)).passed,
            skipped == tally(all.take(i as int)).skipped,
            failed == tally(all.take(i as int)).failed,
            cancelled == tally(all.take(i as int)).cancelled,
            passed <= i,
            skipped <= i,
            failed <= i,
            cancelled <= i,
        decreases n - i,
    {
        let job = &batch.jobs[i].1;
        let ghost here = all.take(i + 1);
        assert(here.drop_last() =~= all.take(i as int));
        assert(here.last().1 == job@);
        let ghost before = json::nodes(nodes@);
        nodes.push(job_json(job));
        assert(json::nodes(nodes@) =~= job_nodes(here));
        if ended_as(job, "success") || ended_as(job, "neutral") {
            passed = passed + 1;
        }
        if ended_as(job, "skipped") {
            skipped = skipped + 1;
        }
        if is_failure(job) {
            failed = failed + 1;
        }
        if ended_as(job, "cancelled") {
            cancelled = cancelled + 1;
        }
        i = i + 1;
    }
    assert(all.take(i as int) =~= all);
    let kind = if failed > 0 {
        "github.ci-failed"
    } else if all_jobs_terminal(&batch.jobs) {
        if cancelled > 0 && passed == 0 && skipped == 0 {
            "github.ci-cancelled"
        } else {
            "github.ci-passed"
        }
    } else {
        "github.ci-started"
    };
    let total: u64 = if n as u64 > batch.expected_jobs {
        n as u64
    } else {
        batch.expected_jobs
    };
    let payload = Json::object().with_text("repo", batch.repo.as_str()).with_count_or_null(
        "number",
        batch.number,
    ).with_text_or_null("branch", &batch.branch).with_text("sha", batch.sha.as_str()).with_text(
        "url",
        batch.url.as_str(),
    ).with_flag("batched", true).with_count("total_count", total).with_count(
        "passed_count",
        passed,
    ).with_count("skipped_count", skipped).with_count("failed_count", failed).with_count(
        "cancelled_count",
        cancelled,
    ).with("jobs", Json::List(nodes));
    IncomingEvent {
        kind: kind.to_owned(),
        channel: copy_opt(&batch.channel),
        mention: copy_opt(&batch.mention),
        format: batch.format,
        template: None,
        payload,
    }
}

// ---------------------------------------------------------------------------
// Moments to come
// ---------------------------------------------------------------------------

/// The moments to come with one more, behind those that are no later.
pub open spec fn with_wake(wakes: Seq<WakeView>, wake: WakeView) -> Seq<WakeView>
    decreases wakes.len(),
{
    if wakes.len() == 0 || wakes.last().deliver_at_ms <= wake.deliver_at_ms {
        wakes.push(wake)
    } else {
        with_wake(wakes.drop_last(), wake).push(wakes.last())
    }
}

/// The moments that have come, in their order.
pub open spec fn due_wakes(wakes: Seq<WakeView>, now_ms: u64) -> Seq<WakeView>
    decreases wakes.len(),
{
    if wakes.len() == 0 {
        wakes
    } else if wakes.last().deliver_at_ms <= now_ms {
        due_wakes(wakes.drop_last(), now_ms).push(wakes.last())
    } else {
        due_wakes(wakes.drop_last(), now_ms)
    }
}

/// The moments that are still to come, in their order.
pub open spec fn later_wakes(wakes: Seq<WakeView>, now_ms: u64) -> Seq<WakeView>
    decreases wakes.len(),
{
    if wakes.len() == 0 {
        wakes
    } else if wakes.last().deliver_at_ms <= now_ms {
        later_wakes(wakes.drop_last(), now_ms)
    } else {
        later_wakes(wakes.drop_last(), now_ms).push(wakes.last())
    }
}

fn add_wake(wakes: &mut Vec<ScheduledBatchKey>, wake: ScheduledBatchKey)
    ensures
        text::all_views(final(wakes)@) == with_wake(text::all_views(old(wakes)@), wake@),
{
    let ghost all = text::all_views(wakes@);
    let ghost new = wake@;
    let mut i: usize = wakes.len();
    assert(all.take(i as int) =~= all);
    assert(all.skip(i as int) =~= Seq::<WakeView>::empty());
    assert(with_wake(all, new) =~= with_wake(all.take(i as int), new) + all.skip(i as int));
    while i > 0 && wakes[i - 1].deliver_at_ms > wake.deliver_at_ms
        invariant
            i <= wakes.len(),
            wakes@ == old(wakes)@,
            all == text::all_views(wakes@),
            new == wake@,
            with_wake(all, new) == with_wake(all.take(i as int), new) + all.skip(i as int),
        decreases i,
    {
        let ghost front = all.take(i as int);
        assert(front.last() == wakes@[i - 1]@);
        assert(front.drop_last() =~= all.take(i - 1));
        assert(with_wake(front.drop_last(), new).push(front.last()) + all.skip(i as int)
            =~= with_wake(front.drop_last(), new) + all.skip(i - 1)) by {
            assert(all.skip(i - 1) =~= seq![front.last()] + all.skip(i as int));
        }
        i = i - 1;
    }
    if i > 0 {
        assert(all.take(i as int).last() == wakes@[i - 1]@);
    }
    assert(with_wake(all.take(i as int), new) == all.take(i as int).push(new));
    wakes.insert(i, wake);
    assert(text::all_views(wakes@) =~= all.take(i as int).push(new) + all.skip(i as int));
}

fn take_due(wakes: &mut Vec<ScheduledBatchKey>, now_ms: u64) -> (r: Vec<ScheduledBatchKey>)
    ensures
        text::all_views(r@) == due_wakes(text::all_views(old(wakes)@), now_ms),
        text::all_views(final(wakes)@) == later_wakes(text::all_views(old(wakes)@), now_ms),
{
    let ghost all = text::all_views(wakes@);
    let n = wakes.len();
    let mut due: Vec<ScheduledBatchKey> = Vec::new();
    let mut later: Vec<ScheduledBatchKey> = Vec::new();
    let mut k: usize = 0;
    assert(text::all_views(due@) =~= due_wakes(all.take(0), now_ms));
    assert(text::all_views(later@) =~= later_wakes(all.take(0), now_ms));
    assert(all.skip(0) =~= all);
    while k < n
        invariant
            k <= n,
            n == all.len(),
            wakes@.len() == n - k,
            text::all_views(wakes@) == all.skip(k as int),
            text::all_views(due@) == due_wakes(all.take(k as int), now_ms),
            text::all_views(later@) == later_wakes(all.take(k as int), now_ms),
        decreases n - k,
    {
        let ghost rest = text::all_views(wakes@);
        let wake = wakes.remove(0);
        let ghost view = wake@;
        assert(rest[0] == view);
        assert(rest[0] == all[k as int]);
        assert(text::all_views(wakes@) =~= all.skip(k + 1)) by {
            assert forall|j: int| 0 <= j < wakes@.len() implies #[trigger] text::all_views(
                wakes@,
            )[j] == all.skip(k + 1)[j] by {
                assert(rest[j + 1] == all.skip(k as int)[j + 1]);
            }
        }
        assert(all.take(k + 1).drop_last() =~= all.take(k as int));
        if wake.deliver_at_ms <= now_ms {
            let ghost before = text::all_views(due@);
            due.push(wake);
            assert(text::all_views(due@) =~= before.push(view));
        } else {
            let ghost before = text::all_views(later@);
            later.push(wake);
            assert(text::all_views(later@) =~= before.push(view));
        }
        k = k + 1;
    }
    assert(all.take(k as int) =~= all);
    *wakes = later;
    due
}

// ---------------------------------------------------------------------------
// Gathering
// ---------------------------------------------------------------------------

/// Batches, and the events that came out of them.
pub struct Flushed {
    pub pending: Seq<(Seq<char>, CiBatchView)>,
    pub events: Seq<EventView>,
}

/// The batches after one was taken out, with its event if there was one.
pub open spec fn flush_one(before: Flushed, key: Seq<char>) -> Flushed {
    match table::lookup(before.pending, key) {
        Some(batch) => Flushed {
            pending: table::without(before.pending, key),
            events: before.events.push(batch_event(batch)),
        },
        None => before,
    }
}

/// The batches after those were taken out whose moment has come and that have
/// not changed since it was set.
pub open spec fn flush_wakes(pending: Seq<(Seq<char>, CiBatchView)>, wakes: Seq<WakeView>) -> Flushed
    decreases wakes.len(),
{
    if wakes.len() == 0 {
        Flushed { pending, events: Seq::empty() }
    } else {
        let before = flush_wakes(pending, wakes.drop_last());
        let wake = wakes.last();
        match table::lookup(before.pending, wake.key) {
            Some(batch) => if batch.version == wake.version {
                flush_one(before, wake.key)
            } else {
                before
            },
            None => before,
        }
    }
}

impl CiBatchView {
    /// The jobs stand in the order of their workflows, each under its own.
    pub open spec fn wf(self) -> bool {
        table::in_order(self.jobs) && forall|i: int|
            0 <= i < self.jobs.len() ==> (#[trigger] self.jobs[i]).0 == self.jobs[i].1.workflow
    }
}

/// Every batch of a table holds its jobs in order.
pub open spec fn batches_wf(pending: Seq<(Seq<char>, CiBatchView)>) -> bool {
    forall|i: int| 0 <= i < pending.len() ==> (#[trigger] pending[i]).1.wf()
}

proof fn lemma_found_batch_wf(pending: Seq<(Seq<char>, CiBatchView)>, key: Seq<char>)
    requires
        batches_wf(pending),
    ensures
        table::lookup(pending, key) matches Some(batch) ==> batch.wf(),
{
    if table::lookup(pending, key) is Some {
        let i = table::law_found_value_is_an_entry(pending, key);
        assert(pending[i].1.wf());
    }
}

proof fn lemma_put_batch_wf(
    pending: Seq<(Seq<char>, CiBatchView)>,
    key: Seq<char>,
    batch: CiBatchView,
)
    requires
        batches_wf(pending),
        batch.wf(),
    ensures
        batches_wf(table::put(pending, key, batch)),
{
    let after = table::put(pending, key, batch);
    assert forall|i: int| 0 <= i < after.len() implies (#[trigger] after[i]).1.wf() by {
        table::law_put_adds_only_its_entry(pending, key, batch, i);
        if after[i] != (key, batch) {
            let j = choose|j: int| 0 <= j < pending.len() && #[trigger] pending[j] == after[i];
            assert(pending[j].1.wf());
        }
    }
}

proof fn lemma_without_batch_wf(pending: Seq<(Seq<char>, CiBatchView)>, key: Seq<char>)
    requires
        batches_wf(pending),
    ensures
        batches_wf(table::without(pending, key)),
{
    let after = table::without(pending, key);
    assert forall|i: int| 0 <= i < after.len() implies (#[trigger] after[i]).1.wf() by {
        table::law_without_leaves_entries(pending, key, i);
        let j = choose|j: int| 0 <= j < pending.len() && #[trigger] pending[j] == after[i];
        assert(pending[j].1.wf());
    }
}

proof fn lemma_with_job_wf(batch: CiBatchView, event: EventView)
    requires
        batch.wf(),
    ensures
        with_job(batch, event).wf(),
{
    let job = job_in(event);
    let after = table::put(batch.jobs, job.workflow, job);
    table::law_put_keeps_order(batch.jobs, job.workflow, job);
    assert forall|i: int| 0 <= i < after.len() implies (#[trigger] after[i]).0
        == after[i].1.workflow by {
        table::law_put_adds_only_its_entry(batch.jobs, job.workflow, job, i);
        if after[i] != (job.workflow, job) {
            let j = choose|j: int| 0 <= j < batch.jobs.len() && #[trigger] batch.jobs[j] == after[i];
            assert(batch.jobs[j].0 == batch.jobs[j].1.workflow);
        }
    }
}

impl BatcherView {
    /// The batches stand in the order of their keys, and the jobs of each in that of
    /// their workflows.
    pub open spec fn wf(self) -> bool {
        table::in_order(self.pending) && batches_wf(self.pending)
    }

    /// The batch to which a job belongs, with the job in it.
    pub open spec fn batch_with(self, event: EventView, now_ms: u64, window_ms: u64) -> CiBatchView {
        with_job(
            match table::lookup(self.pending, batch_key(event.payload)) {
                Some(batch) => batch,
                None => new_batch(event, (now_ms + window_ms) as u64),
            },
            event,
        )
    }

    /// The state after a job was seen.
    pub open spec fn observed(self, event: EventView, now_ms: u64, window_ms: u64) -> BatcherView {
        let key = batch_key(event.payload);
        let batch = self.batch_with(event, now_ms, window_ms);
        BatcherView {
            pending: if is_complete(batch) {
                table::without(self.pending, key)
            } else {
                table::put(self.pending, key, batch)
            },
            wakes: with_wake(
                self.wakes,
                WakeView { key, version: batch.version, deliver_at_ms: batch.deliver_at_ms },
            ),
        }
    }

    /// The events that come out when a job is seen.
    pub open spec fn observed_events(self, event: EventView, now_ms: u64, window_ms: u64) -> Seq<
        EventView,
    > {
        let batch = self.batch_with(event, now_ms, window_ms);
        if is_complete(batch) {
            seq![batch_event(batch)]
        } else {
            Seq::empty()
        }
    }
}

proof fn lemma_batch_with_wf(state: BatcherView, event: EventView, now_ms: u64, window_ms: u64)
    requires
        state.wf(),
    ensures
        state.batch_with(event, now_ms, window_ms).wf(),
{
    let key = batch_key(event.payload);
    lemma_found_batch_wf(state.pending, key);
    match table::lookup(state.pending, key) {
        Some(batch) => lemma_with_job_wf(batch, event),
        None => lemma_with_job_wf(new_batch(event, (now_ms + window_ms) as u64), event),
    }
}

impl GitHubCiBatcher {
    /// A gathering with nothing in it.
    pub fn new(window: Duration) -> (r: Self)
        ensures
            r@.pending == Seq::<(Seq<char>, CiBatchView)>::empty(),
            r@.wakes == Seq::<WakeView>::empty(),
            r@.wf(),
            r.window == window,
    {
        let r = GitHubCiBatcher { pending: Vec::new(), wakes: Vec::new(), window };
        assert(table::pairs(r.pending@) =~= Seq::<(Seq<char>, CiBatchView)>::empty());
        assert(text::all_views(r.wakes@) =~= Seq::<WakeView>::empty());
        r
    }

    /// Takes in a job. Its run comes out as one event once every job of it was
    /// seen and has ended.
    pub fn observe(&mut self, event: &IncomingEvent, now_ms: u64) -> (r: Vec<IncomingEvent>)
        requires
            old(self)@.wf(),
            now_ms + millis_in(old(self).window) <= u64::MAX,
        ensures
            final(self)@ == old(self)@.observed(event@, now_ms, millis_in(old(self).window)),
            text::all_views(r@) == old(self)@.observed_events(
                event@,
                now_ms,
                millis_in(old(self).window),
            ),
            final(self)@.wf(),
            final(self).window == old(self).window,
    {
        let ghost before = self@;
        let key = ci_batch_key(&event.payload);
        let window_ms: u64 = self.window.as_millis() as u64;
        assert(window_ms == millis_in(self.window));
        let batch = match remove_entry(&mut self.pending, key.as_str()) {
            Some(batch) => batch,
            None => start_batch(event, now_ms + window_ms),
        };
        let ghost rest = table::pairs(self.pending@);
        let batch = add_job(batch, event);
        let ghost view = batch@;
        add_wake(
            &mut self.wakes,
            ScheduledBatchKey {
                key: key.clone(),
                version: batch.version,
                deliver_at_ms: batch.deliver_at_ms,
            },
        );
        proof {
            table::law_without_keeps_order(before.pending, key@);
            lemma_without_batch_wf(before.pending, key@);
            lemma_batch_with_wf(before, event@, now_ms, window_ms);
        }
        let mut out: Vec<IncomingEvent> = Vec::new();
        assert(table::pairs(batch.jobs@).len() == batch.jobs@.len());
        if batch.saw_in_progress && batch.run_all_terminal && batch.jobs.len() as u64
            >= batch.expected_jobs && all_jobs_terminal(&batch.jobs) {
            out.push(event_of_batch(&batch));
            assert(text::all_views(out@) =~= seq![batch_event(view)]);
        } else {
            set_entry(&mut self.pending, key.as_str(), batch);
            proof {
                table::law_put_keeps_order(rest, key@, view);
                table::law_without_then_put(before.pending, key@, view);
                lemma_put_batch_wf(before.pending, key@, view);
            }
            assert(text::all_views(out@) =~= Seq::<EventView>::empty());
        }
        out
    }

    fn flush_batch(&mut self, key: &str) -> (r: Option<IncomingEvent>)
        requires
            old(self)@.wf(),
        ensures
            final(self)@.wf(),
            final(self).window == old(self).window,
            final(self)@.wakes == old(self)@.wakes,
            match table::lookup(old(self)@.pending, key@) {
                Some(batch) => final(self)@.pending == table::without(old(self)@.pending, key@)
                    && table::opt_owned(r) == Some(batch_event(batch)),
                None => final(self)@.pending == old(self)@.pending && r is None,
            },
    {
        proof {
            table::law_without_keeps_order(self@.pending, key@);
            table::law_without_absent(self@.pending, key@);
            lemma_without_batch_wf(self@.pending, key@);
        }
        match remove_entry(&mut self.pending, key) {
            Some(batch) => Some(event_of_batch(&batch)),
            None => None,
        }
    }

    /// Takes out the batches whose moment has come.
    pub fn flush_due(&mut self, now_ms: u64) -> (r: Vec<IncomingEvent>)
        requires
            old(self)@.wf(),
        ensures
            ({
                let flushed = flush_wakes(
                    old(self)@.pending,
                    due_wakes(old(self)@.wakes, now_ms),
                );
                &&& final(self)@.pending == flushed.pending
                &&& final(self)@.wakes == later_wakes(old(self)@.wakes, now_ms)
                &&& text::all_views(r@) == flushed.events
            }),
            final(self)@.wf(),
            final(self).window == old(self).window,
    {
        let ghost start = self@.pending;
        let due = take_due(&mut self.wakes, now_ms);
        let ghost all = text::all_views(due@);
        let ghost later = self@.wakes;
        let mut out: Vec<IncomingEvent> = Vec::new();
        let mut i: usize = 0;
        assert(text::all_views(out@) =~= Seq::<EventView>::empty());
        while i < due.len()
            invariant
                i <= due.len(),
                all == text::all_views(due@),
                start == old(self)@.pending,
                self@.wf(),
                self@.wakes == later,
                self.window == old(self).window,
                self@.pending == flush_wakes(start, all.take(i as int)).pending,
                text::all_views(out@) == flush_wakes(start, all.take(i as int)).events,
            decreases due.len() - i,
        {
            let wake = &due[i];
            assert(all.take(i + 1).drop_last() =~= all.take(i as int));
            assert(all.take(i + 1).last() == wake@);
            let current = match find_entry(&self.pending, wake.key.as_str()) {
                Some(batch) => batch.version == wake.version,
                None => false,
            };
            if current {
                match self.flush_batch(wake.key.as_str()) {
                    Some(event) => {
                        let ghost before = text::all_views(out@);
                        let ghost view = event@;
                        out.push(event);
                        assert(text::all_views(out@) =~= before.push(view));
                    },
                    None => {},
                }
            }
            i = i + 1;
        }
        assert(all.take(i as int) =~= all);
        out
    }

    /// Takes out every batch, in the order of the keys.
    pub fn flush_all(&mut self) -> (r: Vec<IncomingEvent>)
        ensures
            final(self)@.pending == Seq::<(Seq<char>, CiBatchView)>::empty(),
            final(self)@.wakes == old(self)@.wakes,
            final(self)@.wf(),
            final(self).window == old(self).window,
            text::all_views(r@) == Seq::new(
                old(self)@.pending.len(),
                |i: int| batch_event(old(self)@.pending[i].1),
            ),
    {
        let ghost start = self@.pending;
        let mut out: Vec<IncomingEvent> = Vec::new();
        let mut i: usize = 0;
        while i < self.pending.len()
            invariant
                i <= self.pending.len(),
                self@ == old(self)@,
                self.window == old(self).window,
                start == self@.pending,
                text::all_views(out@) == Seq::new(i as nat, |k: int| batch_event(start[k].1)),
            decreases self.pending.len() - i,
        {
            let event = event_of_batch(&self.pending[i].1);
            let ghost before = text::all_views(out@);
            let ghost view = event@;
            out.push(event);
            assert(text::all_views(out@) =~= before.push(view));
            assert(text::all_views(out@) =~= Seq::new((i + 1) as nat, |k: int| batch_event(start[k].1)));
            i = i + 1;
        }
        self.pending = Vec::new();
        assert(self@.pending =~= Seq::<(Seq<char>, CiBatchView)>::empty());
        out
    }
}

// ---------------------------------------------------------------------------
// Laws
// ---------------------------------------------------------------------------

/// The event of a batch counts no job twice.
pub proof fn law_tally_counts_each_job_once(jobs: Seq<(Seq<char>, CiJobView)>)
    ensures
        tally(jobs).passed + tally(jobs).skipped + tally(jobs).failed + tally(jobs).cancelled
            <= jobs.len(),
    decreases jobs.len(),
{
    if jobs.len() > 0 {
        law_tally_counts_each_job_once(jobs.drop_last());
        reveal_strlit("success");
        reveal_strlit("neutral");
        reveal_strlit("skipped");
        reveal_strlit("failure");
        reveal_strlit("timed_out");
        reveal_strlit("startup_failure");
        reveal_strlit("action_required");
        reveal_strlit("cancelled");
        assert("success"@[0] == 's' && "success"@[1] == 'u');
        assert("neutral"@[0] == 'n');
        assert("skipped"@[0] == 's' && "skipped"@[1] == 'k');
        assert("failure"@[0] == 'f');
        assert("timed_out"@[0] == 't');
        assert("startup_failure"@[0] == 's' && "startup_failure"@[1] == 't');
        assert("action_required"@[0] == 'a');
        assert("cancelled"@[0] == 'c');
    }
}

/// A batch that came out when its run was complete is gone: the same run starts
/// a new one.
pub proof fn law_complete_run_leaves_nothing(
    state: BatcherView,
    event: EventView,
    now_ms: u64,
    window_ms: u64,
)
    requires
        state.observed_events(event, now_ms, window_ms).len() > 0,
    ensures
        table::lookup(
            state.observed(event, now_ms, window_ms).pending,
            batch_key(event.payload),
        ) is None,
{
    table::law_without_then_lookup(
        state.pending,
        batch_key(event.payload),
        batch_key(event.payload),
    );
}

/// A job that completes no run is kept: it stands in the batch of its run, and
/// the batches of other runs are as they were.
pub proof fn law_observed_job_is_kept(
    state: BatcherView,
    event: EventView,
    now_ms: u64,
    window_ms: u64,
    other: Seq<char>,
)
    requires
        state.observed_events(event, now_ms, window_ms).len() == 0,
        other != batch_key(event.payload),
    ensures
        table::lookup(
            state.observed(event, now_ms, window_ms).pending,
            batch_key(event.payload),
        ) matches Some(batch) && table::lookup(batch.jobs, job_in(event).workflow) == Some(
            job_in(event),
        ),
        table::lookup(state.observed(event, now_ms, window_ms).pending, other) == table::lookup(
            state.pending,
            other,
        ),
{
    let key = batch_key(event.payload);
    let batch = state.batch_with(event, now_ms, window_ms);
    table::law_put_then_lookup(state.pending, key, batch, other);
    let old_batch = match table::lookup(state.pending, key) {
        Some(b) => b,
        None => new_batch(event, (now_ms + window_ms) as u64),
    };
    table::law_put_then_lookup(
        old_batch.jobs,
        job_in(event).workflow,
        job_in(event),
        job_in(event).workflow,
    );
}

proof fn lemma_flushed_stays_away(
    pending: Seq<(Seq<char>, CiBatchView)>,
    wakes: Seq<WakeView>,
    n: int,
    key: Seq<char>,
)
    requires
        0 <= n <= wakes.len(),
        table::lookup(flush_wakes(pending, wakes.take(n)).pending, key) is None,
    ensures
        table::lookup(flush_wakes(pending, wakes).pending, key) is None,
    decreases wakes.len(),
{
    if n < wakes.len() {
        assert(wakes.drop_last().take(n) =~= wakes.take(n));
        lemma_flushed_stays_away(pending, wakes.drop_last(), n, key);
        let before = flush_wakes(pending, wakes.drop_last());
        table::law_without_then_lookup(before.pending, wakes.last().key, key);
    } else {
        assert(wakes.take(n) =~= wakes);
    }
}

proof fn lemma_untouched(
    pending: Seq<(Seq<char>, CiBatchView)>,
    wakes: Seq<WakeView>,
    key: Seq<char>,
)
    ensures
        table::lookup(flush_wakes(pending, wakes).pending, key) is None || table::lookup(
            flush_wakes(pending, wakes).pending,
            key,
        ) == table::lookup(pending, key),
    decreases wakes.len(),
{
    if wakes.len() > 0 {
        lemma_untouched(pending, wakes.drop_last(), key);
        let before = flush_wakes(pending, wakes.drop_last());
        table::law_without_then_lookup(before.pending, wakes.last().key, key);
    }
}

proof fn lemma_due_holds(wakes: Seq<WakeView>, i: int, now_ms: u64) -> (j: int)
    requires
        0 <= i < wakes.len(),
        wakes[i].deliver_at_ms <= now_ms,
    ensures
        0 <= j < due_wakes(wakes, now_ms).len(),
        due_wakes(wakes, now_ms)[j] == wakes[i],
    decreases wakes.len(),
{
    if i == wakes.len() - 1 {
        due_wakes(wakes, now_ms).len() - 1
    } else {
        lemma_due_holds(wakes.drop_last(), i, now_ms)
    }
}

/// A batch comes out, and is gone, once the moment has come that was set when it
/// last changed.
pub proof fn law_batch_comes_out_at_its_moment(
    state: BatcherView,
    key: Seq<char>,
    i: int,
    now_ms: u64,
)
    requires
        0 <= i < state.wakes.len(),
        state.wakes[i].key == key,
        state.wakes[i].deliver_at_ms <= now_ms,
        table::lookup(state.pending, key) matches Some(batch) && batch.version
            == state.wakes[i].version,
    ensures
        table::lookup(
            flush_wakes(state.pending, due_wakes(state.wakes, now_ms)).pending,
            key,
        ) is None,
{
    let due = due_wakes(state.wakes, now_ms);
    let j = lemma_due_holds(state.wakes, i, now_ms);
    let here = due.take(j + 1);
    assert(here.last() == due[j]);
    lemma_untouched(state.pending, here.drop_last(), key);
    let before = flush_wakes(state.pending, here.drop_last());
    table::law_without_then_lookup(before.pending, key, key);
    lemma_flushed_stays_away(state.pending, due, j + 1, key);
}

proof fn lemma_wake_is_set(wakes: Seq<WakeView>, wake: WakeView) -> (i: int)
    ensures
        0 <= i < with_wake(wakes, wake).len(),
        with_wake(wakes, wake)[i] == wake,
    decreases wakes.len(),
{
    if wakes.len() == 0 || wakes.last().deliver_at_ms <= wake.deliver_at_ms {
        wakes.len() as int
    } else {
        lemma_wake_is_set(wakes.drop_last(), wake)
    }
}

/// Whenever a job is seen, a moment is set for the batch as it then is, no later
/// than a window after the batch began.
pub proof fn law_observed_batch_has_a_moment(
    state: BatcherView,
    event: EventView,
    now_ms: u64,
    window_ms: u64,
) -> (i: int)
    ensures
        ({
            let after = state.observed(event, now_ms, window_ms);
            let batch = state.batch_with(event, now_ms, window_ms);
            &&& 0 <= i < after.wakes.len()
            &&& after.wakes[i].key == batch_key(event.payload)
            &&& after.wakes[i].version == batch.version
            &&& after.wakes[i].deliver_at_ms == batch.deliver_at_ms
            &&& match table::lookup(state.pending, batch_key(event.payload)) {
                Some(before) => batch.deliver_at_ms == before.deliver_at_ms,
                None => batch.deliver_at_ms == (now_ms + window_ms) as u64,
            }
        }),
{
    let batch = state.batch_with(event, now_ms, window_ms);
    lemma_wake_is_set(
        state.wakes,
        WakeView {
            key: batch_key(event.payload),
            version: batch.version,
            deliver_at_ms: batch.deliver_at_ms,
        },
    )
}

/// What is done with a gathering.
pub enum BatcherStep {
    Observe { event: EventView, now_ms: u64 },
    FlushDue { now_ms: u64 },
    FlushAll,
}

impl BatcherView {
    /// The state after a step.
    pub open spec fn stepped(self, step: BatcherStep, window_ms: u64) -> BatcherView {
        match step {
            BatcherStep::Observe { event, now_ms } => self.observed(event, now_ms, window_ms),
            BatcherStep::FlushDue { now_ms } => BatcherView {
                pending: flush_wakes(self.pending, due_wakes(self.wakes, now_ms)).pending,
                wakes: later_wakes(self.wakes, now_ms),
            },
            BatcherStep::FlushAll => BatcherView { pending: Seq::empty(), ..self },
        }
    }

    /// The state after some steps.
    pub open spec fn after_steps(self, steps: Seq<BatcherStep>, window_ms: u64) -> BatcherView
        decreases steps.len(),
    {
        if steps.len() == 0 {
            self
        } else {
            self.after_steps(steps.drop_last(), window_ms).stepped(steps.last(), window_ms)
        }
    }

    /// No unfinished job of a run was seen.
    pub open spec fn saw_only_finished(self, key: Seq<char>) -> bool {
        table::lookup(self.pending, key) matches Some(batch) ==> !batch.saw_in_progress
    }
}

/// A step that shows no unfinished job of a run.
pub open spec fn shows_only_finished(step: BatcherStep, key: Seq<char>) -> bool {
    step matches BatcherStep::Observe { event, now_ms } ==> batch_key(event.payload) == key
        ==> is_terminal(job_in(event))
}

proof fn lemma_saw_only_finished(
    state: BatcherView,
    step: BatcherStep,
    window_ms: u64,
    key: Seq<char>,
)
    requires
        state.saw_only_finished(key),
        shows_only_finished(step, key),
    ensures
        state.stepped(step, window_ms).saw_only_finished(key),
{
    match step {
        BatcherStep::Observe { event, now_ms } => {
            let here = batch_key(event.payload);
            let batch = state.batch_with(event, now_ms, window_ms);
            table::law_put_then_lookup(state.pending, here, batch, key);
            table::law_without_then_lookup(state.pending, here, key);
        },
        BatcherStep::FlushDue { now_ms } => {
            lemma_untouched(state.pending, due_wakes(state.wakes, now_ms), key);
        },
        BatcherStep::FlushAll => {},
    }
}

proof fn lemma_steps_saw_only_finished(
    state: BatcherView,
    steps: Seq<BatcherStep>,
    window_ms: u64,
    key: Seq<char>,
)
    requires
        table::lookup(state.pending, key) is None,
        forall|i: int| 0 <= i < steps.len() ==> shows_only_finished(#[trigger] steps[i], key),
    ensures
        state.after_steps(steps, window_ms).saw_only_finished(key),
    decreases steps.len(),
{
    if steps.len() > 0 {
        let front = steps.drop_last();
        assert forall|i: int| 0 <= i < front.len() implies shows_only_finished(
            #[trigger] front[i],
            key,
        ) by {
            assert(shows_only_finished(steps[i], key));
        }
        lemma_steps_saw_only_finished(state, front, window_ms, key);
        assert(shows_only_finished(steps[steps.len() - 1], key));
        lemma_saw_only_finished(
            state.after_steps(front, window_ms),
            steps.last(),
            window_ms,
            key,
        );
    }
}

/// A run of which no unfinished job was seen, since there was no batch of it, is not let
/// out when a job of it is seen, however many there are and whatever they say of the run:
/// it comes out at its moment, or in the end.
pub proof fn law_run_without_unfinished_job_waits(
    state: BatcherView,
    steps: Seq<BatcherStep>,
    window_ms: u64,
    event: EventView,
    now_ms: u64,
)
    requires
        table::lookup(state.pending, batch_key(event.payload)) is None,
        forall|i: int|
            0 <= i < steps.len() ==> shows_only_finished(
                #[trigger] steps[i],
                batch_key(event.payload),
            ),
        is_terminal(job_in(event)),
    ensures
        state.after_steps(steps, window_ms).observed_events(event, now_ms, window_ms)
            == Seq::<EventView>::empty(),
{
    lemma_steps_saw_only_finished(state, steps, window_ms, batch_key(event.payload));
}

/// The workflow of each job that the event of a batch lists.
pub open spec fn listed_workflow(event: EventView, i: int) -> Option<Seq<char>> {
    match json::items(event.payload, "jobs"@) {
        Some(jobs) => json::raw_field(jobs[i], "workflow"@),
        None => None,
    }
}

/// The event of a batch lists its jobs in the ascending order of their workflows.
pub proof fn law_jobs_are_listed_in_order(batch: CiBatchView, i: int, j: int)
    requires
        batch.wf(),
        0 <= i < j < batch.jobs.len(),
    ensures
        json::items(batch_event(batch).payload, "jobs"@) == Some(job_nodes(batch.jobs)),
        listed_workflow(batch_event(batch), i) == Some(batch.jobs[i].1.workflow),
        listed_workflow(batch_event(batch), j) == Some(batch.jobs[j].1.workflow),
        scan::comes_before(batch.jobs[i].1.workflow, batch.jobs[j].1.workflow),
{
    lemma_jobs_are_listed(batch);
    lemma_workflow_is_listed(batch.jobs[i].1);
    lemma_workflow_is_listed(batch.jobs[j].1);
    assert(scan::comes_before(batch.jobs[i].0, batch.jobs[j].0));
}

/// Every batch that comes out holds its jobs in the order of their workflows, be it that
/// its moment has come or that its run is complete.
pub proof fn law_batches_hold_jobs_in_order(
    state: BatcherView,
    key: Seq<char>,
    event: EventView,
    now_ms: u64,
    window_ms: u64,
)
    requires
        state.wf(),
    ensures
        table::lookup(state.pending, key) matches Some(batch) ==> batch.wf(),
        state.batch_with(event, now_ms, window_ms).wf(),
{
    lemma_found_batch_wf(state.pending, key);
    lemma_batch_with_wf(state, event, now_ms, window_ms);
}

proof fn lemma_jobs_are_listed(batch: CiBatchView)
    ensures
        json::items(batch_event(batch).payload, "jobs"@) == Some(job_nodes(batch.jobs)),
{
    json::law_with_then_member(
        batch_summary(batch),
        "jobs"@,
        Node::List(job_nodes(batch.jobs)),
        "jobs"@,
    );
}

proof fn lemma_workflow_is_listed(job: CiJobView)
    ensures
        json::raw_field(job_node(job), "workflow"@) == Some(job.workflow),
{
    reveal_strlit("workflow");
    reveal_strlit("status");
    reveal_strlit("conclusion");
    reveal_strlit("url");
    assert("workflow"@[0] == 'w' && "status"@[0] == 's' && "conclusion"@[0] == 'c' && "url"@[0]
        == 'u');
    let one = json::empty().with_text("workflow"@, job.workflow);
    let two = one.with_text("status"@, job.status);
    let three = two.with_text_or_null("conclusion"@, job.conclusion);
    let ending = match job.conclusion {
        Some(s) => Node::Text(s),
        None => Node::Null,
    };
    json::law_with_then_member(
        json::empty(),
        "workflow"@,
        Node::Text(job.workflow),
        "workflow"@,
    );
    json::law_with_then_member(one, "status"@, Node::Text(job.status), "workflow"@);
    json::law_with_then_member(two, "conclusion"@, ending, "workflow"@);
    json::law_with_then_member(three, "url"@, Node::Text(job.url), "workflow"@);
}

} // verus!
