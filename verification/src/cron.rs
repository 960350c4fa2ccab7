//! Jobs that run on a schedule.
use vstd::prelude::*;
use vstd::string::*;

use std::sync::Arc;

use crate::clock;
use crate::clock::{minute_of, CivilTime};
use crate::compose::{cat3, cat4, cat5};
use crate::config::{AppConfig, CronJob, CronJobKind, JobKindView, JobView};
use crate::events::{EventView, IncomingEvent};
use crate::json;
use crate::paths;
use crate::paths::join_path;
use crate::schedule;
use crate::schedule::{CronSchedule, ScheduleView};
use crate::text;
use crate::text::{copy_opt, is_blank, same, trim};

verus! {

broadcast use crate::json::group_trees;

/// A source of events: the jobs of a configuration, and the file that remembers
/// which minutes were dealt with.
pub struct CronSource {
    pub config: Arc<AppConfig>,
    pub state_path: String,
}

impl CronSource {
    pub fn new(config: Arc<AppConfig>, state_path: String) -> (r: Self)
        ensures
            r.config == config,
            r.state_path == state_path,
    {
        CronSource { config, state_path }
    }
}

// ---------------------------------------------------------------------------
// Checking a job
// ---------------------------------------------------------------------------

/// The time zones that a job can name.
pub open spec fn is_utc(timezone: Seq<char>) -> bool {
    text::trimmed(timezone) == "UTC"@ || text::trimmed(timezone) == "Etc/UTC"@
}

fn timezone_is_supported(timezone: &str) -> (r: bool)
    ensures
        r == is_utc(timezone@),
{
    same(trim(timezone), "UTC") || same(trim(timezone), "Etc/UTC")
}

/// What is wrong with a job.
pub open spec fn job_fault(job: JobView) -> Option<Seq<char>> {
    if text::blank(job.id) {
        Some("cron jobs must set id"@)
    } else if text::blank(job.schedule) {
        Some("cron job '"@ + job.id + "' must set schedule"@)
    } else if job.kind matches JobKindView::CustomMessage { message } && text::blank(message) {
        Some("cron job '"@ + job.id + "' must set message"@)
    } else if !is_utc(job.timezone) {
        Some(
            "cron job '"@ + job.id + "' uses unsupported timezone '"@ + job.timezone
                + "'; the current vertical slice supports UTC only"@,
        )
    } else {
        match schedule::schedule_of(job.schedule) {
            Ok(_) => None,
            Err(e) => Some("cron job '"@ + job.id + "': "@ + e),
        }
    }
}

/// The outcome of a check, as what is wrong.
pub open spec fn fault_in(r: Result<(), String>) -> Option<Seq<char>> {
    match r {
        Ok(_) => None,
        Err(e) => Some(e@),
    }
}

/// Checks a job.
pub fn validate_job(job: &CronJob) -> (r: Result<(), String>)
    ensures
        fault_in(r) == job_fault(job@),
{
    if is_blank(job.id.as_str()) {
        return Err("cron jobs must set id".to_owned());
    }
    if is_blank(job.schedule.as_str()) {
        return Err(cat3("cron job '", job.id.as_str(), "' must set schedule"));
    }
    match &job.kind {
        CronJobKind::CustomMessage { message } => {
            if is_blank(message.as_str()) {
                return Err(cat3("cron job '", job.id.as_str(), "' must set message"));
            }
        },
    }
    if !timezone_is_supported(job.timezone.as_str()) {
        return Err(
            cat5(
                "cron job '",
                job.id.as_str(),
                "' uses unsupported timezone '",
                job.timezone.as_str(),
                "'; the current vertical slice supports UTC only",
            ),
        );
    }
    match CronSchedule::parse(job.schedule.as_str()) {
        Ok(_) => Ok(()),
        Err(e) => Err(cat4("cron job '", job.id.as_str(), "': ", e.as_str())),
    }
}

/// The file that remembers which minutes were dealt with: it stands beside the
/// configuration.
pub fn default_state_path(config_path: &str) -> (r: String)
    ensures
        r@ == paths::below(paths::parent_or_here(config_path@), "cron-state.json"@),
{
    let dir = paths::parent_or_dot(config_path);
    join_path(dir.as_str(), "cron-state.json")
}

// ---------------------------------------------------------------------------
// The event of a job
// ---------------------------------------------------------------------------

/// The event that a job sends.
pub open spec fn job_event(job: JobView) -> EventView {
    match job.kind {
        JobKindView::CustomMessage { message } => EventView {
            kind: "custom"@,
            channel: job.channel,
            mention: job.mention,
            format: job.format,
            template: None,
            payload: json::empty().with_text("message"@, message).with_text(
                "cron_job_id"@,
                job.id,
            ).with_text("cron_schedule"@, job.schedule).with_text("cron_timezone"@, job.timezone),
        },
    }
}

/// The event that a job sends.
pub fn build_job_event(job: &CronJob) -> (r: IncomingEvent)
    ensures
        r@ == job_event(job@),
{
    let event = match &job.kind {
        CronJobKind::CustomMessage { message } => IncomingEvent::custom(
            copy_opt(&job.channel),
            message.clone(),
        ),
    };
    let event = event.with_mention(copy_opt(&job.mention)).with_format(job.format);
    let IncomingEvent { kind, channel, mention, format, template, payload } = event;
    let payload = payload.with_text("cron_job_id", job.id.as_str()).with_text(
        "cron_schedule",
        job.schedule.as_str(),
    ).with_text("cron_timezone", job.timezone.as_str());
    IncomingEvent { kind, channel, mention, format, template, payload }
}

/// What keeps a job from being run by hand.
pub open spec fn run_fault(jobs: Seq<JobView>, id: Seq<char>) -> Result<JobView, Seq<char>>
    decreases jobs.len(),
{
    if jobs.len() == 0 {
        Err("cron job '"@ + id + "' was not found"@)
    } else if jobs[0].id == id {
        if jobs[0].enabled {
            Ok(jobs[0])
        } else {
            Err("cron job '"@ + id + "' is disabled"@)
        }
    } else {
        run_fault(jobs.drop_first(), id)
    }
}

/// The event of the first job with an id, where that job is enabled.
pub fn configured_job_event(jobs: &Vec<CronJob>, id: &str) -> (r: Result<IncomingEvent, String>)
    ensures
        match run_fault(text::all_views(jobs@), id@) {
            Ok(job) => r matches Ok(event) && event@ == job_event(job),
            Err(e) => r matches Err(m) && m@ == e,
        },
{
    let ghost all = text::all_views(jobs@);
    let mut i: usize = 0;
    assert(all.skip(0) =~= all);
    while i < jobs.len()
        invariant
            i <= jobs.len(),
            all == text::all_views(jobs@),
            run_fault(all, id@) == run_fault(all.skip(i as int), id@),
        decreases jobs.len() - i,
    {
        assert(all.skip(i as int).drop_first() =~= all.skip(i + 1));
        assert(all.skip(i as int)[0] == jobs@[i as int]@);
        if same(jobs[i].id.as_str(), id) {
            if !jobs[i].enabled {
                return Err(cat3("cron job '", id, "' is disabled"));
            }
            return Ok(build_job_event(&jobs[i]));
        }
        i = i + 1;
    }
    Err(cat3("cron job '", id, "' was not found"))
}

// ---------------------------------------------------------------------------
// The scheduler
// ---------------------------------------------------------------------------

/// A job with its schedule read.
#[derive(Debug)]
pub struct ScheduledCronJob {
    pub config: CronJob,
    pub schedule: CronSchedule,
}

/// A job with what its schedule allows.
pub struct ScheduledView {
    pub config: JobView,
    pub schedule: ScheduleView,
}

impl View for ScheduledCronJob {
    type V = ScheduledView;

    open spec fn view(&self) -> ScheduledView {
        ScheduledView { config: self.config@, schedule: self.schedule@ }
    }
}

/// Decides which jobs are due.
#[derive(Debug)]
pub struct CronScheduler {
    pub jobs: Vec<ScheduledCronJob>,
    /// The last minute that was dealt with, counted from the beginning of 1970.
    pub last_processed_minute: Option<i64>,
}

/// The enabled jobs with their schedules read; the first error among them.
pub open spec fn scheduled(jobs: Seq<JobView>) -> Result<Seq<ScheduledView>, Seq<char>>
    decreases jobs.len(),
{
    if jobs.len() == 0 {
        Ok(Seq::empty())
    } else {
        match scheduled(jobs.drop_last()) {
            Err(e) => Err(e),
            Ok(before) => if jobs.last().enabled {
                match schedule::schedule_of(jobs.last().schedule) {
                    Err(e) => Err(e),
                    Ok(s) => Ok(before.push(ScheduledView { config: jobs.last(), schedule: s })),
                }
            } else {
                Ok(before)
            },
        }
    }
}

proof fn lemma_first_unreadable(jobs: Seq<JobView>, i: int)
    requires
        0 <= i < jobs.len(),
        scheduled(jobs.take(i)) is Ok,
        jobs[i].enabled,
        schedule::schedule_of(jobs[i].schedule) is Err,
    ensures
        scheduled(jobs) == Err::<Seq<ScheduledView>, Seq<char>>(
            schedule::schedule_of(jobs[i].schedule)->Err_0,
        ),
    decreases jobs.len(),
{
    if i == jobs.len() - 1 {
        assert(jobs.drop_last() =~= jobs.take(i));
    } else {
        assert(jobs.drop_last().take(i) =~= jobs.take(i));
        lemma_first_unreadable(jobs.drop_last(), i);
    }
}

/// Events that are due, and what stopped the search for them.
pub struct DueView {
    pub events: Seq<(Seq<char>, EventView)>,
    pub error: Option<Seq<char>>,
}

/// Events that are due, each with the id of its job, and what stopped the search
/// for them.
pub struct DueEvents {
    pub events: Vec<(String, IncomingEvent)>,
    pub error: Option<String>,
}

impl View for DueEvents {
    type V = DueView;

    open spec fn view(&self) -> DueView {
        DueView {
            events: crate::table::pairs(self.events@),
            error: text::opt_text(self.error),
        }
    }
}

/// The jobs that are due at a time, in their order, up to one whose time zone
/// cannot be told.
pub open spec fn due_at(jobs: Seq<ScheduledView>, time: CivilTime) -> DueView
    decreases jobs.len(),
{
    if jobs.len() == 0 {
        DueView { events: Seq::empty(), error: None }
    } else {
        let before = due_at(jobs.drop_last(), time);
        let job = jobs.last();
        if before.error is Some {
            before
        } else if !is_utc(job.config.timezone) {
            DueView {
                events: before.events,
                error: Some(
                    "cron job '"@ + job.config.id + "' uses unsupported timezone '"@
                        + job.config.timezone + "'"@,
                ),
            }
        } else if job.schedule.fits(time) {
            DueView {
                events: before.events.push((job.config.id, job_event(job.config))),
                error: None,
            }
        } else {
            before
        }
    }
}

/// The jobs that are due in the minutes from one to another, minute by minute.
pub open spec fn due_between(jobs: Seq<ScheduledView>, first: int, last: int) -> DueView
    decreases last - first + 1,
{
    if first > last {
        DueView { events: Seq::empty(), error: None }
    } else {
        let before = due_between(jobs, first, last - 1);
        if before.error is Some {
            before
        } else {
            match clock::civil_at(last * 60) {
                Err(e) => DueView { events: before.events, error: Some(e) },
                Ok(time) => {
                    let now = due_at(jobs, time);
                    DueView { events: before.events + now.events, error: now.error }
                },
            }
        }
    }
}

/// The first minute that is still to be dealt with.
pub open spec fn first_minute(last_processed: Option<i64>, now: int) -> int {
    match last_processed {
        Some(minute) => minute + 1,
        None => now / 60,
    }
}

/// The jobs that are due now, with those of the minutes since the last look.
pub open spec fn due_now(jobs: Seq<ScheduledView>, last_processed: Option<i64>, now: int) -> DueView {
    if jobs.len() == 0 {
        DueView { events: Seq::empty(), error: None }
    } else {
        due_between(jobs, first_minute(last_processed, now), now / 60)
    }
}

proof fn lemma_due_stops(jobs: Seq<ScheduledView>, first: int, stop: int, last: int)
    requires
        first <= stop + 1,
        stop <= last,
        due_between(jobs, first, stop).error is Some,
    ensures
        due_between(jobs, first, last) == due_between(jobs, first, stop),
    decreases last - stop,
{
    if stop < last {
        lemma_due_stops(jobs, first, stop, last - 1);
    }
}

proof fn lemma_due_at_stops(jobs: Seq<ScheduledView>, i: int, time: CivilTime)
    requires
        0 <= i <= jobs.len(),
        due_at(jobs.take(i), time).error is Some,
    ensures
        due_at(jobs, time) == due_at(jobs.take(i), time),
    decreases jobs.len(),
{
    if i < jobs.len() {
        assert(jobs.drop_last().take(i) =~= jobs.take(i));
        lemma_due_at_stops(jobs.drop_last(), i, time);
    } else {
        assert(jobs.take(i) =~= jobs);
    }
}

impl CronScheduler {
    /// A scheduler for the enabled jobs. `last_processed_minute` is what was
    /// remembered of an earlier run.
    pub fn new(jobs: &Vec<CronJob>, last_processed_minute: Option<i64>) -> (r: Result<Self, String>)
        ensures
            match scheduled(text::all_views(jobs@)) {
                Ok(s) => r matches Ok(scheduler) && text::all_views(scheduler.jobs@) == s
                    && scheduler.last_processed_minute == last_processed_minute,
                Err(e) => r matches Err(m) && m@ == e,
            },
    {
        let ghost all = text::all_views(jobs@);
        let mut out: Vec<ScheduledCronJob> = Vec::new();
        let mut i: usize = 0;
        assert(text::all_views(out@) =~= Seq::<ScheduledView>::empty());
        while i < jobs.len()
            invariant
                i <= jobs.len(),
                all == text::all_views(jobs@),
                scheduled(all.take(i as int)) == Ok::<Seq<ScheduledView>, Seq<char>>(
                    text::all_views(out@),
                ),
            decreases jobs.len() - i,
        {
            assert(all.take(i + 1).drop_last() =~= all.take(i as int));
            assert(all.take(i + 1).last() == jobs@[i as int]@);
            if jobs[i].enabled {
                match CronSchedule::parse(jobs[i].schedule.as_str()) {
                    Err(e) => {
                        proof {
                            lemma_first_unreadable(all, i as int);
                        }
                        return Err(e);
                    },
                    Ok(schedule) => {
                        let ghost before = text::all_views(out@);
                        let job = ScheduledCronJob { config: jobs[i].clone(), schedule };
                        let ghost view = job@;
                        out.push(job);
                        assert(text::all_views(out@) =~= before.push(view));
                    },
                }
            }
            i = i + 1;
        }
        assert(all.take(i as int) =~= all);
        Ok(CronScheduler { jobs: out, last_processed_minute })
    }

    /// The events that are due now, with those of the minutes since the last
    /// look.
    pub fn due_events(&self, now: i64) -> (r: DueEvents)
        requires
            clock::in_calendar(now as int),
            self.last_processed_minute matches Some(m) ==> i64::MIN / 60 <= m < i64::MAX,
        ensures
            r@ == due_now(text::all_views(self.jobs@), self.last_processed_minute, now as int),
    {
        let ghost jobs = text::all_views(self.jobs@);
        let mut events: Vec<(String, IncomingEvent)> = Vec::new();
        assert(crate::table::pairs(events@) =~= Seq::<(Seq<char>, EventView)>::empty());
        if self.jobs.len() == 0 {
            return DueEvents { events, error: None };
        }
        let current = minute_of(now);
        let first: i64 = match self.last_processed_minute {
            Some(minute) => minute + 1,
            None => current,
        };
        let mut minute: i64 = first;
        while minute <= current
            invariant
                jobs == text::all_views(self.jobs@),
                jobs.len() > 0,
                current == now as int / 60,
                first == first_minute(self.last_processed_minute, now as int),
                first <= minute,
                minute <= current + 1 || minute == first,
                i64::MIN / 60 < first,
                due_between(jobs, first as int, minute - 1) == (DueView {
                    events: crate::table::pairs(events@),
                    error: None,
                }),
            decreases current - minute + 1,
        {
            let ghost before = crate::table::pairs(events@);
            match CivilTime::at(minute * 60) {
                Err(e) => {
                    proof {
                        lemma_due_stops(jobs, first as int, minute as int, current as int);
                    }
                    return DueEvents { events, error: Some(e) };
                },
                Ok(time) => {
                    match self.push_due(&mut events, time) {
                        Some(e) => {
                            proof {
                                lemma_due_stops(jobs, first as int, minute as int, current as int);
                            }
                            return DueEvents { events, error: Some(e) };
                        },
                        None => {},
                    }
                },
            }
            minute = minute + 1;
        }
        DueEvents { events, error: None }
    }

    fn push_due(&self, events: &mut Vec<(String, IncomingEvent)>, time: CivilTime) -> (r: Option<
        String,
    >)
        ensures
            ({
                let due = due_at(text::all_views(self.jobs@), time);
                &&& crate::table::pairs(final(events)@) == crate::table::pairs(old(events)@)
                    + due.events
                &&& text::opt_text(r) == due.error
            }),
    {
        let ghost jobs = text::all_views(self.jobs@);
        let ghost before = crate::table::pairs(events@);
        let mut i: usize = 0;
        while i < self.jobs.len()
            invariant
                i <= self.jobs.len(),
                jobs == text::all_views(self.jobs@),
                before == crate::table::pairs(old(events)@),
                crate::table::pairs(events@) == before + due_at(jobs.take(i as int), time).events,
                due_at(jobs.take(i as int), time).error is None,
            decreases self.jobs.len() - i,
        {
            let job = &self.jobs[i];
            assert(jobs.take(i + 1).drop_last() =~= jobs.take(i as int));
            assert(jobs.take(i + 1).last() == job@);
            if !timezone_is_supported(job.config.timezone.as_str()) {
                proof {
                    lemma_due_at_stops(jobs, i + 1, time);
                }
                return Some(
                    cat5(
                        "cron job '",
                        job.config.id.as_str(),
                        "' uses unsupported timezone '",
                        job.config.timezone.as_str(),
                        "'",
                    ),
                );
            }
            if job.schedule.matches(time) {
                events.push((job.config.id.clone(), build_job_event(&job.config)));
            }
            i = i + 1;
        }
        assert(jobs.take(i as int) =~= jobs);
        None
    }

    /// Remembers that the minutes up to now were dealt with.
    pub fn mark_processed(&mut self, now: i64)
        ensures
            final(self).jobs == old(self).jobs,
            final(self).last_processed_minute == Some((now as int / 60) as i64),
    {
        self.last_processed_minute = Some(minute_of(now));
    }
}

// ---------------------------------------------------------------------------
// Laws
// ---------------------------------------------------------------------------

/// A job does not run twice in one minute: once the minute of a moment was dealt
/// with, nothing is due in the rest of that minute, nor before it.
pub proof fn law_no_second_run_in_a_minute(jobs: Seq<ScheduledView>, before: i64, now: i64)
    requires
        now as int / 60 <= before as int / 60,
    ensures
        due_now(jobs, Some((before as int / 60) as i64), now as int) == (DueView {
            events: Seq::empty(),
            error: None,
        }),
{
}

/// No minute is left out and none is taken twice: what is due over a span is what
/// is due over its first part, and then over the rest of it.
pub proof fn law_due_minute_by_minute(jobs: Seq<ScheduledView>, first: int, middle: int, last: int)
    requires
        first <= middle + 1,
        middle <= last,
        due_between(jobs, first, middle).error is None,
    ensures
        due_between(jobs, first, last).events == due_between(jobs, first, middle).events
            + due_between(jobs, middle + 1, last).events,
        due_between(jobs, first, last).error == due_between(jobs, middle + 1, last).error,
    decreases last - middle,
{
    let whole = due_between(jobs, first, last);
    let head = due_between(jobs, first, middle);
    let tail = due_between(jobs, middle + 1, last);
    if middle < last {
        law_due_minute_by_minute(jobs, first, middle, last - 1);
        assert(whole.events =~= head.events + tail.events);
    } else {
        assert(whole.events =~= head.events + tail.events);
    }
}

} // verus!
