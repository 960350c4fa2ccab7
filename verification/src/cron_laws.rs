//! When schedules are due, and what their jobs send.
use vstd::arithmetic::div_mod::*;
use vstd::prelude::*;
use vstd::string::*;

use crate::clock;
use crate::clock::CivilTime;
use crate::compose;
use crate::config::{JobKindView, JobView};
use crate::cron;
use crate::cron::ScheduledView;
use crate::events::EventView;
use crate::json;
use crate::json::Node;
use crate::json_laws;
use crate::scan;
use crate::schedule;
use crate::text;

verus! {

broadcast use json_laws::group_members;

// ---------------------------------------------------------------------------
// Numbers in decimal
// ---------------------------------------------------------------------------

/// A number in decimal is made of digits, and stands for that number when it is read.
pub proof fn law_decimal_is_read_back(n: nat)
    ensures
        compose::decimal(n).len() > 0,
        forall|i: int|
            0 <= i < compose::decimal(n).len() ==> scan::is_digit(
                #[trigger] compose::decimal(n)[i],
            ),
        scan::digits_value(compose::decimal(n)) == n,
    decreases n,
{
    let s = compose::decimal(n);
    if n < 10 {
        let c = compose::digit(n);
        assert(c as u32 == n + 48);
        assert(s =~= seq![c]);
        assert(s.drop_last() =~= Seq::empty());
        reveal_with_fuel(scan::digits_value, 2);
    } else {
        law_decimal_is_read_back(n / 10);
        let c = compose::digit(n % 10);
        assert(c as u32 == n % 10 + 48);
        assert(s.drop_last() =~= compose::decimal(n / 10));
        assert(s.last() == c);
        assert forall|i: int| 0 <= i < s.len() implies scan::is_digit(#[trigger] s[i]) by {
            if i < s.len() - 1 {
                assert(s[i] == compose::decimal(n / 10)[i]);
            }
        }
    }
}

proof fn lemma_trimmed_ends(s: Seq<char>)
    requires
        s.len() > 0,
        !text::is_white(s[0]),
        !text::is_white(s.last()),
    ensures
        text::trimmed(s) == s,
{
}

proof fn lemma_one_part(s: Seq<char>, sep: char)
    requires
        !s.contains(sep),
    ensures
        scan::split(s, sep) == seq![s],
        scan::split_first(s, sep) is None,
    decreases s.len(),
{
    if s.len() == 0 {
        assert(s =~= Seq::empty());
    } else {
        let front = s.drop_last();
        assert(!front.contains(sep)) by {
            if front.contains(sep) {
                let i = choose|i: int| 0 <= i < front.len() && front[i] == sep;
                assert(s[i] == sep);
            }
        }
        assert(s[s.len() - 1] != sep);
        lemma_one_part(front, sep);
        let before = scan::split(front, sep);
        assert(front.push(s.last()) =~= s);
        assert(before.drop_last().push(before.last().push(s.last())) =~= seq![s]);
    }
    lemma_no_separator(s, sep);
}

proof fn lemma_no_separator(s: Seq<char>, sep: char)
    requires
        !s.contains(sep),
    ensures
        scan::split_first(s, sep) is None,
    decreases s.len(),
{
    if s.len() > 0 {
        assert(s[0] != sep);
        let rest = s.drop_first();
        assert(!rest.contains(sep)) by {
            if rest.contains(sep) {
                let i = choose|i: int| 0 <= i < rest.len() && rest[i] == sep;
                assert(s[i + 1] == sep);
            }
        }
        lemma_no_separator(rest, sep);
    }
}

proof fn lemma_digits_only(s: Seq<char>, c: char)
    requires
        forall|i: int| 0 <= i < s.len() ==> scan::is_digit(#[trigger] s[i]),
        !scan::is_digit(c),
    ensures
        !s.contains(c),
{
}

// ---------------------------------------------------------------------------
// Fields
// ---------------------------------------------------------------------------

/// A value is one that a range with a step allows. Where 7 stands for Sunday it counts as 0.
pub open spec fn in_steps(value: int, first: int, last: int, step: int, sunday: bool) -> bool {
    ||| first <= value <= last && (value - first) % step == 0 && !(sunday && value == 7)
    ||| sunday && value == 0 && first <= 7 <= last && (7 - first) % step == 0
}

/// What one part of a field allows: a number, a range of two numbers or a star, each with a
/// step behind a slash or without.
pub open spec fn part_allows(part: Seq<char>, min: u8, max: u8, sunday: bool, value: u8) -> bool {
    let (base, step): (Seq<char>, int) = match scan::split_first(part, '/') {
        Some((base, behind)) => (
            base,
            match scan::number_in(behind, 255) {
                Some(n) => n as int,
                None => 0,
            },
        ),
        None => (part, 1),
    };
    if base == "*"@ {
        in_steps(value as int, min as int, max as int, step, sunday)
    } else {
        match scan::split_first(base, '-') {
            Some((a, b)) => match (
                scan::number_in(text::trimmed(a), 255),
                scan::number_in(text::trimmed(b), 255),
            ) {
                (Some(first), Some(last)) => in_steps(
                    value as int,
                    first as int,
                    last as int,
                    step,
                    sunday,
                ),
                _ => false,
            },
            None => match scan::number_in(text::trimmed(base), 255) {
                Some(n) => in_steps(value as int, n as int, n as int, step, sunday),
                None => false,
            },
        }
    }
}

proof fn lemma_stepped(start: u8, end: u8, step: u8, sunday: bool, value: u8)
    requires
        step > 0,
    ensures
        schedule::stepped(start, end, step, sunday).contains(value) == in_steps(
            value as int,
            start as int,
            end as int,
            step as int,
            sunday,
        ),
{
    let s = schedule::stepped(start, end, step, sunday);
    if s.contains(value) {
        let v = choose|v: int|
            #[trigger] schedule::on_step(v, start, end as int, step) && schedule::normal(v, sunday)
                == value;
    }
    if start <= value <= end && (value - start) % (step as int) == 0 && !(sunday && value == 7) {
        assert(schedule::on_step(value as int, start, end as int, step));
    }
    if sunday && value == 0 && start <= 7 <= end && (7 - start) % (step as int) == 0 {
        assert(schedule::on_step(7, start, end as int, step));
        assert(schedule::normal(7, sunday) == value);
    }
}

proof fn lemma_part(field: Seq<char>, raw: Seq<char>, min: u8, max: u8, sunday: bool, value: u8)
    requires
        schedule::part_values(field, raw, min, max, sunday) is Ok,
    ensures
        schedule::part_values(field, raw, min, max, sunday)->Ok_0.contains(value) == part_allows(
            text::trimmed(raw),
            min,
            max,
            sunday,
            value,
        ),
{
    let part = text::trimmed(raw);
    let (base, step) = schedule::step_of(part)->Ok_0;
    let (start, end) = schedule::range_of(base, min, max)->Ok_0;
    lemma_stepped(start, end, step, sunday, value);
}

proof fn lemma_parts(
    field: Seq<char>,
    parts: Seq<Seq<char>>,
    min: u8,
    max: u8,
    sunday: bool,
    value: u8,
)
    requires
        schedule::parts_values(field, parts, min, max, sunday) is Ok,
    ensures
        schedule::parts_values(field, parts, min, max, sunday)->Ok_0.contains(value) == (exists|
            i: int,
        |
            0 <= i < parts.len() && part_allows(
                text::trimmed(#[trigger] parts[i]),
                min,
                max,
                sunday,
                value,
            )),
    decreases parts.len(),
{
    if parts.len() > 0 {
        let front = parts.drop_last();
        lemma_parts(field, front, min, max, sunday, value);
        lemma_part(field, parts.last(), min, max, sunday, value);
        let here = exists|i: int|
            0 <= i < parts.len() && part_allows(
                text::trimmed(#[trigger] parts[i]),
                min,
                max,
                sunday,
                value,
            );
        let before = exists|i: int|
            0 <= i < front.len() && part_allows(
                text::trimmed(#[trigger] front[i]),
                min,
                max,
                sunday,
                value,
            );
        if before {
            let i = choose|i: int|
                0 <= i < front.len() && part_allows(
                    text::trimmed(#[trigger] front[i]),
                    min,
                    max,
                    sunday,
                    value,
                );
            assert(parts[i] == front[i]);
            assert(here);
        }
        if part_allows(text::trimmed(parts.last()), min, max, sunday, value) {
            assert(parts[parts.len() - 1] == parts.last());
            assert(here);
        }
        if here {
            let i = choose|i: int|
                0 <= i < parts.len() && part_allows(
                    text::trimmed(#[trigger] parts[i]),
                    min,
                    max,
                    sunday,
                    value,
                );
            if i < front.len() {
                assert(front[i] == parts[i]);
                assert(before);
            }
        }
    }
}

/// A field that can be read allows a value exactly where it is a star or where one of its
/// parts between commas allows it.
pub proof fn law_field_allows_what_its_parts_allow(
    spec_text: Seq<char>,
    min: u8,
    max: u8,
    sunday: bool,
    value: u8,
)
    requires
        schedule::field_of(spec_text, min, max, sunday) is Ok,
    ensures
        ({
            let field = text::trimmed(spec_text);
            let parts = scan::split(field, ',');
            schedule::field_of(spec_text, min, max, sunday)->Ok_0.allows(value) == (field == "*"@
                || exists|i: int|
                0 <= i < parts.len() && part_allows(
                    text::trimmed(#[trigger] parts[i]),
                    min,
                    max,
                    sunday,
                    value,
                ))
        }),
{
    let field = text::trimmed(spec_text);
    if field != "*"@ {
        lemma_parts(field, scan::split(field, ','), min, max, sunday, value);
    }
}

/// A field that is a number of its range can be read, and allows that number alone.
pub proof fn law_number_allows_itself(n: u8, min: u8, max: u8, sunday: bool, value: u8)
    requires
        min <= n <= max,
        !(sunday && n == 7),
    ensures
        schedule::field_of(compose::decimal(n as nat), min, max, sunday) matches Ok(f) && !f.any && (
        f.allows(value) <==> value == n),
{
    let s = compose::decimal(n as nat);
    law_decimal_is_read_back(n as nat);
    assert(scan::is_digit(s[0]) && scan::is_digit(s[s.len() - 1]));
    lemma_trimmed_ends(s);
    lemma_digits_only(s, ',');
    lemma_digits_only(s, '-');
    lemma_digits_only(s, '/');
    lemma_one_part(s, ',');
    lemma_no_separator(s, '-');
    lemma_no_separator(s, '/');
    reveal_strlit("*");
    assert("*"@[0] == '*');
    assert(s[0] != '+' && s[0] != '*');
    let parts = scan::split(s, ',');
    assert(parts.drop_last() =~= Seq::<Seq<char>>::empty());
    assert(parts.last() == s);
    reveal_with_fuel(schedule::parts_values, 2);
    assert(schedule::value_of(s, min, max) == Ok::<u8, Seq<char>>(n));
    assert(schedule::part_values(s, s, min, max, sunday) == Ok::<Set<u8>, Seq<char>>(
        schedule::stepped(n, n, 1, sunday),
    ));
    lemma_stepped(n, n, 1, sunday, value);
    assert((value - n) % 1 == 0);
}

/// A field that is a star allows everything.
pub proof fn law_star_allows_everything(min: u8, max: u8, sunday: bool, value: u8)
    ensures
        schedule::field_of("*"@, min, max, sunday) matches Ok(f) && f.any && f.allows(value),
{
    reveal_strlit("*");
    assert(!text::is_white("*"@[0]));
    lemma_trimmed_ends("*"@);
}

// ---------------------------------------------------------------------------
// Schedules
// ---------------------------------------------------------------------------

/// A schedule has five fields, for minute, hour, day of the month, month and day of the week,
/// and is due at a time only where each of minute, hour and month allows it. The days have to
/// be allowed by both fields where one of them is a star, and else by one of them.
pub proof fn law_schedule_is_due(spec_text: Seq<char>, time: CivilTime)
    requires
        schedule::schedule_of(spec_text) is Ok,
    ensures
        ({
            let words = scan::words(spec_text);
            let minute = schedule::field_of(words[0], 0, 59, false);
            let hour = schedule::field_of(words[1], 0, 23, false);
            let day = schedule::field_of(words[2], 1, 31, false);
            let month = schedule::field_of(words[3], 1, 12, false);
            let weekday = schedule::field_of(words[4], 0, 7, true);
            &&& words.len() == 5
            &&& minute is Ok && hour is Ok && day is Ok && month is Ok && weekday is Ok
            &&& schedule::schedule_of(spec_text)->Ok_0.fits(time) <==> {
                &&& minute->Ok_0.allows(time.minute)
                &&& hour->Ok_0.allows(time.hour)
                &&& month->Ok_0.allows(time.month)
                &&& (day->Ok_0.any || weekday->Ok_0.any) ==> day->Ok_0.allows(time.day)
                    && weekday->Ok_0.allows(time.weekday)
                &&& !(day->Ok_0.any || weekday->Ok_0.any) ==> day->Ok_0.allows(time.day)
                    || weekday->Ok_0.allows(time.weekday)
            }
        }),
{
}

/// A schedule with a number for its hour is due in that hour alone; so it is with the minute
/// and with the month.
pub proof fn law_fixed_field_is_kept(spec_text: Seq<char>, time: CivilTime, n: u8)
    requires
        schedule::schedule_of(spec_text) matches Ok(s) && s.fits(time),
    ensures
        ({
            let words = scan::words(spec_text);
            &&& n <= 59 && words[0] == compose::decimal(n as nat) ==> time.minute == n
            &&& n <= 23 && words[1] == compose::decimal(n as nat) ==> time.hour == n
            &&& 1 <= n <= 12 && words[3] == compose::decimal(n as nat) ==> time.month == n
            &&& 1 <= n <= 31 && words[2] == compose::decimal(n as nat) && words[4] == "*"@
                ==> time.day == n
            &&& n <= 6 && words[4] == compose::decimal(n as nat) && words[2] == "*"@
                ==> time.weekday == n
        }),
{
    law_schedule_is_due(spec_text, time);
    if n <= 59 {
        law_number_allows_itself(n, 0, 59, false, time.minute);
    }
    if n <= 23 {
        law_number_allows_itself(n, 0, 23, false, time.hour);
    }
    if 1 <= n <= 12 {
        law_number_allows_itself(n, 1, 12, false, time.month);
    }
    if 1 <= n <= 31 {
        law_number_allows_itself(n, 1, 31, false, time.day);
    }
    if n <= 6 {
        law_number_allows_itself(n, 0, 7, true, time.weekday);
    }
    law_star_allows_everything(1, 31, false, time.day);
    law_star_allows_everything(0, 7, true, time.weekday);
}

/// A schedule that has not five fields is refused, and so is one with a field that is.
pub proof fn law_unreadable_schedule_is_refused(spec_text: Seq<char>)
    ensures
        ({
            let words = scan::words(spec_text);
            schedule::schedule_of(spec_text) is Err <==> {
                ||| words.len() != 5
                ||| schedule::field_of(words[0], 0, 59, false) is Err
                ||| schedule::field_of(words[1], 0, 23, false) is Err
                ||| schedule::field_of(words[2], 1, 31, false) is Err
                ||| schedule::field_of(words[3], 1, 12, false) is Err
                ||| schedule::field_of(words[4], 0, 7, true) is Err
            }
        }),
{
}

/// A number beyond the range of its field is refused, and so is a range that descends and a
/// step of zero.
pub proof fn law_field_refuses(
    field: Seq<char>,
    part: Seq<char>,
    min: u8,
    max: u8,
    sunday: bool,
    n: nat,
)
    requires
        text::trimmed(part) == part,
        part.len() > 0,
    ensures
        scan::split_first(part, '/') matches Some((base, step)) && scan::number_in(step, 255)
            == Some(0nat) ==> schedule::part_values(field, part, min, max, sunday) is Err,
        scan::split_first(part, '/') is None && scan::split_first(part, '-') is None && part
            != "*"@ && scan::number_in(part, 255) == Some(n) && !(min <= n <= max)
            ==> schedule::part_values(field, part, min, max, sunday) is Err,
        scan::split_first(part, '/') is None && part != "*"@ && (scan::split_first(
            part,
            '-',
        ) matches Some((a, b)) && (scan::number_in(text::trimmed(a), 255) matches Some(x) && (
        scan::number_in(text::trimmed(b), 255) matches Some(y) && x > y)))
            ==> schedule::part_values(field, part, min, max, sunday) is Err,
{
}

// ---------------------------------------------------------------------------
// Jobs
// ---------------------------------------------------------------------------

proof fn lemma_event_names()
    ensures
        "message"@ != "cron_job_id"@,
        "message"@ != "cron_schedule"@,
        "message"@ != "cron_timezone"@,
        "cron_job_id"@ != "cron_schedule"@,
        "cron_job_id"@ != "cron_timezone"@,
        "cron_schedule"@ != "cron_timezone"@,
{
    reveal_strlit("message");
    reveal_strlit("cron_job_id");
    reveal_strlit("cron_schedule");
    reveal_strlit("cron_timezone");
    assert("message"@.len() == 7);
    assert("cron_job_id"@.len() == 11);
    assert("cron_schedule"@.len() == 13);
    assert("cron_schedule"@[5] == 's');
    assert("cron_timezone"@.len() == 13);
    assert("cron_timezone"@[5] == 't');
}

/// A job sends its message as one of the user's own, to its channel, with its mention and in
/// its format, and says which job it is.
pub proof fn law_event_of_a_job(job: JobView, message: Seq<char>)
    requires
        job.kind == (JobKindView::CustomMessage { message }),
    ensures
        ({
            let e = cron::job_event(job);
            &&& e.kind == "custom"@
            &&& e.channel == job.channel
            &&& e.mention == job.mention
            &&& e.format == job.format
            &&& e.template is None
            &&& json::member(e.payload, "message"@) == Some(Node::Text(message))
            &&& json::member(e.payload, "cron_job_id"@) == Some(Node::Text(job.id))
            &&& json::member(e.payload, "cron_schedule"@) == Some(Node::Text(job.schedule))
            &&& json::member(e.payload, "cron_timezone"@) == Some(Node::Text(job.timezone))
        }),
{
    lemma_event_names();
}

/// A job is sound where it has an id, a schedule that can be read, a message and UTC for its
/// time zone.
pub proof fn law_sound_job(job: JobView, message: Seq<char>)
    requires
        job.kind == (JobKindView::CustomMessage { message }),
    ensures
        cron::job_fault(job) is None <==> {
            &&& text::trimmed(job.id).len() > 0
            &&& text::trimmed(job.schedule).len() > 0
            &&& text::trimmed(message).len() > 0
            &&& text::trimmed(job.timezone) == "UTC"@ || text::trimmed(job.timezone)
                == "Etc/UTC"@
            &&& schedule::schedule_of(job.schedule) is Ok
        },
{
}

/// At a time the jobs that are due are those whose schedule is, all of them and in their
/// order, each with its id and its event.
pub proof fn law_jobs_due_at_a_time(jobs: Seq<ScheduledView>, time: CivilTime)
    requires
        forall|i: int|
            0 <= i < jobs.len() ==> text::trimmed((#[trigger] jobs[i]).config.timezone) == "UTC"@
                || text::trimmed(jobs[i].config.timezone) == "Etc/UTC"@,
    ensures
        cron::due_at(jobs, time).error is None,
        cron::due_at(jobs, time).events == jobs.filter(
            |job: ScheduledView| job.schedule.fits(time),
        ).map_values(|job: ScheduledView| (job.config.id, cron::job_event(job.config))),
    decreases jobs.len(),
{
    reveal(Seq::filter);
    let wanted = jobs.filter(|job: ScheduledView| job.schedule.fits(time)).map_values(
        |job: ScheduledView| (job.config.id, cron::job_event(job.config)),
    );
    if jobs.len() > 0 {
        let front = jobs.drop_last();
        assert forall|i: int| 0 <= i < front.len() implies text::trimmed(
            (#[trigger] front[i]).config.timezone,
        ) == "UTC"@ || text::trimmed(front[i].config.timezone) == "Etc/UTC"@ by {
            assert(jobs[i] == front[i]);
        }
        law_jobs_due_at_a_time(front, time);
        assert(jobs[jobs.len() - 1] == jobs.last());
        assert(cron::due_at(jobs, time).events =~= wanted);
    } else {
        assert(cron::due_at(jobs, time).events =~= wanted);
    }
}

/// The jobs of one minute are those that are due at the time of that minute.
pub proof fn law_jobs_due_in_a_minute(jobs: Seq<ScheduledView>, minute: int, time: CivilTime)
    requires
        clock::civil_at(minute * 60) == Ok::<CivilTime, Seq<char>>(time),
    ensures
        cron::due_between(jobs, minute, minute).events == cron::due_at(jobs, time).events,
        cron::due_between(jobs, minute, minute).error == cron::due_at(jobs, time).error,
{
    reveal_with_fuel(cron::due_between, 2);
    assert(Seq::<(Seq<char>, EventView)>::empty() + cron::due_at(jobs, time).events
        =~= cron::due_at(jobs, time).events);
}

/// Where nothing was dealt with yet only the present minute counts; else every minute since
/// the last one that was dealt with, up to the present one.
pub proof fn law_minutes_that_count(jobs: Seq<ScheduledView>, last: Option<i64>, now: int)
    requires
        jobs.len() > 0,
    ensures
        last is None ==> cron::due_now(jobs, last, now) == cron::due_between(
            jobs,
            now / 60,
            now / 60,
        ),
        last matches Some(minute) ==> cron::due_now(jobs, last, now) == cron::due_between(
            jobs,
            minute + 1,
            now / 60,
        ),
{
}

/// The scheduler knows the jobs that are enabled, in their order, each with its schedule.
pub proof fn law_enabled_jobs_are_scheduled(jobs: Seq<JobView>)
    requires
        cron::scheduled(jobs) is Ok,
    ensures
        ({
            let known = cron::scheduled(jobs)->Ok_0;
            let enabled = jobs.filter(|job: JobView| job.enabled);
            &&& known.len() == enabled.len()
            &&& forall|i: int|
                0 <= i < known.len() ==> (#[trigger] known[i]).config == enabled[i]
                    && schedule::schedule_of(enabled[i].schedule) == Ok::<
                    schedule::ScheduleView,
                    Seq<char>,
                >(known[i].schedule)
        }),
    decreases jobs.len(),
{
    reveal(Seq::filter);
    if jobs.len() > 0 {
        law_enabled_jobs_are_scheduled(jobs.drop_last());
    }
}

/// A job that is run by hand is the first with its id, and is sent only where it is enabled.
pub proof fn law_job_run_by_hand(jobs: Seq<JobView>, id: Seq<char>, i: int)
    requires
        0 <= i < jobs.len(),
        jobs[i].id == id,
        forall|j: int| 0 <= j < i ==> (#[trigger] jobs[j]).id != id,
    ensures
        jobs[i].enabled ==> cron::run_fault(jobs, id) == Ok::<JobView, Seq<char>>(jobs[i]),
        !jobs[i].enabled ==> cron::run_fault(jobs, id) == Err::<JobView, Seq<char>>(
            "cron job '"@ + id + "' is disabled"@,
        ),
    decreases jobs.len(),
{
    if i > 0 {
        assert(jobs[0].id != id);
        let rest = jobs.drop_first();
        assert forall|j: int| 0 <= j < i - 1 implies (#[trigger] rest[j]).id != id by {
            assert(jobs[j + 1].id != id);
        }
        law_job_run_by_hand(rest, id, i - 1);
    }
}

/// A job that is not there cannot be run by hand.
pub proof fn law_unknown_job_is_not_run(jobs: Seq<JobView>, id: Seq<char>)
    requires
        forall|j: int| 0 <= j < jobs.len() ==> (#[trigger] jobs[j]).id != id,
    ensures
        cron::run_fault(jobs, id) == Err::<JobView, Seq<char>>(
            "cron job '"@ + id + "' was not found"@,
        ),
    decreases jobs.len(),
{
    if jobs.len() > 0 {
        assert(jobs[0].id != id);
        let rest = jobs.drop_first();
        assert forall|j: int| 0 <= j < rest.len() implies (#[trigger] rest[j]).id != id by {
            assert(jobs[j + 1].id != id);
        }
        law_unknown_job_is_not_run(rest, id);
    }
}

// ---------------------------------------------------------------------------
// The calendar
// ---------------------------------------------------------------------------

/// The first of January 1970 is day zero, a Thursday.
pub proof fn law_calendar_begins(c: CivilTime)
    requires
        clock::is_civil(0, c),
    ensures
        clock::day_number(1970, 1, 1) == 0,
        c.weekday == 4,
        c.hour == 0,
        c.minute == 0,
{
}

proof fn lemma_fours(y: int)
    ensures
        y / 4 - (y - 1) / 4 == (if y % 4 == 0 {
            1int
        } else {
            0int
        }),
{
}

proof fn lemma_hundreds(y: int)
    ensures
        y / 100 - (y - 1) / 100 == (if y % 100 == 0 {
            1int
        } else {
            0int
        }),
        y % 100 == 0 ==> y % 4 == 0,
{
}

proof fn lemma_four_hundreds(y: int)
    ensures
        y / 400 - (y - 1) / 400 == (if y % 400 == 0 {
            1int
        } else {
            0int
        }),
        y % 400 == 0 ==> y % 100 == 0,
{
}

/// A day follows another, by the lengths that months and years have.
pub proof fn law_lengths_of_the_calendar(year: int)
    ensures
        ({
            let leap = year % 400 == 0 || (year % 4 == 0 && year % 100 != 0);
            let february: int = if leap {
                29
            } else {
                28
            };
            let length = |m: int|
                clock::days_before_month(year, m + 1) - clock::days_before_month(year, m);
            &&& length(1) == 31
            &&& length(2) == february
            &&& length(3) == 31
            &&& length(4) == 30
            &&& length(5) == 31
            &&& length(6) == 30
            &&& length(7) == 31
            &&& length(8) == 31
            &&& length(9) == 30
            &&& length(10) == 31
            &&& length(11) == 30
            &&& length(12) == 31
            &&& clock::days_before_year(year + 1) - clock::days_before_year(year) == (if leap {
                366int
            } else {
                365int
            })
        }),
{
    lemma_fours(year);
    lemma_hundreds(year);
    lemma_four_hundreds(year);
}

proof fn lemma_part_later(s: int, part: int, whole: int, n: int)
    requires
        0 < part,
        1 < n,
        whole == n * part,
    ensures
        (s + part) % whole / part == (s % whole / part + 1) % n,
{
    let q = s / whole;
    let r = s % whole;
    let k = r / part;
    let t = r % part;
    assert(0 < whole) by (nonlinear_arith)
        requires
            0 < part,
            1 < n,
            whole == n * part,
    ;
    lemma_fundamental_div_mod(s, whole);
    lemma_fundamental_div_mod(r, part);
    lemma_mod_bound(s, whole);
    lemma_mod_bound(r, part);
    assert(0 <= k < n) by (nonlinear_arith)
        requires
            0 <= r < n * part,
            r == part * k + t,
            0 <= t < part,
            0 < part,
    ;
    if k + 1 < n {
        assert((k + 1) * part + t < whole) by (nonlinear_arith)
            requires
                k + 1 < n,
                0 <= t < part,
                whole == n * part,
        ;
        assert(s + part == q * whole + (part * (k + 1) + t)) by (nonlinear_arith)
            requires
                s == whole * q + r,
                r == part * k + t,
        ;
        assert(0 <= part * (k + 1) + t < whole) by (nonlinear_arith)
            requires
                (k + 1) * part + t < whole,
                0 <= t,
                0 <= k,
                0 < part,
        ;
        lemma_fundamental_div_mod_converse(s + part, whole, q, part * (k + 1) + t);
        assert(part * (k + 1) + t == (k + 1) * part + t) by (nonlinear_arith);
        lemma_fundamental_div_mod_converse(part * (k + 1) + t, part, k + 1, t);
        lemma_small_mod((k + 1) as nat, n as nat);
    } else {
        assert(s + part == (q + 1) * whole + t) by (nonlinear_arith)
            requires
                s == whole * q + r,
                r == part * k + t,
                k + 1 == n,
                whole == n * part,
        ;
        assert(part <= whole) by (nonlinear_arith)
            requires
                whole == n * part,
                1 < n,
                0 < part,
        ;
        lemma_fundamental_div_mod_converse(s + part, whole, q + 1, t);
        assert(t == 0 * part + t);
        lemma_fundamental_div_mod_converse(t, part, 0, t);
        lemma_mod_self_0(n);
    }
}

proof fn lemma_day_later(s: int)
    ensures
        (s + 86400) % 3600 == s % 3600,
        (s + 86400) % 86400 == s % 86400,
        (s + 86400) / 86400 == s / 86400 + 1,
{
    lemma_mod_multiples_vanish(24, s, 3600);
    lemma_mod_multiples_vanish(1, s, 86400);
    lemma_div_plus_one(s, 86400);
}

proof fn lemma_hour_later(s: int)
    ensures
        (s + 3600) % 3600 == s % 3600,
{
    lemma_mod_multiples_vanish(1, s, 3600);
}

proof fn lemma_weekday(d: int)
    ensures
        (d + 1 + 4) % 7 == ((d + 4) % 7 + 1) % 7,
{
    lemma_mod_adds_one(d + 4);
}

proof fn lemma_mod_adds_one(d: int)
    ensures
        (d + 1) % 7 == (d % 7 + 1) % 7,
{
}

/// A minute later the clock says a minute more, an hour later an hour more, and a day later
/// the weekday is the next one.
pub proof fn law_clock_goes_on(s: int, now: CivilTime, later: CivilTime)
    requires
        clock::is_civil(s, now),
    ensures
        clock::is_civil(s + 60, later) ==> later.minute == (now.minute + 1) % 60,
        clock::is_civil(s + 3600, later) ==> later.minute == now.minute && later.hour == (now.hour
            + 1) % 24,
        clock::is_civil(s + 86400, later) ==> later.minute == now.minute && later.hour == now.hour
            && later.weekday == (now.weekday + 1) % 7,
{
    lemma_part_later(s, 60, 3600, 60);
    lemma_part_later(s, 3600, 86400, 24);
    lemma_hour_later(s);
    lemma_day_later(s);
    lemma_weekday(s / 86400);
}

} // verus!
