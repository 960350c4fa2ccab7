//! Cron schedules: reading them, and telling when they are due.
use vstd::prelude::*;
use vstd::string::*;

use crate::clock::CivilTime;
use crate::compose;
use crate::compose::{cat3, number};
use crate::scan;
use crate::scan::{parse_u8, split_at_each, split_once, words_of};
use crate::text;
use crate::text::{same, trim};

verus! {

// ---------------------------------------------------------------------------
// Fields
// ---------------------------------------------------------------------------

/// One field of a schedule.
#[derive(Debug)]
pub struct CronField {
    any: bool,
    allowed: Vec<u8>,
}

/// What a field allows.
pub struct FieldView {
    /// Every value is allowed.
    pub any: bool,
    /// The values that are allowed otherwise.
    pub allowed: Set<u8>,
}

impl View for CronField {
    type V = FieldView;

    closed spec fn view(&self) -> FieldView {
        FieldView { any: self.any, allowed: Set::new(|n: u8| self.allowed@.contains(n)) }
    }
}

impl FieldView {
    /// Tells whether a field allows a value.
    pub open spec fn allows(self, value: u8) -> bool {
        self.any || self.allowed.contains(value)
    }
}

/// The day of the week that a number stands for: both 0 and 7 are Sunday.
pub open spec fn normal(value: int, wrap_sunday: bool) -> int {
    if wrap_sunday && value == 7 {
        0
    } else {
        value
    }
}

/// A number of a field that must lie in a range.
pub open spec fn value_of(raw: Seq<char>, min: u8, max: u8) -> Result<u8, Seq<char>> {
    match scan::number_in(text::trimmed(raw), 255) {
        None => Err("invalid cron value '"@ + raw + "'"@),
        Some(n) => if min <= n <= max {
            Ok(n as u8)
        } else {
            Err(
                "cron value '"@ + raw + "' is outside "@ + compose::decimal(min as nat) + "..="@
                    + compose::decimal(max as nat),
            )
        },
    }
}

/// The range that the part of a field before any slash stands for.
pub open spec fn range_of(base: Seq<char>, min: u8, max: u8) -> Result<(u8, u8), Seq<char>> {
    if base == "*"@ {
        Ok((min, max))
    } else {
        match scan::split_first(base, '-') {
            Some((start, end)) => match value_of(start, min, max) {
                Err(e) => Err(e),
                Ok(a) => match value_of(end, min, max) {
                    Err(e) => Err(e),
                    Ok(b) => Ok((a, b)),
                },
            },
            None => match value_of(base, min, max) {
                Err(e) => Err(e),
                Ok(a) => Ok((a, a)),
            },
        }
    }
}

/// A part of a field: the range before any slash, and the step behind it.
pub open spec fn step_of(part: Seq<char>) -> Result<(Seq<char>, u8), Seq<char>> {
    match scan::split_first(part, '/') {
        Some((base, step)) => match scan::number_in(step, 255) {
            None => Err("invalid cron step '"@ + step + "'"@),
            Some(n) => if n == 0 {
                Err("cron step must be at least 1 in '"@ + part + "'"@)
            } else {
                Ok((base, n as u8))
            },
        },
        None => Ok((part, 1u8)),
    }
}

/// A value of a range that lies a multiple of the step behind its start.
pub open spec fn on_step(value: int, start: u8, end: int, step: u8) -> bool {
    start <= value <= end && (value - start) % (step as int) == 0
}

/// The values of a range that lie a multiple of the step behind its start.
pub open spec fn stepped(start: u8, end: u8, step: u8, wrap_sunday: bool) -> Set<u8> {
    Set::new(
        |n: u8|
            exists|v: int|
                #[trigger] on_step(v, start, end as int, step) && normal(v, wrap_sunday) == n,
    )
}

/// The values that one part of a field allows.
pub open spec fn part_values(
    field: Seq<char>,
    raw: Seq<char>,
    min: u8,
    max: u8,
    wrap_sunday: bool,
) -> Result<Set<u8>, Seq<char>> {
    let part = text::trimmed(raw);
    if part.len() == 0 {
        Err("invalid cron field '"@ + field + "'"@)
    } else {
        match step_of(part) {
            Err(e) => Err(e),
            Ok((base, step)) => match range_of(base, min, max) {
                Err(e) => Err(e),
                Ok((start, end)) => if start > end {
                    Err("invalid descending cron range '"@ + part + "'"@)
                } else {
                    Ok(stepped(start, end, step, wrap_sunday))
                },
            },
        }
    }
}

/// The values that some parts of a field allow; the first error among them.
pub open spec fn parts_values(
    field: Seq<char>,
    parts: Seq<Seq<char>>,
    min: u8,
    max: u8,
    wrap_sunday: bool,
) -> Result<Set<u8>, Seq<char>>
    decreases parts.len(),
{
    if parts.len() == 0 {
        Ok(Set::empty())
    } else {
        match parts_values(field, parts.drop_last(), min, max, wrap_sunday) {
            Err(e) => Err(e),
            Ok(before) => match part_values(field, parts.last(), min, max, wrap_sunday) {
                Err(e) => Err(e),
                Ok(more) => Ok(before.union(more)),
            },
        }
    }
}

/// What a field allows.
pub open spec fn field_of(spec_text: Seq<char>, min: u8, max: u8, wrap_sunday: bool) -> Result<
    FieldView,
    Seq<char>,
> {
    let field = text::trimmed(spec_text);
    if field.len() == 0 {
        Err("empty cron field"@)
    } else if field == "*"@ {
        Ok(FieldView { any: true, allowed: Set::empty() })
    } else {
        match parts_values(field, scan::split(field, ','), min, max, wrap_sunday) {
            Err(e) => Err(e),
            Ok(allowed) => Ok(FieldView { any: false, allowed }),
        }
    }
}

/// A field or an error, as they are.
pub open spec fn field_result(r: Result<CronField, String>) -> Result<FieldView, Seq<char>> {
    match r {
        Ok(f) => Ok(f@),
        Err(e) => Err(e@),
    }
}

/// A number or an error, as they are.
pub open spec fn value_result(r: Result<u8, String>) -> Result<u8, Seq<char>> {
    match r {
        Ok(n) => Ok(n),
        Err(e) => Err(e@),
    }
}

/// A pair of numbers or an error, as they are.
pub open spec fn range_result(r: Result<(u8, u8), String>) -> Result<(u8, u8), Seq<char>> {
    match r {
        Ok(p) => Ok(p),
        Err(e) => Err(e@),
    }
}

fn parse_field_value(raw: &str, min: u8, max: u8) -> (r: Result<u8, String>)
    ensures
        value_result(r) == value_of(raw@, min, max),
{
    match parse_u8(trim(raw)) {
        None => Err(cat3("invalid cron value '", raw, "'")),
        Some(n) => {
            if min <= n && n <= max {
                Ok(n)
            } else {
                Err(
                    compose::cat6(
                        "cron value '",
                        raw,
                        "' is outside ",
                        number(min as u64).as_str(),
                        "..=",
                        number(max as u64).as_str(),
                    ),
                )
            }
        },
    }
}

fn parse_range(base: &str, min: u8, max: u8) -> (r: Result<(u8, u8), String>)
    ensures
        range_result(r) == range_of(base@, min, max),
{
    if same(base, "*") {
        return Ok((min, max));
    }
    match split_once(base, '-') {
        Some((start, end)) => match parse_field_value(start, min, max) {
            Err(e) => Err(e),
            Ok(a) => match parse_field_value(end, min, max) {
                Err(e) => Err(e),
                Ok(b) => Ok((a, b)),
            },
        },
        None => match parse_field_value(base, min, max) {
            Err(e) => Err(e),
            Ok(a) => Ok((a, a)),
        },
    }
}

proof fn lemma_between_steps(value: int, between: int, start: u8, step: u8)
    requires
        step > 0,
        (value - start) % (step as int) == 0,
        value < between < value + step,
    ensures
        (between - start) % (step as int) != 0,
{
    let m = step as int;
    let a = (value - start) / m;
    let b = between - value;
    vstd::arithmetic::div_mod::lemma_fundamental_div_mod(value - start, m);
    vstd::arithmetic::div_mod::lemma_mod_multiples_vanish(a, b, m);
    vstd::arithmetic::div_mod::lemma_small_mod(b as nat, m as nat);
}

proof fn lemma_next_step(value: int, start: u8, step: u8)
    requires
        step > 0,
        (value - start) % (step as int) == 0,
    ensures
        (value + step - start) % (step as int) == 0,
{
    let m = step as int;
    vstd::arithmetic::div_mod::lemma_mod_multiples_vanish(1, value - start, m);
}

fn push_steps(allowed: &mut Vec<u8>, start: u8, end: u8, step: u8, wrap_sunday: bool)
    requires
        start <= end,
        step > 0,
    ensures
        forall|n: u8|
            final(allowed)@.contains(n) <==> old(allowed)@.contains(n) || stepped(
                start,
                end,
                step,
                wrap_sunday,
            ).contains(n),
{
    let ghost before = allowed@;
    let mut value: u8 = start;
    let mut done = false;
    assert(0int % (step as int) == 0) by {
        vstd::arithmetic::div_mod::lemma_small_mod(0, step as nat);
    }
    while !done
        invariant
            start <= value <= end,
            step > 0,
            (value - start) % (step as int) == 0,
            !done ==> forall|n: u8|
                allowed@.contains(n) <==> before.contains(n) || exists|v: int|
                    #[trigger] on_step(v, start, value - 1, step) && normal(v, wrap_sunday) == n,
            done ==> forall|n: u8|
                allowed@.contains(n) <==> before.contains(n) || exists|v: int|
                    #[trigger] on_step(v, start, end as int, step) && normal(v, wrap_sunday) == n,
        decreases (if done { 0int } else { end - value + 1 }),
    {
        let normalized: u8 = if wrap_sunday && value == 7 {
            0
        } else {
            value
        };
        let ghost so_far = allowed@;
        allowed.push(normalized);
        let ghost after = allowed@;
        let ghost here = value as int;
        proof {
            assert(after[so_far.len() as int] == normalized);
            assert forall|n: u8| after.contains(n) <==> so_far.contains(n) || n == normalized by {
                if so_far.contains(n) {
                    let i = choose|i: int| 0 <= i < so_far.len() && so_far[i] == n;
                    assert(after[i] == n);
                }
                if after.contains(n) && n != normalized {
                    let i = choose|i: int| 0 <= i < after.len() && after[i] == n;
                    assert(so_far[i] == n);
                }
            }
            lemma_next_step(here, start, step);
            assert forall|n: u8|
                after.contains(n) <==> before.contains(n) || exists|v: int|
                    #[trigger] on_step(v, start, here, step) && normal(v, wrap_sunday) == n by {
                assert(after.contains(n) <==> so_far.contains(n) || n == normalized);
                if before.contains(n) {
                    assert(so_far.contains(n));
                }
                if n == normalized {
                    assert(on_step(here, start, here, step) && normal(here, wrap_sunday) == n);
                }
                if so_far.contains(n) && !before.contains(n) {
                    let v = choose|v: int|
                        #[trigger] on_step(v, start, here - 1, step) && normal(v, wrap_sunday) == n;
                    assert(on_step(v, start, here, step));
                }
                if exists|v: int|
                    #[trigger] on_step(v, start, here, step) && normal(v, wrap_sunday) == n {
                    let v = choose|v: int|
                        #[trigger] on_step(v, start, here, step) && normal(v, wrap_sunday) == n;
                    if v != here {
                        assert(on_step(v, start, here - 1, step) && normal(v, wrap_sunday) == n);
                        assert(so_far.contains(n));
                    } else {
                        assert(n == normalized);
                    }
                }
            }
        }
        match value.checked_add(step) {
            Some(next) => {
                if next <= end {
                    proof {
                        lemma_gap(here, next - 1, start, step);
                        lemma_same_steps(after, before, here, next - 1, start, step, wrap_sunday);
                    }
                    value = next;
                } else {
                    proof {
                        lemma_gap(here, end as int, start, step);
                        lemma_same_steps(
                            after,
                            before,
                            here,
                            end as int,
                            start,
                            step,
                            wrap_sunday,
                        );
                    }
                    done = true;
                }
            },
            None => {
                proof {
                    lemma_gap(here, end as int, start, step);
                    lemma_same_steps(after, before, here, end as int, start, step, wrap_sunday);
                }
                done = true;
            },
        }
    }
}

proof fn lemma_gap(here: int, end: int, start: u8, step: u8)
    requires
        step > 0,
        start <= here <= end < here + step,
        (here - start) % (step as int) == 0,
    ensures
        forall|v: int|
            #[trigger] on_step(v, start, end, step) <==> on_step(v, start, here, step),
{
    assert forall|v: int|
        #[trigger] on_step(v, start, end, step) <==> on_step(v, start, here, step) by {
        if here < v <= end {
            lemma_between_steps(here, v, start, step);
        }
    }
}

proof fn lemma_same_steps(
    after: Seq<u8>,
    before: Seq<u8>,
    here: int,
    end: int,
    start: u8,
    step: u8,
    wrap_sunday: bool,
)
    requires
        forall|v: int|
            #[trigger] on_step(v, start, end, step) <==> on_step(v, start, here, step),
        forall|n: u8|
            after.contains(n) <==> before.contains(n) || exists|v: int|
                #[trigger] on_step(v, start, here, step) && normal(v, wrap_sunday) == n,
    ensures
        forall|n: u8|
            after.contains(n) <==> before.contains(n) || exists|v: int|
                #[trigger] on_step(v, start, end, step) && normal(v, wrap_sunday) == n,
{
    assert forall|n: u8|
        after.contains(n) <==> before.contains(n) || exists|v: int|
            #[trigger] on_step(v, start, end, step) && normal(v, wrap_sunday) == n by {
        if exists|v: int| #[trigger] on_step(v, start, here, step) && normal(v, wrap_sunday) == n {
            let v = choose|v: int|
                #[trigger] on_step(v, start, here, step) && normal(v, wrap_sunday) == n;
            assert(on_step(v, start, end, step));
        }
        if exists|v: int| #[trigger] on_step(v, start, end, step) && normal(v, wrap_sunday) == n {
            let v = choose|v: int|
                #[trigger] on_step(v, start, end, step) && normal(v, wrap_sunday) == n;
            assert(on_step(v, start, here, step));
        }
    }
}

/// The set of the values in a list.
pub open spec fn set_of(values: Seq<u8>) -> Set<u8> {
    Set::new(|n: u8| values.contains(n))
}

fn push_part_values(
    allowed: &mut Vec<u8>,
    field: &str,
    raw: &str,
    min: u8,
    max: u8,
    wrap_sunday: bool,
) -> (r: Option<String>)
    ensures
        match part_values(field@, raw@, min, max, wrap_sunday) {
            Ok(more) => r is None && set_of(final(allowed)@) == set_of(old(allowed)@).union(more),
            Err(e) => text::opt_text(r) == Some(e),
        },
{
    let part = trim(raw);
    if part.is_empty() {
        return Some(cat3("invalid cron field '", field, "'"));
    }
    let (base, step): (&str, u8) = match split_once(part, '/') {
        Some((base, step_text)) => match parse_u8(step_text) {
            None => return Some(cat3("invalid cron step '", step_text, "'")),
            Some(n) => {
                if n == 0 {
                    return Some(cat3("cron step must be at least 1 in '", part, "'"));
                }
                (base, n)
            },
        },
        None => (part, 1),
    };
    let (start, end): (u8, u8) = match parse_range(base, min, max) {
        Ok(range) => range,
        Err(e) => return Some(e),
    };
    if start > end {
        return Some(cat3("invalid descending cron range '", part, "'"));
    }
    push_steps(allowed, start, end, step, wrap_sunday);
    assert(set_of(allowed@) =~= set_of(old(allowed)@).union(
        stepped(start, end, step, wrap_sunday),
    ));
    None
}

impl CronField {
    /// Reads a field whose values lie in a range.
    pub fn parse(spec_text: &str, min: u8, max: u8, wrap_sunday: bool) -> (r: Result<Self, String>)
        ensures
            field_result(r) == field_of(spec_text@, min, max, wrap_sunday),
    {
        let field = trim(spec_text);
        if field.is_empty() {
            return Err("empty cron field".to_owned());
        }
        if same(field, "*") {
            let any = CronField { any: true, allowed: Vec::new() };
            assert(any@.allowed =~= Set::empty());
            return Ok(any);
        }
        let parts = split_at_each(field, ',');
        let ghost all = text::views(parts@);
        let mut allowed: Vec<u8> = Vec::new();
        let mut i: usize = 0;
        assert(set_of(allowed@) =~= Set::empty());
        while i < parts.len()
            invariant
                i <= parts.len(),
                all == text::views(parts@),
                all == scan::split(field@, ','),
                field@ == text::trimmed(spec_text@),
                field@.len() > 0,
                field@ != "*"@,
                parts_values(field@, all.take(i as int), min, max, wrap_sunday) == Ok::<
                    Set<u8>,
                    Seq<char>,
                >(set_of(allowed@)),
            decreases parts.len() - i,
        {
            assert(all.take(i + 1).drop_last() =~= all.take(i as int));
            assert(all.take(i + 1).last() == parts@[i as int]@);
            match push_part_values(
                &mut allowed,
                field,
                parts[i].as_str(),
                min,
                max,
                wrap_sunday,
            ) {
                Some(e) => {
                    proof {
                        lemma_first_error(field@, all, i as int, min, max, wrap_sunday);
                    }
                    return Err(e);
                },
                None => {},
            }
            i = i + 1;
        }
        assert(all.take(i as int) =~= all);
        let r = CronField { any: false, allowed };
        assert(r@.allowed =~= set_of(r.allowed@));
        Ok(r)
    }

    /// Tells whether this field allows a value.
    pub fn contains(&self, value: u8) -> (r: bool)
        ensures
            r == self@.allows(value),
    {
        if self.any {
            return true;
        }
        let mut i: usize = 0;
        while i < self.allowed.len()
            invariant
                i <= self.allowed.len(),
                !self.any,
                forall|j: int| 0 <= j < i ==> self.allowed@[j] != value,
            decreases self.allowed.len() - i,
        {
            if self.allowed[i] == value {
                assert(self.allowed@.contains(value));
                return true;
            }
            i = i + 1;
        }
        assert(!self.allowed@.contains(value));
        false
    }

    /// Tells whether this field allows every value.
    pub fn is_any(&self) -> (r: bool)
        ensures
            r == self@.any,
    {
        self.any
    }
}

proof fn lemma_first_error(
    field: Seq<char>,
    parts: Seq<Seq<char>>,
    i: int,
    min: u8,
    max: u8,
    wrap_sunday: bool,
)
    requires
        0 <= i < parts.len(),
        parts_values(field, parts.take(i), min, max, wrap_sunday) is Ok,
        part_values(field, parts[i], min, max, wrap_sunday) is Err,
    ensures
        parts_values(field, parts, min, max, wrap_sunday) == Err::<Set<u8>, Seq<char>>(
            part_values(field, parts[i], min, max, wrap_sunday)->Err_0,
        ),
    decreases parts.len(),
{
    if i == parts.len() - 1 {
        assert(parts.drop_last() =~= parts.take(i));
    } else {
        assert(parts.drop_last().take(i) =~= parts.take(i));
        lemma_first_error(field, parts.drop_last(), i, min, max, wrap_sunday);
    }
}

// ---------------------------------------------------------------------------
// Schedules
// ---------------------------------------------------------------------------

/// A schedule of five fields.
#[derive(Debug)]
pub struct CronSchedule {
    minute: CronField,
    hour: CronField,
    day_of_month: CronField,
    month: CronField,
    day_of_week: CronField,
}

/// What a schedule allows.
pub struct ScheduleView {
    pub minute: FieldView,
    pub hour: FieldView,
    pub day_of_month: FieldView,
    pub month: FieldView,
    pub day_of_week: FieldView,
}

impl View for CronSchedule {
    type V = ScheduleView;

    closed spec fn view(&self) -> ScheduleView {
        ScheduleView {
            minute: self.minute@,
            hour: self.hour@,
            day_of_month: self.day_of_month@,
            month: self.month@,
            day_of_week: self.day_of_week@,
        }
    }
}

impl ScheduleView {
    /// The day fits: in both fields where one of them allows every day, else in
    /// either of them.
    pub open spec fn fits_day(self, time: CivilTime) -> bool {
        if self.day_of_month.any || self.day_of_week.any {
            self.day_of_month.allows(time.day) && self.day_of_week.allows(time.weekday)
        } else {
            self.day_of_month.allows(time.day) || self.day_of_week.allows(time.weekday)
        }
    }

    /// The schedule is due.
    pub open spec fn fits(self, time: CivilTime) -> bool {
        self.minute.allows(time.minute) && self.hour.allows(time.hour) && self.month.allows(
            time.month,
        ) && self.fits_day(time)
    }
}

/// What is said of a schedule that has not five fields.
pub open spec fn wrong_fields(spec_text: Seq<char>) -> Seq<char> {
    "cron schedule '"@ + spec_text
        + "' must have exactly 5 fields (minute hour day-of-month month day-of-week)"@
}

/// What a schedule allows; the error of its first field that has one.
pub open spec fn schedule_of(spec_text: Seq<char>) -> Result<ScheduleView, Seq<char>> {
    let fields = scan::words(spec_text);
    if fields.len() != 5 {
        Err(wrong_fields(spec_text))
    } else {
        match field_of(fields[0], 0, 59, false) {
            Err(e) => Err(e),
            Ok(minute) => match field_of(fields[1], 0, 23, false) {
                Err(e) => Err(e),
                Ok(hour) => match field_of(fields[2], 1, 31, false) {
                    Err(e) => Err(e),
                    Ok(day_of_month) => match field_of(fields[3], 1, 12, false) {
                        Err(e) => Err(e),
                        Ok(month) => match field_of(fields[4], 0, 7, true) {
                            Err(e) => Err(e),
                            Ok(day_of_week) => Ok(
                                ScheduleView { minute, hour, day_of_month, month, day_of_week },
                            ),
                        },
                    },
                },
            },
        }
    }
}

/// A schedule or an error, as they are.
pub open spec fn schedule_result(r: Result<CronSchedule, String>) -> Result<
    ScheduleView,
    Seq<char>,
> {
    match r {
        Ok(s) => Ok(s@),
        Err(e) => Err(e@),
    }
}

impl CronSchedule {
    /// Reads a schedule: minute, hour, day of the month, month, day of the week.
    pub fn parse(spec_text: &str) -> (r: Result<Self, String>)
        ensures
            schedule_result(r) == schedule_of(spec_text@),
    {
        let fields = words_of(spec_text);
        assert(text::views(fields@).len() == fields@.len());
        if fields.len() != 5 {
            return Err(
                cat3(
                    "cron schedule '",
                    spec_text,
                    "' must have exactly 5 fields (minute hour day-of-month month day-of-week)",
                ),
            );
        }
        let minute = match CronField::parse(fields[0].as_str(), 0, 59, false) {
            Ok(f) => f,
            Err(e) => return Err(e),
        };
        let hour = match CronField::parse(fields[1].as_str(), 0, 23, false) {
            Ok(f) => f,
            Err(e) => return Err(e),
        };
        let day_of_month = match CronField::parse(fields[2].as_str(), 1, 31, false) {
            Ok(f) => f,
            Err(e) => return Err(e),
        };
        let month = match CronField::parse(fields[3].as_str(), 1, 12, false) {
            Ok(f) => f,
            Err(e) => return Err(e),
        };
        let day_of_week = match CronField::parse(fields[4].as_str(), 0, 7, true) {
            Ok(f) => f,
            Err(e) => return Err(e),
        };
        Ok(CronSchedule { minute, hour, day_of_month, month, day_of_week })
    }

    /// Tells whether this schedule is due at a time.
    pub fn matches(&self, time: CivilTime) -> (r: bool)
        ensures
            r == self@.fits(time),
    {
        let in_month = self.day_of_month.contains(time.day);
        let in_week = self.day_of_week.contains(time.weekday);
        let day = if self.day_of_month.is_any() || self.day_of_week.is_any() {
            in_month && in_week
        } else {
            in_month || in_week
        };
        self.minute.contains(time.minute) && self.hour.contains(time.hour) && self.month.contains(
            time.month,
        ) && day
    }
}

/// A field allows only values of its range, with 7 counted as 0 where it stands
/// for Sunday.
pub proof fn law_field_keeps_its_range(
    spec_text: Seq<char>,
    min: u8,
    max: u8,
    wrap_sunday: bool,
    value: u8,
)
    requires
        field_of(spec_text, min, max, wrap_sunday) matches Ok(f) && f.allowed.contains(value),
    ensures
        min <= value <= max || (wrap_sunday && value == 0 && min <= 7 <= max),
{
    let field = text::trimmed(spec_text);
    lemma_parts_in_range(field, scan::split(field, ','), min, max, wrap_sunday, value);
}

proof fn lemma_parts_in_range(
    field: Seq<char>,
    parts: Seq<Seq<char>>,
    min: u8,
    max: u8,
    wrap_sunday: bool,
    value: u8,
)
    requires
        parts_values(field, parts, min, max, wrap_sunday) matches Ok(s) && s.contains(value),
    ensures
        min <= value <= max || (wrap_sunday && value == 0 && min <= 7 <= max),
    decreases parts.len(),
{
    if parts.len() > 0 {
        let before = parts_values(field, parts.drop_last(), min, max, wrap_sunday)->Ok_0;
        if before.contains(value) {
            lemma_parts_in_range(field, parts.drop_last(), min, max, wrap_sunday, value);
        } else {
            let part = text::trimmed(parts.last());
            let (base, step) = step_of(part)->Ok_0;
            let (start, end) = range_of(base, min, max)->Ok_0;
            let v = choose|v: int|
                #[trigger] on_step(v, start, end as int, step) && normal(v, wrap_sunday) == value;
            assert(min <= start && end <= max);
        }
    }
}

} // verus!
