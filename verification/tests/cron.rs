use clawhip::clock::{minute_of, CivilTime};
use clawhip::config::{CronJob, CronJobKind};
use clawhip::cron::{
    build_job_event, configured_job_event, default_state_path, validate_job, CronScheduler,
};
use clawhip::events::{IncomingEvent, MessageFormat};
use clawhip::json::Json;
use clawhip::schedule::{CronField, CronSchedule};

fn sample_jobs(schedule: &str) -> Vec<CronJob> {
    vec![CronJob {
        id: "dev-followup".into(),
        schedule: schedule.into(),
        timezone: "UTC".into(),
        enabled: true,
        channel: Some("ops".into()),
        mention: Some("<@bot>".into()),
        format: Some(MessageFormat::Alert),
        kind: CronJobKind::CustomMessage { message: "check open PRs".into() },
    }]
}

fn seconds(month: time::Month, day: u8, hour: u8, minute: u8, second: u8) -> i64 {
    let date = time::Date::from_calendar_date(2026, month, day).unwrap();
    let time = time::Time::from_hms(hour, minute, second).unwrap();
    time::PrimitiveDateTime::new(date, time).assume_utc().unix_timestamp()
}

fn emit_due(scheduler: &mut CronScheduler, emitted: &mut Vec<IncomingEvent>, now: i64) {
    let due = scheduler.due_events(now);
    assert!(due.error.is_none());
    for (_, event) in due.events {
        emitted.push(event);
    }
    scheduler.mark_processed(now);
}

fn text_at<'a>(payload: &'a Json, key: &str) -> Option<&'a str> {
    payload.get(key).and_then(Json::as_str)
}

#[test]
fn scheduler_emits_matching_custom_job_once_per_minute() {
    let mut scheduler = CronScheduler::new(&sample_jobs("*/10 * * * *"), None).expect("scheduler");
    let mut events = Vec::new();

    emit_due(&mut scheduler, &mut events, seconds(time::Month::April, 2, 8, 20, 3));
    emit_due(&mut scheduler, &mut events, seconds(time::Month::April, 2, 8, 20, 55));
    emit_due(&mut scheduler, &mut events, seconds(time::Month::April, 2, 8, 30, 1));

    assert_eq!(events.len(), 2);
    assert_eq!(events[0].channel.as_deref(), Some("ops"));
    assert_eq!(events[0].mention.as_deref(), Some("<@bot>"));
    assert_eq!(events[0].format, Some(MessageFormat::Alert));
    assert_eq!(text_at(&events[0].payload, "message"), Some("check open PRs"));
    assert_eq!(text_at(&events[0].payload, "cron_job_id"), Some("dev-followup"));
}

#[test]
fn scheduler_restart_does_not_refire_jobs_for_same_minute() {
    let jobs = sample_jobs("*/10 * * * *");
    let mut events = Vec::new();

    let mut first = CronScheduler::new(&jobs, None).expect("first scheduler");
    emit_due(&mut first, &mut events, seconds(time::Month::April, 2, 8, 20, 3));

    let mut restarted =
        CronScheduler::new(&jobs, first.last_processed_minute).expect("restarted scheduler");
    emit_due(&mut restarted, &mut events, seconds(time::Month::April, 2, 8, 20, 45));

    assert_eq!(events.len(), 1);
}

#[test]
fn scheduler_restart_still_emits_on_next_matching_minute() {
    let jobs = sample_jobs("*/10 * * * *");
    let mut events = Vec::new();

    let mut first = CronScheduler::new(&jobs, None).expect("first scheduler");
    emit_due(&mut first, &mut events, seconds(time::Month::April, 2, 8, 20, 3));

    let mut restarted =
        CronScheduler::new(&jobs, first.last_processed_minute).expect("restarted scheduler");
    emit_due(&mut restarted, &mut events, seconds(time::Month::April, 2, 8, 30, 1));

    assert_eq!(events.len(), 2);
}

#[test]
fn validate_job_rejects_non_utc_timezones_for_now() {
    let error = validate_job(&CronJob {
        id: "seoul".into(),
        schedule: "0 9 * * *".into(),
        timezone: "Asia/Seoul".into(),
        enabled: true,
        channel: Some("ops".into()),
        mention: None,
        format: None,
        kind: CronJobKind::CustomMessage { message: "wake up".into() },
    })
    .expect_err("unsupported timezone");

    assert!(error.contains("supports UTC only"));
}

#[test]
fn schedule_parser_supports_lists_ranges_and_steps() {
    let schedule = CronSchedule::parse("0,15,30-45/15 9-17/4 * * 1-5").expect("schedule");
    let at = |day: u8, hour: u8, minute: u8| {
        CivilTime::at(seconds(time::Month::April, day, hour, minute, 0)).unwrap()
    };

    assert!(schedule.matches(at(6, 9, 0)));
    assert!(schedule.matches(at(6, 13, 15)));
    assert!(schedule.matches(at(10, 17, 45)));
    assert!(!schedule.matches(at(10, 17, 10)));
    assert!(!schedule.matches(at(11, 9, 0)));
}

#[test]
fn disabled_jobs_are_not_scheduled() {
    let mut jobs = sample_jobs("* * * * *");
    jobs[0].enabled = false;
    let scheduler = CronScheduler::new(&jobs, None).unwrap();
    assert!(scheduler.due_events(0).events.is_empty());
}

#[test]
fn fields_of_schedules_are_checked() {
    assert!(CronSchedule::parse("* * * *").is_err());
    assert!(CronSchedule::parse("60 * * * *").is_err());
    assert!(CronSchedule::parse("5-1 * * * *").is_err());
    assert!(CronSchedule::parse("*/0 * * * *").is_err());
    assert!(CronSchedule::parse("x * * * *").is_err());
    let sunday = CronField::parse("7", 0, 7, true).unwrap();
    assert!(sunday.contains(0));
    assert!(!sunday.contains(1));
}

#[test]
fn calendar_of_a_moment() {
    let time = CivilTime::at(1_775_118_003).unwrap();
    assert_eq!((time.year, time.month, time.day), (2026, 4, 2));
    assert_eq!((time.hour, time.minute, time.weekday), (8, 20, 4));
    let leap = CivilTime::at(951_782_400).unwrap();
    assert_eq!((leap.year, leap.month, leap.day), (2000, 2, 29));
    let early = CivilTime::at(-1).unwrap();
    assert_eq!((early.year, early.month, early.day, early.minute), (1969, 12, 31, 59));
    assert!(CivilTime::at(i64::MAX).is_err());
    assert_eq!(minute_of(-1), -1);
    assert_eq!(minute_of(119), 1);
}

#[test]
fn job_is_run_by_its_name() {
    let jobs = sample_jobs("* * * * *");
    let event = configured_job_event(&jobs, "dev-followup").unwrap();
    assert_eq!(event.kind, "custom");
    assert_eq!(text_at(&event.payload, "cron_timezone"), Some("UTC"));
    assert!(configured_job_event(&jobs, "other").is_err());
    assert_eq!(build_job_event(&jobs[0]).channel.as_deref(), Some("ops"));
}

#[test]
fn state_stands_beside_the_configuration() {
    assert_eq!(
        default_state_path("/home/me/.clawhip/config.toml"),
        "/home/me/.clawhip/cron-state.json"
    );
}
