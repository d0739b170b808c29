//! The decisions of one run over the md arrays: which arrays to start or
//! resume a check on, and which checks to keep watching (and for how long).
use vstd::prelude::*;
use crate::device::{resumes_at, runs_at, starts_at, within_limit, DeviceConfig, DeviceConfigView};
use crate::cron::local_wall_clock;
use crate::md_dev::{
    attr_write, lemma_saved_position_read_back, resume_actions, saved_position, stop_actions,
    MdActionView, MdAttr, StateError,
};
use crate::text::decimal;

verus! {

/// What to do first with an array.
#[derive(Clone, Copy, Debug, PartialEq, Eq, Structural)]
pub enum Launch {
    /// The array is doing something else (or its state could not be read): leave it.
    Busy,
    /// Its saved position could not be read: leave it.
    Unreadable,
    /// Resume the check from the saved position.
    Resume(usize),
    /// Start a new check.
    Start,
    /// Nothing may be done now.
    Wait,
}

/// The first step for an array: only an idle array is touched; a saved
/// position is resumed from when the settings allow a scrub to go on, and
/// without one a new check is started when they allow a scrub to start.
pub open spec fn launch_rule(
    idle: Option<bool>,
    saved: Result<Option<usize>, StateError>,
    schedule: DeviceConfigView,
    now: i64,
) -> Launch {
    if idle != Some(true) {
        Launch::Busy
    } else {
        match saved {
            Err(_) => Launch::Unreadable,
            Ok(Some(pos)) => if resumes_at(schedule, now) {
                Launch::Resume(pos)
            } else {
                Launch::Wait
            },
            Ok(None) => if starts_at(schedule, now) {
                Launch::Start
            } else {
                Launch::Wait
            },
        }
    }
}

/// The first step for an array, given whether it is idle (`None` where its
/// `sync_action` could not be read), its saved position, its settings and the
/// local wall-clock time.
pub fn plan_launch(
    idle: Option<bool>,
    saved: Result<Option<usize>, StateError>,
    schedule: &DeviceConfig,
    now: i64,
) -> (r: Launch)
    ensures
        r == launch_rule(idle, saved, schedule@, now),
{
    match idle {
        Some(true) => {},
        _ => {
            return Launch::Busy;
        },
    }
    match saved {
        Err(_) => Launch::Unreadable,
        Ok(Some(pos)) => if schedule.resume_at(now) {
            Launch::Resume(pos)
        } else {
            Launch::Wait
        },
        Ok(None) => if schedule.start_at(now) {
            Launch::Start
        } else {
            Launch::Wait
        },
    }
}

/// Whether to keep watching a check: the settings still allow scrubbing at
/// `now`, the run has lasted (`elapsed` nanoseconds) no longer than the
/// `max_run_duration` they set, and the array is still checking (`checking`
/// is `None` where that could not be read).  A check no longer watched is
/// stopped, its position saved for the next run.
pub fn keep_watching(schedule: &DeviceConfig, now: i64, elapsed: u128, checking: Option<bool>) -> (r: bool)
    ensures
        r == (runs_at(schedule@, now) && within_limit(schedule@, elapsed) && checking == Some(
            true,
        )),
{
    schedule.runs_now_at(now) && schedule.below_max_duration_after(elapsed) && match checking {
        Some(c) => c,
        None => false,
    }
}

/// The first step for an array, by the local clock.
pub fn plan_launch_now(
    idle: Option<bool>,
    saved: Result<Option<usize>, StateError>,
    schedule: &DeviceConfig,
) -> (r: Launch)
    ensures
        exists|t: i64| r == launch_rule(idle, saved, schedule@, t),
        idle != Some(true) ==> r == Launch::Busy,
        idle == Some(true) && saved is Err ==> r == Launch::Unreadable,
{
    let now = local_wall_clock();
    let r = plan_launch(idle, saved, schedule, now);
    assert(r == launch_rule(idle, saved, schedule@, now));
    r
}

/// Whether the settings still allow watching a check, by the local clock,
/// for a run that began at `started`: they allow scrubbing now and the run
/// is within their `max_run_duration`.
pub fn watch_allowed_now(schedule: &DeviceConfig, started: &std::time::Instant) -> (r: bool)
    ensures
        exists|t: i64, e: u128| r == (runs_at(schedule@, t) && within_limit(schedule@, e)),
        !schedule@.force_run && schedule@.start is None && schedule@.cont is None ==> !r,
{
    let now = local_wall_clock();
    let within = schedule.below_max_duration(started);
    let ghost e = choose|e: u128| within == within_limit(schedule@, e);
    let r = schedule.runs_now_at(now) && within;
    assert(r == (runs_at(schedule@, now) && within_limit(schedule@, e)));
    r
}

/// Whether to keep watching a check, by the local clock, for a run that
/// began at `started`.
pub fn keep_watching_now(
    schedule: &DeviceConfig,
    started: &std::time::Instant,
    checking: Option<bool>,
) -> (r: bool)
    ensures
        exists|t: i64, e: u128|
            r == (runs_at(schedule@, t) && within_limit(schedule@, e) && checking == Some(true)),
        checking != Some(true) ==> !r,
{
    let now = local_wall_clock();
    let within = schedule.below_max_duration(started);
    let ghost e = choose|e: u128| within == within_limit(schedule@, e);
    let r = schedule.runs_now_at(now) && within && match checking {
        Some(c) => c,
        None => false,
    };
    assert(r == (runs_at(schedule@, now) && within_limit(schedule@, e) && checking == Some(true)));
    r
}

/// A check is only ever started or resumed on an idle array, at a time the
/// settings allow scrubbing.
pub proof fn lemma_launch_only_when_allowed(
    idle: Option<bool>,
    saved: Result<Option<usize>, StateError>,
    schedule: DeviceConfigView,
    now: i64,
)
    ensures
        (launch_rule(idle, saved, schedule, now) is Start || launch_rule(
            idle,
            saved,
            schedule,
            now,
        ) is Resume) ==> idle == Some(true) && runs_at(schedule, now),
        launch_rule(idle, saved, schedule, now) is Resume ==> saved == Ok::<Option<usize>, StateError>(
            Some(launch_rule(idle, saved, schedule, now)->Resume_0),
        ),
{
}

/// Pausing and resuming: a check stopped at sector `c` saves a position that
/// reads back as `c`; on a later run, at a time the settings allow a scrub to
/// go on, the idle array is resumed from `c`, and resuming sets `sync_min` to `c`.
pub proof fn lemma_pause_resume(c: usize, schedule: DeviceConfigView, now: i64)
    requires
        resumes_at(schedule, now),
    ensures
        stop_actions(Some(c))[0] matches MdActionView::SaveState { contents } && saved_position(
            contents,
        ) == Some(c) && launch_rule(
            Some(true),
            Ok::<Option<usize>, StateError>(saved_position(contents)),
            schedule,
            now,
        ) == Launch::Resume(c),
        resume_actions(c as nat)[0] == attr_write(MdAttr::SyncMin, decimal(c as nat)),
{
    lemma_saved_position_read_back(c);
}

} // verus!
