//! The schedule and tuning of one md device: when a scrub may start or
//! continue, how the settings of a device are merged over the global ones,
//! and the I/O class and nice level to give the kernel's resync thread.
use vstd::prelude::*;
use crate::cron::{cron_matches, local_wall_clock, wall_clock_in_range, ParsedCron};

verus! {

/// An I/O scheduling class, with its level (0 to 7) where it has one.
#[derive(Clone, Copy, Debug, PartialEq, Eq, Structural)]
pub enum IoClass {
    Realtime(u8),
    BestEffort(u8),
    Idle,
}

impl IoClass {
    /// Levels run from 0 to 7.
    pub open spec fn valid(self) -> bool {
        match self {
            IoClass::Realtime(l) => l < 8,
            IoClass::BestEffort(l) => l < 8,
            IoClass::Idle => true,
        }
    }

    /// The real-time class at `level`, where `level` is at most 7.
    pub fn realtime(level: u8) -> (r: Option<IoClass>)
        ensures
            r == (if level < 8 {
                Some(IoClass::Realtime(level))
            } else {
                None
            }),
    {
        if level < 8 {
            Some(IoClass::Realtime(level))
        } else {
            None
        }
    }

    /// The best-effort class at `level`, where `level` is at most 7.
    pub fn best_effort(level: u8) -> (r: Option<IoClass>)
        ensures
            r == (if level < 8 {
                Some(IoClass::BestEffort(level))
            } else {
                None
            }),
    {
        if level < 8 {
            Some(IoClass::BestEffort(level))
        } else {
            None
        }
    }
}

pub open spec fn io_class_ok(c: Option<IoClass>) -> bool {
    match c {
        Some(c) => c.valid(),
        None => true,
    }
}

/// The settings of a device, as values.
pub struct DeviceConfigView {
    pub start: Option<Seq<char>>,
    pub cont: Option<Seq<char>>,
    pub ionice: Option<IoClass>,
    pub nice: Option<i8>,
    pub force_run: bool,
    pub max_run_duration: Option<u128>,
}

pub open spec fn first_some<T>(a: Option<T>, b: Option<T>) -> Option<T> {
    if a is Some {
        a
    } else {
        b
    }
}

/// Settings where nothing is set.
pub open spec fn unset_view() -> DeviceConfigView {
    DeviceConfigView {
        start: None,
        cont: None,
        ionice: None,
        nice: None,
        force_run: false,
        max_run_duration: None,
    }
}

/// The settings of `a`, with each one that `a` leaves unset taken from `b`;
/// `force_run` holds where it holds in either.
pub open spec fn merge(a: DeviceConfigView, b: DeviceConfigView) -> DeviceConfigView {
    DeviceConfigView {
        start: first_some(a.start, b.start),
        cont: first_some(a.cont, b.cont),
        ionice: first_some(a.ionice, b.ionice),
        nice: first_some(a.nice, b.nice),
        force_run: a.force_run || b.force_run,
        max_run_duration: first_some(a.max_run_duration, b.max_run_duration),
    }
}

/// Whether a schedule, where there is one, matches the wall clock `now`.
pub open spec fn due(schedule: Option<Seq<char>>, now: i64) -> bool {
    match schedule {
        Some(p) => wall_clock_in_range(now) && cron_matches(p, now),
        None => false,
    }
}

/// A new scrub may start at `now`: `force_run` is set, or the `start` schedule matches.
pub open spec fn starts_at(c: DeviceConfigView, now: i64) -> bool {
    c.force_run || due(c.start, now)
}

/// A paused scrub may go on at `now`: `force_run` is set, or the `continue`
/// schedule matches, or, where there is no `continue` schedule, a scrub may start.
pub open spec fn resumes_at(c: DeviceConfigView, now: i64) -> bool {
    c.force_run || if c.cont is Some {
        due(c.cont, now)
    } else {
        starts_at(c, now)
    }
}

/// Scrubbing is allowed at `now`.
pub open spec fn runs_at(c: DeviceConfigView, now: i64) -> bool {
    starts_at(c, now) || resumes_at(c, now)
}

/// A run that has lasted `elapsed` nanoseconds is still within the limit.
pub open spec fn within_limit(c: DeviceConfigView, elapsed: u128) -> bool {
    match c.max_run_duration {
        Some(limit) => elapsed <= limit,
        None => true,
    }
}

pub open spec fn cron_view(p: Option<ParsedCron>) -> Option<Seq<char>> {
    match p {
        Some(p) => Some(p@),
        None => None,
    }
}

/// The scrub settings of one device (or the global ones).
#[derive(Debug)]
pub struct DeviceConfig {
    start: Option<ParsedCron>,
    cont: Option<ParsedCron>,
    ionice: Option<IoClass>,
    nice: Option<i8>,
    force_run: bool,
    max_run_duration: Option<u128>,
}

impl View for DeviceConfig {
    type V = DeviceConfigView;

    closed spec fn view(&self) -> DeviceConfigView {
        DeviceConfigView {
            start: cron_view(self.start),
            cont: cron_view(self.cont),
            ionice: self.ionice,
            nice: self.nice,
            force_run: self.force_run,
            max_run_duration: self.max_run_duration,
        }
    }
}

/// `std::time::Instant`.
#[verifier::external_type_specification]
#[verifier::external_body]
pub struct ExInstant(std::time::Instant);

/// `Instant::elapsed`, in nanoseconds (`Duration::as_nanos`).  It depends on
/// the clock: nothing is stated of the result.
#[verifier::external_body]
fn nanos_since(started: &std::time::Instant) -> u128 {
    started.elapsed().as_nanos()
}

fn first_cron(a: &Option<ParsedCron>, b: &Option<ParsedCron>) -> (r: Option<ParsedCron>)
    ensures
        cron_view(r) == first_some(cron_view(*a), cron_view(*b)),
{
    match a {
        Some(p) => Some(p.duplicate()),
        None => match b {
            Some(p) => Some(p.duplicate()),
            None => None,
        },
    }
}

fn cron_due(p: &Option<ParsedCron>, now: i64) -> (r: bool)
    ensures
        r == due(cron_view(*p), now),
{
    match p {
        Some(p) => p.matches_at(now),
        None => false,
    }
}

impl DeviceConfig {
    #[verifier::type_invariant]
    spec fn inv(self) -> bool {
        io_class_ok(self.ionice)
    }

    /// Settings with every field given: the `start` and `continue` schedules,
    /// the I/O class, the nice level, `force_run`, and the longest run in nanoseconds.
    pub fn new(
        start: Option<ParsedCron>,
        cont: Option<ParsedCron>,
        ionice: Option<IoClass>,
        nice: Option<i8>,
        force_run: bool,
        max_run_duration: Option<u128>,
    ) -> (r: DeviceConfig)
        requires
            io_class_ok(ionice),
        ensures
            r@ == (DeviceConfigView {
                start: cron_view(start),
                cont: cron_view(cont),
                ionice,
                nice,
                force_run,
                max_run_duration,
            }),
    {
        DeviceConfig { start, cont, ionice, nice, force_run, max_run_duration }
    }

    /// Settings where nothing is set.
    pub fn unset() -> (r: DeviceConfig)
        ensures
            r@ == unset_view(),
    {
        DeviceConfig {
            start: None,
            cont: None,
            ionice: None,
            nice: None,
            force_run: false,
            max_run_duration: None,
        }
    }

    /// Whether a new scrub may start, given whether the `start` schedule
    /// matches the time (which counts only where there is such a schedule).
    pub fn decide_start(&self, start_due: bool) -> (r: bool)
        ensures
            r == (self@.force_run || (self@.start is Some && start_due)),
    {
        self.force_run || (self.start.is_some() && start_due)
    }

    /// Whether a paused scrub may go on, given whether the `continue` and the
    /// `start` schedules match the time (each counts only where there is such
    /// a schedule; `start` only where there is no `continue`).
    pub fn decide_resume(&self, continue_due: bool, start_due: bool) -> (r: bool)
        ensures
            r == (self@.force_run || if self@.cont is Some {
                continue_due
            } else {
                self@.start is Some && start_due
            }),
    {
        if self.force_run {
            return true;
        }
        if self.cont.is_some() {
            continue_due
        } else {
            self.decide_start(start_due)
        }
    }

    /// Whether a new scrub may start at the local wall-clock time `now`.
    pub fn start_at(&self, now: i64) -> (r: bool)
        ensures
            r == starts_at(self@, now),
    {
        let start_due = cron_due(&self.start, now);
        self.decide_start(start_due)
    }

    /// Whether a paused scrub may go on at the local wall-clock time `now`.
    pub fn resume_at(&self, now: i64) -> (r: bool)
        ensures
            r == resumes_at(self@, now),
    {
        let continue_due = cron_due(&self.cont, now);
        let start_due = cron_due(&self.start, now);
        self.decide_resume(continue_due, start_due)
    }

    /// Whether scrubbing is allowed at the local wall-clock time `now`.
    pub fn runs_now_at(&self, now: i64) -> (r: bool)
        ensures
            r == runs_at(self@, now),
    {
        self.start_at(now) || self.resume_at(now)
    }

    /// Whether a new scrub may start now, by the local clock.
    pub fn start(&self) -> (r: bool)
        ensures
            exists|t: i64| r == starts_at(self@, t),
            self@.force_run ==> r,
            !self@.force_run && self@.start is None ==> !r,
    {
        let now = local_wall_clock();
        let r = self.start_at(now);
        assert(r == starts_at(self@, now));
        r
    }

    /// Whether a paused scrub may go on now, by the local clock.
    pub fn resume(&self) -> (r: bool)
        ensures
            exists|t: i64| r == resumes_at(self@, t),
            self@.force_run ==> r,
            !self@.force_run && self@.start is None && self@.cont is None ==> !r,
    {
        let now = local_wall_clock();
        let r = self.resume_at(now);
        assert(r == resumes_at(self@, now));
        r
    }

    /// Whether scrubbing is allowed now, by the local clock.
    pub fn runs_now(&self) -> (r: bool)
        ensures
            exists|t: i64| r == runs_at(self@, t),
            self@.force_run ==> r,
            !self@.force_run && self@.start is None && self@.cont is None ==> !r,
    {
        let now = local_wall_clock();
        let r = self.runs_now_at(now);
        assert(r == runs_at(self@, now));
        r
    }

    /// These settings, with each one left unset taken from `other`: every
    /// setting that `self` sets is kept, `other`'s is used only where `self`
    /// leaves it unset, and `force_run` holds where either sets it.
    pub fn admerge(&self, other: &DeviceConfig) -> (r: DeviceConfig)
        ensures
            r@ == merge(self@, other@),
            r@.start == (if self@.start is Some {
                self@.start
            } else {
                other@.start
            }),
            r@.cont == (if self@.cont is Some {
                self@.cont
            } else {
                other@.cont
            }),
            r@.ionice == (if self@.ionice is Some {
                self@.ionice
            } else {
                other@.ionice
            }),
            r@.nice == (if self@.nice is Some {
                self@.nice
            } else {
                other@.nice
            }),
            r@.max_run_duration == (if self@.max_run_duration is Some {
                self@.max_run_duration
            } else {
                other@.max_run_duration
            }),
            r@.force_run == (self@.force_run || other@.force_run),
    {
        proof {
            use_type_invariant(self);
            use_type_invariant(other);
        }
        DeviceConfig {
            start: first_cron(&self.start, &other.start),
            cont: first_cron(&self.cont, &other.cont),
            ionice: match self.ionice {
                Some(c) => Some(c),
                None => other.ionice,
            },
            nice: match self.nice {
                Some(n) => Some(n),
                None => other.nice,
            },
            force_run: self.force_run || other.force_run,
            max_run_duration: match self.max_run_duration {
                Some(d) => Some(d),
                None => other.max_run_duration,
            },
        }
    }

    /// The I/O class to give the resync thread, where one is set.
    pub fn ionice(&self) -> (r: Option<IoClass>)
        ensures
            r == self@.ionice,
            io_class_ok(r),
    {
        proof {
            use_type_invariant(self);
        }
        self.ionice
    }

    /// The nice level to give the resync thread, where one is set.
    pub fn nice(&self) -> (r: Option<i8>)
        ensures
            r == self@.nice,
    {
        self.nice
    }

    /// Whether a run that has lasted `elapsed` nanoseconds is still within
    /// `max_run_duration` (always, where no limit is set).
    pub fn below_max_duration_after(&self, elapsed: u128) -> (r: bool)
        ensures
            r == within_limit(self@, elapsed),
    {
        match self.max_run_duration {
            Some(limit) => elapsed <= limit,
            None => true,
        }
    }

    /// Whether the run that began at `started` is still within `max_run_duration`.
    pub fn below_max_duration(&self, started: &std::time::Instant) -> (r: bool)
        ensures
            exists|elapsed: u128| r == within_limit(self@, elapsed),
            self@.max_run_duration is None ==> r,
    {
        let elapsed = nanos_since(started);
        let r = self.below_max_duration_after(elapsed);
        assert(r == within_limit(self@, elapsed));
        r
    }

    /// The normalized text of the `start` schedule, where there is one.
    pub fn start_schedule(&self) -> (r: Option<&str>)
        ensures
            match r {
                Some(s) => self@.start == Some(s@),
                None => self@.start is None,
            },
    {
        match &self.start {
            Some(p) => Some(p.source()),
            None => None,
        }
    }

    /// The normalized text of the `continue` schedule, where there is one.
    pub fn continue_schedule(&self) -> (r: Option<&str>)
        ensures
            match r {
                Some(s) => self@.cont == Some(s@),
                None => self@.cont is None,
            },
    {
        match &self.cont {
            Some(p) => Some(p.source()),
            None => None,
        }
    }

    /// Whether scrubbing is forced regardless of the schedules.
    pub fn force_run(&self) -> (r: bool)
        ensures
            r == self@.force_run,
    {
        self.force_run
    }

    /// The longest allowed run, in nanoseconds, where one is set.
    pub fn max_run_duration(&self) -> (r: Option<u128>)
        ensures
            r == self@.max_run_duration,
    {
        self.max_run_duration
    }
}

impl Default for DeviceConfig {
    fn default() -> (r: DeviceConfig)
        ensures
            r@ == unset_view(),
    {
        DeviceConfig::unset()
    }
}

/// Merging over settings where nothing is set, or merging such settings over
/// others, changes nothing.
pub proof fn lemma_merge_unset(a: DeviceConfigView)
    ensures
        merge(a, unset_view()) == a,
        merge(unset_view(), a) == a,
{
}

/// The settings of a device win over the ones they are merged over: each
/// setting that `d` sets is kept as `d` has it, each one that `d` leaves unset
/// is taken from `g`, and `force_run` holds where either sets it.
pub proof fn lemma_merge_prefers_device(d: DeviceConfigView, g: DeviceConfigView)
    ensures
        d.start is Some ==> merge(d, g).start == d.start,
        d.start is None ==> merge(d, g).start == g.start,
        d.cont is Some ==> merge(d, g).cont == d.cont,
        d.cont is None ==> merge(d, g).cont == g.cont,
        d.ionice is Some ==> merge(d, g).ionice == d.ionice,
        d.ionice is None ==> merge(d, g).ionice == g.ionice,
        d.nice is Some ==> merge(d, g).nice == d.nice,
        d.nice is None ==> merge(d, g).nice == g.nice,
        d.max_run_duration is Some ==> merge(d, g).max_run_duration == d.max_run_duration,
        d.max_run_duration is None ==> merge(d, g).max_run_duration == g.max_run_duration,
        merge(d, g).force_run == (d.force_run || g.force_run),
{
}

/// Merging settings over themselves changes nothing.
pub proof fn lemma_merge_idempotent(a: DeviceConfigView)
    ensures
        merge(a, a) == a,
{
}

/// Merging is associative: merging `a` over (`b` merged over `c`) is
/// merging (`a` merged over `b`) over `c`.
pub proof fn lemma_merge_associative(a: DeviceConfigView, b: DeviceConfigView, c: DeviceConfigView)
    ensures
        merge(a, merge(b, c)) == merge(merge(a, b), c),
{
}

/// Where `start` is unset and `force_run` is not set, no scrub is ever started.
pub proof fn lemma_no_start_schedule(c: DeviceConfigView, now: i64)
    requires
        c.start is None,
        !c.force_run,
    ensures
        !starts_at(c, now),
{
}

/// Where `continue` is unset, a scrub may go on exactly when one may start.
pub proof fn lemma_continue_defaults_to_start(c: DeviceConfigView, now: i64)
    requires
        c.cont is None,
    ensures
        resumes_at(c, now) == starts_at(c, now),
        runs_at(c, now) == starts_at(c, now),
{
}

/// With `force_run` set, scrubbing is allowed at every time.
pub proof fn lemma_force_run(c: DeviceConfigView, now: i64)
    requires
        c.force_run,
    ensures
        starts_at(c, now),
        resumes_at(c, now),
        runs_at(c, now),
{
}

/// Where the merged settings allow scrubbing at `now`, so do the settings
/// of the device or the settings they were merged over.
pub proof fn lemma_merged_runs(d: DeviceConfigView, g: DeviceConfigView, now: i64)
    requires
        runs_at(merge(d, g), now),
    ensures
        runs_at(d, now) || runs_at(g, now),
{
}

} // verus!
