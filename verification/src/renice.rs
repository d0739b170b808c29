//! The I/O priority and nice level to give a device's resync thread: what the
//! settings ask for, compared with what the thread has.
use vstd::prelude::*;
use crate::device::{DeviceConfig, DeviceConfigView, IoClass};
use crate::text::{append_chars, chars_of};

verus! {

/// The 16-bit I/O priority that the kernel takes for an I/O class: the class
/// (1 real-time, 2 best-effort, 3 idle) in the top three bits, the level below.
pub open spec fn ioprio_value(c: IoClass) -> u16 {
    match c {
        IoClass::Realtime(l) => (8192 + l) as u16,
        IoClass::BestEffort(l) => (16384 + l) as u16,
        IoClass::Idle => 24576,
    }
}

/// The I/O priority to set, where one is set and the thread does not have it
/// already.  `current` is the thread's priority, `None` where it could not be
/// read, which counts as the standard priority 0.
pub open spec fn ioprio_change(schedule: DeviceConfigView, current: Option<u16>) -> Option<u16> {
    match schedule.ionice {
        None => None,
        Some(c) => {
            let cur: u16 = match current {
                Some(v) => v,
                None => 0,
            };
            if ioprio_value(c) != cur {
                Some(ioprio_value(c))
            } else {
                None
            }
        },
    }
}

/// The nice level to set, where one is set and the thread does not have it
/// already.  `current` is the thread's level, `None` where it could not be
/// read, which counts as 0.
pub open spec fn nice_change(schedule: DeviceConfigView, current: Option<i32>) -> Option<i32> {
    match schedule.nice {
        None => None,
        Some(n) => {
            let cur: i32 = match current {
                Some(v) => v,
                None => 0,
            };
            if n as i32 != cur {
                Some(n as i32)
            } else {
                None
            }
        },
    }
}

/// `"_resync"`
pub open spec fn resync_suffix() -> Seq<char> {
    seq!['_', 'r', 'e', 's', 'y', 'n', 'c']
}

/// `ioprio::Priority::new(class).inner()`, for the `ioprio::Class` with the
/// same class and level as `c`.  The crate computes the mask as the class
/// number shifted left by 13, or-ed with the level: `ioprio_value(c)`.
#[verifier::external_body]
fn ioprio_mask(c: IoClass) -> (r: u16)
    requires
        c.valid(),
    ensures
        r == ioprio_value(c),
{
    let class = match c {
        IoClass::Realtime(l) => ioprio::Class::Realtime(ioprio::RtPriorityLevel::from_level(l).unwrap()),
        IoClass::BestEffort(l) => ioprio::Class::BestEffort(ioprio::BePriorityLevel::from_level(l).unwrap()),
        IoClass::Idle => ioprio::Class::Idle,
    };
    ioprio::Priority::new(class).inner()
}

/// The name of the kernel thread that checks the array `dev` (`md127_resync`).
pub fn resync_process_name(dev: &str) -> (r: String)
    ensures
        r@ == dev@ + resync_suffix(),
{
    let mut r = String::new();
    let d = chars_of(dev);
    append_chars(&mut r, &d);
    let suffix: Vec<char> = vec!['_', 'r', 'e', 's', 'y', 'n', 'c'];
    append_chars(&mut r, &suffix);
    assert(suffix@ =~= resync_suffix());
    r
}

/// The I/O priority to give the resync thread, given the one it has.
pub fn ioprio_update(schedule: &DeviceConfig, current: Option<u16>) -> (r: Option<u16>)
    ensures
        r == ioprio_change(schedule@, current),
{
    match schedule.ionice() {
        None => None,
        Some(c) => {
            let want = ioprio_mask(c);
            let cur: u16 = match current {
                Some(v) => v,
                None => 0,
            };
            if want != cur {
                Some(want)
            } else {
                None
            }
        },
    }
}

/// The nice level to give the resync thread, given the one it has.
pub fn nice_update(schedule: &DeviceConfig, current: Option<i32>) -> (r: Option<i32>)
    ensures
        r == nice_change(schedule@, current),
{
    match schedule.nice() {
        None => None,
        Some(n) => {
            let want = n as i32;
            let cur: i32 = match current {
                Some(v) => v,
                None => 0,
            };
            if want != cur {
                Some(want)
            } else {
                None
            }
        },
    }
}

/// Once a change has been made, the settings ask for none: applying the
/// change reached the wanted priority and level.
pub proof fn lemma_changes_settle(schedule: DeviceConfigView, io: Option<u16>, nice: Option<i32>)
    ensures
        ioprio_change(schedule, io) matches Some(p) ==> ioprio_change(schedule, Some(p)) is None,
        nice_change(schedule, nice) matches Some(n) ==> nice_change(schedule, Some(n)) is None,
{
}

} // verus!
