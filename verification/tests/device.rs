use mdcheck_ng::cron::ParsedCron;
use mdcheck_ng::device::{DeviceConfig, IoClass};

const SUN_2024_09_01: i64 = 1_725_148_800;
const MON_2024_09_02: i64 = 1_725_235_200;
const SAT_2024_09_07: i64 = 1_725_667_200;

fn cron(s: &str) -> Option<ParsedCron> {
    Some(ParsedCron::parse(s).unwrap())
}

#[test]
fn io_class_levels() {
    assert_eq!(IoClass::realtime(0), Some(IoClass::Realtime(0)));
    assert_eq!(IoClass::best_effort(7), Some(IoClass::BestEffort(7)));
    assert_eq!(IoClass::best_effort(8), None);
    assert_eq!(IoClass::realtime(255), None);
}

#[test]
fn start_follows_start_schedule() {
    let c = DeviceConfig::new(cron("Sun"), None, None, None, false, None);
    assert!(c.start_at(SUN_2024_09_01));
    assert!(!c.start_at(MON_2024_09_02));
    // without `continue`, resuming follows `start`
    assert!(c.resume_at(SUN_2024_09_01));
    assert!(!c.resume_at(MON_2024_09_02));
    assert!(c.runs_now_at(SUN_2024_09_01));
    assert!(!c.runs_now_at(MON_2024_09_02));
}

#[test]
fn resume_follows_continue_schedule() {
    let c = DeviceConfig::new(cron("Sun#1"), cron("Mon"), None, None, false, None);
    assert!(c.start_at(SUN_2024_09_01));
    assert!(!c.resume_at(SUN_2024_09_01));
    assert!(c.resume_at(MON_2024_09_02));
    assert!(!c.start_at(MON_2024_09_02));
    assert!(c.runs_now_at(MON_2024_09_02));
    assert!(!c.runs_now_at(SAT_2024_09_07));
}

#[test]
fn no_start_never_starts() {
    let c = DeviceConfig::unset();
    assert!(!c.start_at(SUN_2024_09_01));
    assert!(!c.resume_at(SUN_2024_09_01));
    assert!(!c.start());
    assert!(!c.resume());
    assert!(!c.runs_now());
    let only_continue = DeviceConfig::new(None, cron("Sun"), None, None, false, None);
    assert!(!only_continue.start_at(SUN_2024_09_01));
    assert!(only_continue.resume_at(SUN_2024_09_01));
}

#[test]
fn force_run_always_runs() {
    let c = DeviceConfig::new(None, None, None, None, true, None);
    assert!(c.start_at(MON_2024_09_02));
    assert!(c.resume_at(MON_2024_09_02));
    assert!(c.start());
    assert!(c.resume());
    assert!(c.runs_now());
}

#[test]
fn admerge_takes_unset_fields_from_other() {
    let dev = DeviceConfig::new(
        cron("Sat#1"),
        cron("Sat"),
        Some(IoClass::BestEffort(7)),
        None,
        false,
        Some(6 * 3600 * 1_000_000_000),
    );
    let global = DeviceConfig::new(
        cron("Sun#1"),
        cron("Sun"),
        Some(IoClass::Idle),
        Some(15),
        false,
        None,
    );
    let m = dev.admerge(&global);
    assert_eq!(m.start_schedule(), Some("* * * * * Sat#1"));
    assert_eq!(m.continue_schedule(), Some("* * * * * Sat"));
    assert_eq!(m.ionice(), Some(IoClass::BestEffort(7)));
    assert_eq!(m.nice(), Some(15));
    assert!(!m.force_run());
    assert_eq!(m.max_run_duration(), Some(6 * 3600 * 1_000_000_000));

    let g = global.admerge(&DeviceConfig::unset());
    assert_eq!(g.start_schedule(), Some("* * * * * Sun#1"));
    assert_eq!(g.ionice(), Some(IoClass::Idle));
    assert_eq!(g.max_run_duration(), None);

    let forced = DeviceConfig::unset().admerge(&DeviceConfig::new(None, None, None, None, true, None));
    assert!(forced.force_run());
}

#[test]
fn admerge_is_idempotent_and_unset_is_neutral() {
    let a = DeviceConfig::new(cron("Sun"), None, None, Some(-5), false, Some(10));
    let aa = a.admerge(&a);
    assert_eq!(aa.start_schedule(), a.start_schedule());
    assert_eq!(aa.continue_schedule(), None);
    assert_eq!(aa.nice(), Some(-5));
    assert_eq!(aa.max_run_duration(), Some(10));
    let ua = DeviceConfig::unset().admerge(&a);
    assert_eq!(ua.start_schedule(), Some("* * * * * Sun"));
    assert_eq!(ua.nice(), Some(-5));
}

#[test]
fn max_duration() {
    let limited = DeviceConfig::new(None, None, None, None, false, Some(1_000));
    assert!(limited.below_max_duration_after(999));
    assert!(limited.below_max_duration_after(1_000));
    assert!(!limited.below_max_duration_after(1_001));
    let unlimited = DeviceConfig::unset();
    assert!(unlimited.below_max_duration_after(u128::MAX));
    assert!(unlimited.below_max_duration(&std::time::Instant::now()));
    let long = DeviceConfig::new(None, None, None, None, false, Some(3_600_000_000_000));
    assert!(long.below_max_duration(&std::time::Instant::now()));
    let none = DeviceConfig::new(None, None, None, None, false, Some(0));
    let started = std::time::Instant::now();
    while started.elapsed().as_nanos() == 0 {}
    assert!(!none.below_max_duration(&started));
}

#[test]
fn default_is_unset() {
    let d = DeviceConfig::default();
    assert_eq!(d.start_schedule(), None);
    assert_eq!(d.ionice(), None);
    assert_eq!(d.nice(), None);
    assert!(!d.force_run());
}

#[test]
fn decisions_on_schedule_matches() {
    let both = DeviceConfig::new(cron("Sun#1"), cron("Sun"), None, None, false, None);
    assert!(both.decide_start(true));
    assert!(!both.decide_start(false));
    assert!(both.decide_resume(true, false));
    assert!(!both.decide_resume(false, true));
    let start_only = DeviceConfig::new(cron("Sun#1"), None, None, None, false, None);
    assert!(start_only.decide_resume(false, true));
    assert!(!start_only.decide_resume(true, false));
    let none = DeviceConfig::unset();
    assert!(!none.decide_start(true));
    assert!(!none.decide_resume(true, true));
    let forced = DeviceConfig::new(None, None, None, None, true, None);
    assert!(forced.decide_start(false));
    assert!(forced.decide_resume(false, false));
}
