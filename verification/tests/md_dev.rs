use mdcheck_ng::md_dev::{MdAction, MdAttr, MdDev, StateError, Teardown, TransitionKind};
use mdcheck_ng::renice::{ioprio_update, nice_update, resync_process_name};
use mdcheck_ng::scrub::{keep_watching, keep_watching_now, plan_launch, plan_launch_now, watch_allowed_now, Launch};
use mdcheck_ng::cron::ParsedCron;
use mdcheck_ng::device::{DeviceConfig, IoClass};

fn dev() -> MdDev {
    MdDev::new("md127".to_string(), "/sys/block/md127/md".to_string(), "0a1b:2c3d\n")
}

fn write_of(a: &MdAction) -> (MdAttr, String) {
    match a {
        MdAction::Write { attr, contents } => (*attr, contents.clone()),
        _ => panic!("not a write"),
    }
}

fn saved_of(a: &MdAction) -> String {
    match a {
        MdAction::SaveState { contents } => contents.clone(),
        _ => panic!("not a save"),
    }
}

#[test]
fn new_device() {
    let d = dev();
    assert_eq!(d.name(), "md127");
    assert_eq!(d.base_path(), "/sys/block/md127/md");
    assert_eq!(d.state_path(), "state_0a1b:2c3d");
    assert!(!d.is_ours());
}

#[test]
fn sync_action_text() {
    let d = dev();
    assert_eq!(d.sync_action("check\n"), "check");
    assert!(d.checking("check\n"));
    assert!(!d.checking("idle\n"));
    assert!(!d.checking("checking\n"));
    assert!(d.idle("idle\n"));
    assert!(d.idle("idle"));
    assert!(!d.idle(" idle\n"));
    assert!(!d.idle("resync\n"));
}

#[test]
fn sync_completed_text() {
    let d = dev();
    assert_eq!(d.sync_completed("123 / 456\n"), Some(123));
    assert_eq!(d.sync_completed("0 / 7814037168\n"), Some(0));
    assert_eq!(d.sync_completed("none\n"), None);
    assert_eq!(d.sync_completed("  42  \n"), Some(42));
    assert_eq!(d.sync_completed("delayed\n"), None);
    assert_eq!(d.sync_completed("/ 5"), None);
    assert_eq!(d.sync_completed(""), None);
}

#[test]
fn state_text() {
    let d = dev();
    assert_eq!(d.state(None), Ok(None));
    assert_eq!(d.state(Some("17")), Ok(Some(17)));
    assert_eq!(d.state(Some(" 17\n")), Ok(Some(17)));
    assert_eq!(d.state(Some("+5")), Ok(Some(5)));
    assert_eq!(d.state(Some("-5")), Err(StateError::NotANumber));
    assert_eq!(d.state(Some("abc")), Err(StateError::NotANumber));
    assert_eq!(d.state(Some("")), Err(StateError::NotANumber));
    assert_eq!(d.state(Some("+")), Err(StateError::NotANumber));
    assert_eq!(d.state(Some("99999999999999999999999999")), Err(StateError::NotANumber));
}

#[test]
fn saved_state_reads_back() {
    let d = dev();
    for n in [0usize, 7, 10, 1234567, usize::MAX] {
        let a = d.save_state(n);
        let text = saved_of(&a);
        assert_eq!(text, n.to_string());
        assert_eq!(d.state(Some(&text)), Ok(Some(n)));
    }
    assert!(matches!(d.clear_state(), MdAction::ClearState));
}

#[test]
fn attribute_writes() {
    let d = dev();
    assert_eq!(write_of(&d.set_sync_action("check")), (MdAttr::SyncAction, "check\n".to_string()));
    assert_eq!(write_of(&d.set_sync_min(4096)), (MdAttr::SyncMin, "4096\n".to_string()));
    assert_eq!(write_of(&d.set_sync_min(0)), (MdAttr::SyncMin, "0\n".to_string()));
}

#[test]
fn resume_start_stop() {
    let mut d = dev();
    let t = d.resume(1000);
    assert_eq!(t.kind, TransitionKind::Resume);
    assert_eq!(t.actions.len(), 2);
    assert_eq!(write_of(&t.actions[0]), (MdAttr::SyncMin, "1000\n".to_string()));
    assert_eq!(write_of(&t.actions[1]), (MdAttr::SyncAction, "check\n".to_string()));
    let s = d.start();
    assert_eq!(s.kind, TransitionKind::Start);
    assert_eq!(write_of(&s.actions[0]), (MdAttr::SyncMin, "0\n".to_string()));
    assert_eq!(write_of(&s.actions[1]), (MdAttr::SyncAction, "check\n".to_string()));
    assert!(!d.is_ours());
    d.complete(&t);
    assert!(d.is_ours());
    let stop = d.stop(Some(2048));
    assert_eq!(stop.kind, TransitionKind::Stop);
    assert_eq!(saved_of(&stop.actions[0]), "2048");
    assert_eq!(write_of(&stop.actions[1]), (MdAttr::SyncAction, "idle\n".to_string()));
    let stop0 = d.stop(None);
    assert_eq!(saved_of(&stop0.actions[0]), "0");
    d.complete(&stop);
    assert!(!d.is_ours());
    assert_eq!(saved_of(&d.checkpoint(Some(5))), "5");
    assert_eq!(saved_of(&d.checkpoint(None)), "0");
}

#[test]
fn teardown_only_touches_our_checks() {
    let mut d = dev();
    assert_eq!(d.teardown(Some(true)), Teardown::Nothing);
    assert_eq!(d.teardown(Some(false)), Teardown::Nothing);
    let t = d.start();
    d.complete(&t);
    assert_eq!(d.teardown(Some(true)), Teardown::Stop);
    assert_eq!(d.teardown(Some(false)), Teardown::ClearState);
    assert_eq!(d.teardown(None), Teardown::Nothing);
}

const SUN_2024_09_01: i64 = 1_725_148_800;
const SUN_2024_09_08: i64 = 1_725_753_600;
const MON_2024_09_02: i64 = 1_725_235_200;

#[test]
fn launch_decisions() {
    let s = DeviceConfig::new(Some(ParsedCron::parse("Sun#1").unwrap()), Some(ParsedCron::parse("Sun").unwrap()), None, None, false, None);
    assert_eq!(plan_launch(Some(false), Ok(None), &s, SUN_2024_09_01), Launch::Busy);
    assert_eq!(plan_launch(None, Ok(None), &s, SUN_2024_09_01), Launch::Busy);
    assert_eq!(plan_launch(Some(true), Err(StateError::Unreadable), &s, SUN_2024_09_01), Launch::Unreadable);
    assert_eq!(plan_launch(Some(true), Ok(None), &s, SUN_2024_09_01), Launch::Start);
    assert_eq!(plan_launch(Some(true), Ok(None), &s, SUN_2024_09_08), Launch::Wait);
    assert_eq!(plan_launch(Some(true), Ok(Some(77)), &s, SUN_2024_09_08), Launch::Resume(77));
    assert_eq!(plan_launch(Some(true), Ok(Some(77)), &s, MON_2024_09_02), Launch::Wait);
    assert!(keep_watching(&s, SUN_2024_09_08, 0, Some(true)));
    assert!(!keep_watching(&s, SUN_2024_09_08, 0, Some(false)));
    assert!(!keep_watching(&s, SUN_2024_09_08, 0, None));
    assert!(!keep_watching(&s, MON_2024_09_02, 0, Some(true)));
}

#[test]
fn renice_decisions() {
    assert_eq!(resync_process_name("md127"), "md127_resync");
    let be7 = DeviceConfig::new(None, None, Some(IoClass::BestEffort(7)), Some(15), false, None);
    assert_eq!(ioprio_update(&be7, None), Some((2 << 13) | 7));
    assert_eq!(ioprio_update(&be7, Some(0)), Some(16391));
    assert_eq!(ioprio_update(&be7, Some(16391)), None);
    let idle = DeviceConfig::new(None, None, Some(IoClass::Idle), None, false, None);
    assert_eq!(ioprio_update(&idle, Some(0)), Some(3 << 13));
    let rt0 = DeviceConfig::new(None, None, Some(IoClass::Realtime(0)), None, false, None);
    assert_eq!(ioprio_update(&rt0, None), Some(1 << 13));
    assert_eq!(ioprio_update(&DeviceConfig::unset(), Some(5)), None);
    assert_eq!(nice_update(&be7, None), Some(15));
    assert_eq!(nice_update(&be7, Some(15)), None);
    assert_eq!(nice_update(&be7, Some(0)), Some(15));
    let neg = DeviceConfig::new(None, None, None, Some(-20), false, None);
    assert_eq!(nice_update(&neg, Some(0)), Some(-20));
    assert_eq!(nice_update(&DeviceConfig::unset(), Some(3)), None);
}

#[test]
fn launch_decisions_now() {
    let forced = DeviceConfig::new(None, None, None, None, true, None);
    assert_eq!(plan_launch_now(Some(true), Ok(None), &forced), Launch::Start);
    assert_eq!(plan_launch_now(Some(true), Ok(Some(3)), &forced), Launch::Resume(3));
    assert_eq!(plan_launch_now(Some(false), Ok(Some(3)), &forced), Launch::Busy);
    let never = DeviceConfig::unset();
    assert_eq!(plan_launch_now(Some(true), Ok(None), &never), Launch::Wait);
    assert!(keep_watching_now(&forced, &std::time::Instant::now(), Some(true)));
    assert!(!keep_watching_now(&never, &std::time::Instant::now(), Some(true)));
    assert!(!keep_watching_now(&forced, &std::time::Instant::now(), None));
}

#[test]
fn watching_stops_past_the_run_limit() {
    let limited = DeviceConfig::new(None, None, None, None, true, Some(1_000));
    assert!(keep_watching(&limited, MON_2024_09_02, 1_000, Some(true)));
    assert!(!keep_watching(&limited, MON_2024_09_02, 1_001, Some(true)));
    let zero = DeviceConfig::new(None, None, None, None, true, Some(0));
    let started = std::time::Instant::now();
    while started.elapsed().as_nanos() == 0 {}
    assert!(!keep_watching_now(&zero, &started, Some(true)));
    let hour = DeviceConfig::new(None, None, None, None, true, Some(3_600_000_000_000));
    assert!(keep_watching_now(&hour, &std::time::Instant::now(), Some(true)));
}

#[test]
fn watching_allowed_by_clock_and_limit() {
    let hour = DeviceConfig::new(None, None, None, None, true, Some(3_600_000_000_000));
    assert!(watch_allowed_now(&hour, &std::time::Instant::now()));
    let zero = DeviceConfig::new(None, None, None, None, true, Some(0));
    let started = std::time::Instant::now();
    while started.elapsed().as_nanos() == 0 {}
    assert!(!watch_allowed_now(&zero, &started));
    assert!(!watch_allowed_now(&DeviceConfig::unset(), &std::time::Instant::now()));
}
