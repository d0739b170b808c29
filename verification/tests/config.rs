use mdcheck_ng::config::Config;
use mdcheck_ng::cron::ParsedCron;
use mdcheck_ng::device::{DeviceConfig, IoClass};

const SUN_2024_09_07_SAT: i64 = 1_725_667_200;
const SUN_2024_09_01: i64 = 1_725_148_800;
const MON_2024_09_02: i64 = 1_725_235_200;

fn cron(s: &str) -> Option<ParsedCron> {
    Some(ParsedCron::parse(s).unwrap())
}

fn sample() -> Config {
    let global = DeviceConfig::new(cron("Sun#1"), cron("Sun"), Some(IoClass::Idle), Some(15), false, None);
    let mut c = Config::new(global);
    c.insert_device(
        "md127".to_string(),
        DeviceConfig::new(cron("Sat#1"), cron("Sat"), Some(IoClass::BestEffort(7)), None, false, Some(21_600_000_000_000)),
    );
    c
}

#[test]
fn device_settings_override_global() {
    let c = sample();
    let d = c.get("md127");
    assert_eq!(d.start_schedule(), Some("* * * * * Sat#1"));
    assert_eq!(d.continue_schedule(), Some("* * * * * Sat"));
    assert_eq!(d.ionice(), Some(IoClass::BestEffort(7)));
    assert_eq!(d.nice(), Some(15));
    assert_eq!(d.max_run_duration(), Some(21_600_000_000_000));
}

#[test]
fn unlisted_device_gets_global_settings() {
    let c = sample();
    let d = c.get("md0");
    assert_eq!(d.start_schedule(), Some("* * * * * Sun#1"));
    assert_eq!(d.continue_schedule(), Some("* * * * * Sun"));
    assert_eq!(d.ionice(), Some(IoClass::Idle));
    assert_eq!(d.nice(), Some(15));
    assert_eq!(d.max_run_duration(), None);
}

#[test]
fn insert_replaces_device_settings() {
    let mut c = sample();
    c.insert_device("md127".to_string(), DeviceConfig::new(None, None, None, Some(3), false, None));
    assert_eq!(c.device_count(), 1);
    let d = c.get("md127");
    assert_eq!(d.nice(), Some(3));
    assert_eq!(d.start_schedule(), Some("* * * * * Sun#1"));
    c.insert_device("md1".to_string(), DeviceConfig::unset());
    assert_eq!(c.device_count(), 2);
    assert_eq!(c.devices()[1].name, "md1");
}

#[test]
fn config_runs_when_any_device_runs() {
    let c = sample();
    assert!(c.runs_now_at(SUN_2024_09_01));
    assert!(c.runs_now_at(SUN_2024_09_07_SAT));
    assert!(!c.runs_now_at(MON_2024_09_02));
    assert!(c.get("md127").runs_now_at(SUN_2024_09_07_SAT));
    assert!(!c.get("md0").runs_now_at(SUN_2024_09_07_SAT));
}

#[test]
fn empty_config_never_runs() {
    let c = Config::new(DeviceConfig::unset());
    assert!(!c.runs_now_at(SUN_2024_09_01));
    assert!(!c.runs_now());
    assert!(!c.schedule().force_run());
}
