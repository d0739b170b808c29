use mdcheck_ng::cron::{normalize_pattern, ParsedCron};

#[test]
fn parse_roundtrip() {
    assert_eq!(ParsedCron::parse("Sat").unwrap().as_str(), "* * * * * 6");
    assert_eq!(ParsedCron::parse("Sun#1").unwrap().as_str(), "* * * * * 0#1");
    assert_eq!(ParsedCron::parse("Sun#L").unwrap().as_str(), "* * * * * 0#l");
    assert_eq!(ParsedCron::parse("1-7 * Sun").unwrap().as_str(), "* * * 1-7 * 0");
    assert_eq!(ParsedCron::parse("* * * 1-7 * Sun").unwrap().as_str(), "* * * 1-7 * 0");
}

#[test]
fn normalize_fills_missing_fields() {
    assert_eq!(normalize_pattern("Sun#1"), "* * * * * Sun#1");
    assert_eq!(normalize_pattern("1-7 * Sun"), "* * * 1-7 * Sun");
    assert_eq!(normalize_pattern("0 0 1 * * Sun"), "0 0 1 * * Sun");
    assert_eq!(normalize_pattern("0 0 1 * * Sun 2024"), "0 0 1 * * Sun 2024");
    assert_eq!(normalize_pattern(""), "* * * * * * ");
    assert_eq!(normalize_pattern("  Sat \t"), "* * * * *   Sat \t");
}

#[test]
fn parse_keeps_normalized_source() {
    let p = ParsedCron::parse("Sat").unwrap();
    assert_eq!(p.source(), "* * * * * Sat");
    let copy = p.duplicate();
    assert_eq!(copy.source(), "* * * * * Sat");
    assert_eq!(copy.as_str(), "* * * * * 6");
}

#[test]
fn parse_rejects_bad_patterns() {
    assert!(ParsedCron::parse("not a cron at all").is_err());
    assert!(ParsedCron::parse("* * * * * * *").is_err());
    assert!(ParsedCron::parse("61 * * * * *").is_err());
    let e = ParsedCron::parse("Funday").unwrap_err();
    assert!(!e.message.is_empty());
}

// 2024-09-01 was a Sunday, the first of the month.
const SUN_2024_09_01: i64 = 1_725_148_800;
const MON_2024_09_02: i64 = 1_725_235_200;
const SUN_2024_09_08: i64 = 1_725_753_600;

#[test]
fn matches_at_wall_clock() {
    let sun = ParsedCron::parse("Sun").unwrap();
    assert!(sun.matches_at(SUN_2024_09_01));
    assert!(sun.matches_at(SUN_2024_09_01 + 86_399));
    assert!(!sun.matches_at(MON_2024_09_02));
    let first_sun = ParsedCron::parse("Sun#1").unwrap();
    assert!(first_sun.matches_at(SUN_2024_09_01));
    assert!(!first_sun.matches_at(SUN_2024_09_08));
    // five fields: the seconds field left out is filled with `*`
    let at_one = ParsedCron::parse("0 1 * * *").unwrap();
    assert_eq!(at_one.source(), "* 0 1 * * *");
    assert!(at_one.matches_at(MON_2024_09_02 + 3600));
    assert!(at_one.matches_at(MON_2024_09_02 + 3659));
    assert!(!at_one.matches_at(MON_2024_09_02 + 3660));
}

#[test]
fn matches_nothing_out_of_range() {
    let every = ParsedCron::parse("*").unwrap();
    assert!(every.matches_at(0));
    assert!(!every.matches_at(i64::MAX));
    assert!(!every.matches_at(i64::MIN));
    // 262142-11-30 23:59:59 and -262143-01-02 00:00:00, the ends of the range
    assert!(every.matches_at(8_210_264_198_399));
    assert!(!every.matches_at(8_210_264_198_400));
    assert!(every.matches_at(-8_334_601_142_400));
    assert!(!every.matches_at(-8_334_601_142_401));
    let last_day = ParsedCron::parse("* * * L * *").unwrap();
    assert!(last_day.matches_at(8_210_264_198_399));
    let first_monday = ParsedCron::parse("Mon#1").unwrap();
    let _ = first_monday.matches_at(8_210_264_198_399);
    let weekday_near = ParsedCron::parse("* * * 15W * *").unwrap();
    let _ = weekday_near.matches_at(-8_334_601_142_400);
    // matching never fails anywhere in the range, whatever the schedule
    for pattern in ["* * * * * 5L", "* * * L * *", "* * * 1W * *", "* * * 31W * *", "* * * * * Mon#5", "0 0 0 1 1 *"] {
        let p = ParsedCron::parse(pattern).unwrap();
        for t in [-8_334_601_142_400i64, -8_334_601_142_400 + 86_400 * 40, 8_210_264_198_399, 8_210_264_198_399 - 86_400 * 40] {
            let _ = p.matches_at(t);
        }
    }
}

#[test]
fn refusal_carries_croners_message() {
    let e = ParsedCron::parse("Funday").unwrap_err();
    let direct = croner::Cron::new("* * * * * Funday")
        .with_seconds_required()
        .with_dom_and_dow()
        .parse()
        .unwrap_err()
        .to_string();
    assert_eq!(e.message, direct);
    let e2 = ParsedCron::parse("1 2 3 4 5 6 7").unwrap_err();
    let direct2 = croner::Cron::new("1 2 3 4 5 6 7")
        .with_seconds_required()
        .with_dom_and_dow()
        .parse()
        .unwrap_err()
        .to_string();
    assert_eq!(e2.message, direct2);
}
