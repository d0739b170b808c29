use mdcheck_ng::device::IoClass;
use mdcheck_ng::ionice::parse_ionice;

#[test]
fn ionice_command_line_options() {
    assert_eq!(parse_ionice("-c3"), Some(IoClass::Idle));
    assert_eq!(parse_ionice("-c 3"), Some(IoClass::Idle));
    assert_eq!(parse_ionice("-c2 -n7"), Some(IoClass::BestEffort(7)));
    assert_eq!(parse_ionice("  -c2   -n 3 "), Some(IoClass::BestEffort(3)));
    assert_eq!(parse_ionice("-c1"), Some(IoClass::Realtime(4)));
    assert_eq!(parse_ionice("-c 1 -n 0"), Some(IoClass::Realtime(0)));
    assert_eq!(parse_ionice("-n7"), Some(IoClass::BestEffort(7)));
    assert_eq!(parse_ionice("-c idle"), Some(IoClass::Idle));
    assert_eq!(parse_ionice("-c best-effort -n 0"), Some(IoClass::BestEffort(0)));
    assert_eq!(parse_ionice("-c realtime"), Some(IoClass::Realtime(4)));
    assert_eq!(parse_ionice("-c1 -c2"), Some(IoClass::BestEffort(4)));
    assert_eq!(parse_ionice("-n1 -n2"), Some(IoClass::BestEffort(2)));
    assert_eq!(parse_ionice("-c3 -n7"), Some(IoClass::Idle));
}

#[test]
fn ionice_options_refused() {
    assert_eq!(parse_ionice(""), None);
    assert_eq!(parse_ionice("-c"), None);
    assert_eq!(parse_ionice("-c2 -n"), None);
    assert_eq!(parse_ionice("-c0"), None);
    assert_eq!(parse_ionice("-c4"), None);
    assert_eq!(parse_ionice("-c2 -n8"), None);
    assert_eq!(parse_ionice("-c3 -n9"), None);
    assert_eq!(parse_ionice("-c2 -nx"), None);
    assert_eq!(parse_ionice("-x"), None);
    assert_eq!(parse_ionice("c2"), None);
    assert_eq!(parse_ionice("-c2 extra"), None);
}
