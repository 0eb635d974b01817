use ccx::{generate_session_name, session_name_from_id, starts_with_prefix};
use std::collections::HashSet;

#[test]
fn name_is_prefix_and_eight_hex_digits() {
    assert_eq!(session_name_from_id(0), "ccx-00000000");
    assert_eq!(session_name_from_id(0xdeadbeef), "ccx-deadbeef");
    assert_eq!(session_name_from_id(0x0000abcd), "ccx-0000abcd");
    assert_eq!(session_name_from_id(u32::MAX), "ccx-ffffffff");
}

#[test]
fn generated_name_wraps_timestamp_plus_pid() {
    assert_eq!(generate_session_name(0x10, 0x20), "ccx-00000030");
    assert_eq!(generate_session_name(u32::MAX, 2), "ccx-00000001");
}

#[test]
fn ten_thousand_generated_names_are_distinct() {
    let pid = 4242u32;
    let mut seen = HashSet::new();
    for i in 0..10_000u32 {
        let nanos = 1_700_000_000u32.wrapping_add(i.wrapping_mul(977));
        assert!(seen.insert(generate_session_name(nanos, pid)));
    }
    assert_eq!(seen.len(), 10_000);
}

#[test]
fn prefix_check() {
    assert!(starts_with_prefix("ccx-1"));
    assert!(starts_with_prefix("ccx-"));
    assert!(!starts_with_prefix("ccx"));
    assert!(!starts_with_prefix("xccx-"));
}
