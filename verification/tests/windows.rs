use artifact_relay::gate::cycle_gate;

fn ranges(rs: &[&str]) -> Vec<String> {
    rs.iter().map(|s| s.to_string()).collect()
}

#[test]
fn degenerate_window_admits_exactly_its_minute() {
    let rs = ranges(&["09:00-09:00"]);
    assert!(cycle_gate(&rs, 9 * 3600));
    assert!(!cycle_gate(&rs, 9 * 3600 - 1));
    assert!(!cycle_gate(&rs, 9 * 3600 + 1));
}

#[test]
fn empty_range_list_always_admits() {
    let rs: Vec<String> = Vec::new();
    assert!(cycle_gate(&rs, 0));
    assert!(cycle_gate(&rs, 43210));
    assert!(cycle_gate(&rs, 86399));
}

#[test]
fn window_is_inclusive_at_both_ends() {
    let rs = ranges(&["05:00-09:30"]);
    assert!(cycle_gate(&rs, 5 * 3600));
    assert!(cycle_gate(&rs, 7 * 3600));
    assert!(cycle_gate(&rs, 9 * 3600 + 30 * 60));
    assert!(!cycle_gate(&rs, 5 * 3600 - 1));
    assert!(!cycle_gate(&rs, 9 * 3600 + 30 * 60 + 1));
}

#[test]
fn any_window_suffices() {
    let rs = ranges(&["05:00-06:00", "20:00-21:00"]);
    assert!(cycle_gate(&rs, 5 * 3600 + 60));
    assert!(cycle_gate(&rs, 20 * 3600 + 60));
    assert!(!cycle_gate(&rs, 12 * 3600));
}

#[test]
fn malformed_entries_neither_admit_nor_reject() {
    // Malformed alone: the list is non-empty and nothing admits.
    let rs = ranges(&["nonsense", "05:00", "5-9", "25:00-26:00", "05:00-09:00-10:00"]);
    assert!(!cycle_gate(&rs, 6 * 3600));
    // Malformed beside a well-formed window: the window still admits.
    let rs = ranges(&["nonsense", "05:00-09:00"]);
    assert!(cycle_gate(&rs, 6 * 3600));
}

#[test]
fn single_digit_fields_parse() {
    let rs = ranges(&["5:00-9:5"]);
    assert!(cycle_gate(&rs, 5 * 3600));
    assert!(cycle_gate(&rs, 9 * 3600 + 5 * 60));
    assert!(!cycle_gate(&rs, 9 * 3600 + 6 * 60));
}
