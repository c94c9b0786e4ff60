use cpu_timer::Delta;

#[test]
fn delta_default_is_zero() {
    assert_eq!(Delta::default().0, 0);
}

#[test]
fn delta_add_is_plain_below_the_range() {
    assert_eq!(Delta(40).add(Delta(2)).0, 42);
}

#[test]
fn delta_add_wraps() {
    assert_eq!(Delta(u64::MAX).add(Delta(5)).0, 4);
    assert_eq!(Delta(u64::MAX).add(Delta(1)).0, 0);
}

#[test]
fn delta_sat_add_is_plain_below_the_range() {
    assert_eq!(Delta(40).sat_add(Delta(2)).0, 42);
    assert_eq!(Delta(u64::MAX - 5).sat_add(Delta(5)).0, u64::MAX);
}

#[test]
fn delta_sat_add_stops_at_the_largest_count() {
    assert_eq!(Delta(u64::MAX - 1).sat_add(Delta(5)).0, u64::MAX);
    assert_eq!(Delta(u64::MAX).sat_add(Delta(u64::MAX)).0, u64::MAX);
}

#[test]
fn delta_sat_add_at_the_ceiling_changes_nothing() {
    for ticks in [0u64, 1, 2, 1000, u64::MAX] {
        assert_eq!(Delta(u64::MAX).sat_add(Delta(ticks)).0, u64::MAX);
    }
}
