use cpu_timer::{AccArray, Value};
use std::time::{Duration, Instant};

fn spin() {
    let begin = Instant::now();
    while begin.elapsed() < Duration::from_micros(200) {
        std::hint::spin_loop();
    }
}

#[test]
fn acc_array_default_is_empty() {
    let acc = AccArray::<true, u64, u32, 4>::default();
    assert_eq!(acc.accs(), &[0, 0, 0, 0]);
    assert_eq!(acc.cnts(), &[0, 0, 0, 0]);
    let none = AccArray::<false, u8, u8, 0>::default();
    assert_eq!(none.accs().len(), 0);
    assert_eq!(none.cnts().len(), 0);
}

#[test]
fn acc_array_acc_n_counts_from_the_start() {
    let mut acc = AccArray::<true, u64, u32, 3>::default();
    acc.start_at(1_000);
    acc.acc_n_at(0, 1_010);
    acc.acc_n_at(2, 1_030);
    acc.acc_n_at(0, 1_060);
    assert_eq!(acc.accs(), &[70, 0, 30]);
    assert_eq!(acc.cnts(), &[2, 0, 1]);
}

#[test]
fn acc_array_acc_n_restart_counts_from_the_last_mark() {
    let mut acc = AccArray::<true, u64, u32, 3>::default();
    acc.start_at(1_000);
    acc.acc_n_restart_at(0, 1_010);
    acc.acc_n_restart_at(1, 1_030);
    acc.acc_n_restart_at(2, 1_060);
    assert_eq!(acc.accs(), &[10, 20, 30]);
    assert_eq!(acc.cnts(), &[1, 1, 1]);
    acc.acc_n_at(1, 1_061);
    assert_eq!(acc.accs(), &[10, 21, 30]);
    assert_eq!(acc.cnts(), &[1, 2, 1]);
}

#[test]
fn acc_array_unstarted_counter_counts_from_zero() {
    let mut acc = AccArray::<true, u64, u8, 2>::default();
    acc.acc_n_at(1, 77);
    assert_eq!(acc.accs(), &[0, 77]);
    assert_eq!(acc.cnts(), &[0, 1]);
}

#[test]
fn acc_array_out_of_range_is_ignored() {
    let mut acc = AccArray::<true, u64, u32, 3>::default();
    acc.start_at(1_000);
    acc.acc_n_at(1, 1_005);
    acc.acc_n_at(3, 1_010);
    acc.acc_n_at(usize::MAX, 1_010);
    assert_eq!(acc.accs(), &[0, 5, 0]);
    assert_eq!(acc.cnts(), &[0, 1, 0]);
    acc.acc_n_restart_at(3, 1_500);
    acc.acc_n_restart_at(17, 1_900);
    assert_eq!(acc.accs(), &[0, 5, 0]);
    assert_eq!(acc.cnts(), &[0, 1, 0]);
    acc.acc_n_at(0, 2_000);
    assert_eq!(acc.accs(), &[1_000, 5, 0]);
    assert_eq!(acc.cnts(), &[1, 1, 0]);
}

#[test]
fn acc_array_restart_and_plain_fold_the_same_ticks() {
    let mut plain = AccArray::<true, u16, u8, 2>::default();
    let mut restart = AccArray::<true, u16, u8, 2>::default();
    plain.start_at(400);
    restart.start_at(400);
    plain.acc_n_at(1, 1_234);
    restart.acc_n_restart_at(1, 1_234);
    assert_eq!(plain.accs(), restart.accs());
    assert_eq!(plain.cnts(), restart.cnts());
    assert_eq!(plain.accs(), &[0, 834]);
    plain.acc_n_at(0, 1_300);
    restart.acc_n_at(0, 1_300);
    assert_eq!(plain.accs(), &[900, 834]);
    assert_eq!(restart.accs(), &[66, 834]);
}

#[test]
fn acc_array_value_stops_at_its_ceiling() {
    let mut acc = AccArray::<true, u8, u8, 2>::default();
    acc.start_at(0);
    acc.acc_n_at(0, 200);
    assert_eq!(acc.accs(), &[200, 0]);
    acc.acc_n_at(0, 56);
    assert_eq!(acc.accs(), &[255, 0]);
    assert_eq!(acc.cnts(), &[2, 0]);
    acc.acc_n_at(0, 1);
    acc.acc_n_at(0, 1_000_000);
    acc.acc_n_restart_at(0, 7);
    assert_eq!(acc.accs(), &[255, 0]);
    assert_eq!(acc.cnts(), &[5, 0]);
    acc.acc_n_at(1, 300 + 7);
    assert_eq!(acc.accs(), &[255, 255]);
    assert_eq!(acc.cnts(), &[5, 1]);
}

#[test]
fn acc_array_count_stops_at_its_ceiling() {
    let mut acc = AccArray::<true, u64, u8, 1>::default();
    acc.start_at(0);
    for _ in 0..300 {
        acc.acc_n_at(0, 2);
    }
    assert_eq!(acc.accs(), &[600]);
    assert_eq!(acc.cnts(), &[255]);
}

#[test]
fn acc_array_clear_empties_every_slot() {
    let mut acc = AccArray::<true, u64, u32, 3>::default();
    acc.start_at(1_000);
    acc.acc_n_restart_at(0, 1_010);
    acc.acc_n_restart_at(2, 1_030);
    acc.clear();
    assert_eq!(acc.accs(), &[0, 0, 0]);
    assert_eq!(acc.cnts(), &[0, 0, 0]);
    acc.acc_n_at(1, 9);
    assert_eq!(acc.accs(), &[0, 9, 0]);
    let mut clock = AccArray::<false, u64, u32, 2>::default();
    clock.start();
    clock.acc_n(0);
    clock.acc_n_restart(1);
    clock.clear();
    assert_eq!(clock.accs(), &[0, 0]);
    assert_eq!(clock.cnts(), &[0, 0]);
}

#[test]
fn acc_array_three_stages_are_consecutive_intervals() {
    let begin = Instant::now();
    let mut acc = AccArray::<false, u64, u32, 3>::default();
    acc.start();
    spin();
    acc.acc_n_restart(0);
    spin();
    acc.acc_n_restart(1);
    spin();
    acc.acc_n_restart(2);
    let whole = begin.elapsed().as_nanos() as u64;
    assert_eq!(acc.cnts(), &[1, 1, 1]);
    let accs = acc.accs();
    for ticks in accs {
        assert!(*ticks > 0);
        assert!(*ticks >= 200_000);
    }
    assert!(accs[0] + accs[1] + accs[2] <= whole);
}

#[test]
fn acc_array_clock_acc_n_is_cumulative() {
    let mut acc = AccArray::<false, u64, u32, 2>::default();
    acc.start();
    spin();
    acc.acc_n(0);
    spin();
    acc.acc_n(1);
    acc.acc_n(2);
    let accs = acc.accs();
    assert!(accs[0] >= 200_000);
    assert!(accs[1] >= accs[0] + 200_000);
    assert_eq!(acc.cnts(), &[1, 1]);
}

#[test]
fn acc_array_clock_takes_readings() {
    let base = Instant::now();
    let mut acc = AccArray::<false, u32, u16, 2>::default();
    acc.start_at(Value::at(base));
    acc.acc_n_at(0, Value::at(base + Duration::from_nanos(50)));
    acc.acc_n_restart_at(1, Value::at(base + Duration::from_nanos(80)));
    acc.acc_n_at(0, Value::at(base + Duration::from_nanos(85)));
    assert_eq!(acc.accs(), &[55, 80]);
    assert_eq!(acc.cnts(), &[2, 1]);
}

#[test]
fn acc_array_of_units_reports_nothing() {
    let mut unit = AccArray::<false, (), (), 3>::default();
    let mut int = AccArray::<false, u64, u64, 3>::default();
    unit.start();
    int.start();
    spin();
    for index in [0usize, 2, 3, 1, 2, 99] {
        unit.acc_n(index);
        int.acc_n(index);
        unit.acc_n_restart(index);
        int.acc_n_restart(index);
    }
    assert_eq!(unit.accs(), &[(), (), ()]);
    assert_eq!(unit.cnts(), &[(), (), ()]);
    assert_eq!(int.cnts(), &[2, 2, 4]);
    unit.clear();
    int.clear();
    assert_eq!(unit.accs(), &[(), (), ()]);
    assert_eq!(int.cnts(), &[0, 0, 0]);
}

#[test]
fn acc_array_counts_without_values_and_values_without_counts() {
    let mut counts = AccArray::<true, (), u32, 2>::default();
    let mut values = AccArray::<true, u32, (), 2>::default();
    counts.start_at(10);
    values.start_at(10);
    counts.acc_n_at(1, 25);
    values.acc_n_at(1, 25);
    counts.acc_n_at(2, 25);
    values.acc_n_at(2, 25);
    assert_eq!(counts.accs(), &[(), ()]);
    assert_eq!(counts.cnts(), &[0, 1]);
    assert_eq!(values.accs(), &[0, 15]);
    assert_eq!(values.cnts(), &[(), ()]);
}

#[test]
fn acc_array_is_copied_whole() {
    let mut acc = AccArray::<true, u64, u32, 2>::default();
    acc.start_at(5);
    acc.acc_n_at(0, 8);
    let mut copy = acc;
    copy.acc_n_at(0, 9);
    assert_eq!(acc.accs(), &[3, 0]);
    assert_eq!(copy.accs(), &[7, 0]);
    assert_eq!(copy.cnts(), &[2, 0]);
}
