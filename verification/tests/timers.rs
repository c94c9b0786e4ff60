use cpu_timer::{AccTimer, DeltaTimer, Timer, Value};
use std::time::{Duration, Instant};

fn spin() {
    let begin = Instant::now();
    while begin.elapsed() < Duration::from_micros(200) {
        std::hint::spin_loop();
    }
}

#[test]
fn timer_counter_reports_elapsed_ticks() {
    let mut timer = Timer::<true>::default();
    timer.start_at(50);
    assert_eq!(timer.elapsed_at(80), 30);
    assert_eq!(timer.elapsed_and_update_at(90), 40);
    assert_eq!(timer.elapsed_at(95), 5);
}

#[test]
fn timer_clock_reports_elapsed_time() {
    let mut timer = Timer::<false>::default();
    timer.start();
    spin();
    let first = timer.elapsed();
    assert!(first >= 200_000);
    let before_update = Instant::now();
    let second = timer.elapsed_and_update();
    assert!(second >= first);
    let third = timer.elapsed();
    assert!(third <= before_update.elapsed().as_nanos() as u64);
}

#[test]
fn delta_timer_records_at_stop() {
    let mut timer = DeltaTimer::<true>::default();
    assert_eq!(timer.value(), 0);
    timer.start_at(1_000);
    assert_eq!(timer.delta_at(1_010), 10);
    assert_eq!(timer.value(), 0);
    timer.stop_at(1_025);
    assert_eq!(timer.value(), 25);
    timer.stop_at(1_100);
    assert_eq!(timer.value(), 100);
    timer.start_at(2_000);
    assert_eq!(timer.value(), 100);
}

#[test]
fn delta_timer_clear_forgets_the_record() {
    let mut timer = DeltaTimer::<true>::default();
    timer.start_at(1_000);
    timer.stop_at(1_025);
    timer.clear();
    assert_eq!(timer.value(), 0);
    assert_eq!(timer.delta_at(9), 9);
}

#[test]
fn delta_timer_clock_records_the_time_that_passed() {
    let mut timer = DeltaTimer::<false>::default();
    timer.start();
    spin();
    let seen = timer.delta();
    assert!(seen >= 200_000);
    assert_eq!(timer.value(), 0);
    timer.stop();
    assert!(timer.value() >= seen);
    timer.clear();
    assert_eq!(timer.value(), 0);
}

#[test]
fn delta_timer_clock_takes_readings() {
    let base = Instant::now();
    let mut timer = DeltaTimer::<false>::default();
    timer.start_at(Value::at(base));
    timer.stop_at(Value::at(base + Duration::from_nanos(321)));
    assert_eq!(timer.value(), 321);
}

#[test]
fn acc_timer_sums_what_it_records() {
    let mut timer = AccTimer::<true>::default();
    assert_eq!(timer.last_delta(), 0);
    assert_eq!(timer.acc_value(), 0);
    timer.start_at(100);
    timer.stop_at(130);
    assert_eq!(timer.last_delta(), 30);
    assert_eq!(timer.acc_value(), 30);
    timer.start_at(500);
    assert_eq!(timer.last_delta(), 30);
    assert_eq!(timer.acc_value(), 30);
    timer.stop_at(512);
    assert_eq!(timer.last_delta(), 12);
    assert_eq!(timer.acc_value(), 42);
}

#[test]
fn acc_timer_sum_stops_at_the_largest_count() {
    let mut timer = AccTimer::<true>::default();
    timer.start_at(1);
    timer.stop_at(0);
    assert_eq!(timer.last_delta(), u64::MAX);
    assert_eq!(timer.acc_value(), u64::MAX);
    timer.start_at(10);
    timer.stop_at(15);
    assert_eq!(timer.last_delta(), 5);
    assert_eq!(timer.acc_value(), u64::MAX);
}

#[test]
fn acc_timer_clear_forgets_the_sum() {
    let mut timer = AccTimer::<true>::default();
    timer.start_at(100);
    timer.stop_at(130);
    timer.clear();
    assert_eq!(timer.last_delta(), 0);
    assert_eq!(timer.acc_value(), 0);
}

#[test]
fn acc_timer_clock_sums_over_iterations() {
    let mut timer = AccTimer::<false>::default();
    let mut sum = 0u64;
    for _ in 0..5 {
        timer.start();
        spin();
        timer.stop();
        assert!(timer.last_delta() >= 200_000);
        sum += timer.last_delta();
        assert_eq!(timer.acc_value(), sum);
    }
    timer.clear();
    assert_eq!(timer.acc_value(), 0);
}
