use cpu_timer::{Delta, TraceValue};

#[test]
fn value_zero_of_each_width() {
    assert_eq!(<u8 as TraceValue>::zero(), 0);
    assert_eq!(<u16 as TraceValue>::zero(), 0);
    assert_eq!(<u32 as TraceValue>::zero(), 0);
    assert_eq!(<u64 as TraceValue>::zero(), 0);
    assert_eq!(<u128 as TraceValue>::zero(), 0);
    assert_eq!(<usize as TraceValue>::zero(), 0);
    assert_eq!(<() as TraceValue>::zero(), ());
}

#[test]
fn value_sat_add_adds_below_the_ceiling() {
    assert_eq!(TraceValue::sat_add(200u8, 55), 255);
    assert_eq!(TraceValue::sat_add(200u8, 54), 254);
    assert_eq!(TraceValue::sat_add(1u16, 65_000), 65_001);
    assert_eq!(TraceValue::sat_add(7u32, 4_000_000_000), 4_000_000_007);
    assert_eq!(TraceValue::sat_add(7u64, u64::MAX - 7), u64::MAX);
    assert_eq!(TraceValue::sat_add(7u128, u64::MAX), u64::MAX as u128 + 7);
    assert_eq!(TraceValue::sat_add(7usize, 35), 42);
}

#[test]
fn value_sat_add_stops_at_the_ceiling_of_its_width() {
    assert_eq!(TraceValue::sat_add(200u8, 56), u8::MAX);
    assert_eq!(TraceValue::sat_add(0u8, 256), u8::MAX);
    assert_eq!(TraceValue::sat_add(0u8, 257), u8::MAX);
    assert_eq!(TraceValue::sat_add(3u8, u64::MAX), u8::MAX);
    assert_eq!(TraceValue::sat_add(1u16, 65_535), u16::MAX);
    assert_eq!(TraceValue::sat_add(0u16, 0x1_0000), u16::MAX);
    assert_eq!(TraceValue::sat_add(1u32, u32::MAX as u64), u32::MAX);
    assert_eq!(TraceValue::sat_add(0u32, 0x1_0000_0001), u32::MAX);
    assert_eq!(TraceValue::sat_add(1u64, u64::MAX), u64::MAX);
    assert_eq!(TraceValue::sat_add(u128::MAX - 1, 2), u128::MAX);
    assert_eq!(TraceValue::sat_add(usize::MAX - 1, 2), usize::MAX);
    assert_eq!(TraceValue::sat_add(usize::MAX - 1, u64::MAX), usize::MAX);
}

#[test]
fn value_at_the_ceiling_takes_no_more_ticks() {
    for ticks in [0u64, 1, 255, 256, 4096, u64::MAX] {
        assert_eq!(TraceValue::sat_add(u8::MAX, ticks), u8::MAX);
        assert_eq!(TraceValue::sat_add(u16::MAX, ticks), u16::MAX);
        assert_eq!(TraceValue::sat_add(u32::MAX, ticks), u32::MAX);
        assert_eq!(TraceValue::sat_add(u64::MAX, ticks), u64::MAX);
        assert_eq!(TraceValue::sat_add(u128::MAX, ticks), u128::MAX);
        assert_eq!(TraceValue::sat_add(usize::MAX, ticks), usize::MAX);
    }
}

#[test]
fn value_unit_accumulates_nothing() {
    assert_eq!(TraceValue::sat_add((), 0), ());
    assert_eq!(TraceValue::sat_add((), u64::MAX), ());
    assert_eq!(<() as TraceValue>::from_delta(Delta(77)), ());
    assert_eq!(TraceValue::to_delta(()).0, 0);
}

#[test]
fn value_from_delta_keeps_what_fits() {
    assert_eq!(<u8 as TraceValue>::from_delta(Delta(255)), 255);
    assert_eq!(<u16 as TraceValue>::from_delta(Delta(65_535)), 65_535);
    assert_eq!(<u32 as TraceValue>::from_delta(Delta(4_000_000_000)), 4_000_000_000);
    assert_eq!(<u64 as TraceValue>::from_delta(Delta(u64::MAX)), u64::MAX);
    assert_eq!(<u128 as TraceValue>::from_delta(Delta(u64::MAX)), u64::MAX as u128);
    assert_eq!(<usize as TraceValue>::from_delta(Delta(12_345)), 12_345);
}

#[test]
fn value_from_delta_reduces_what_does_not_fit() {
    assert_eq!(<u8 as TraceValue>::from_delta(Delta(256)), 0);
    assert_eq!(<u8 as TraceValue>::from_delta(Delta(0x1234)), 0x34);
    assert_eq!(<u16 as TraceValue>::from_delta(Delta(0x1_2345)), 0x2345);
    assert_eq!(<u32 as TraceValue>::from_delta(Delta(0x1_2345_6789)), 0x2345_6789);
    assert_eq!(
        <usize as TraceValue>::from_delta(Delta(u64::MAX)),
        u64::MAX as usize
    );
}

#[test]
fn value_to_delta_reads_back() {
    assert_eq!(TraceValue::to_delta(255u8).0, 255);
    assert_eq!(TraceValue::to_delta(65_535u16).0, 65_535);
    assert_eq!(TraceValue::to_delta(u32::MAX).0, u32::MAX as u64);
    assert_eq!(TraceValue::to_delta(u64::MAX).0, u64::MAX);
    assert_eq!(TraceValue::to_delta(usize::MAX).0, usize::MAX as u64);
    assert_eq!(TraceValue::to_delta(77u128).0, 77);
}

#[test]
fn value_to_delta_reduces_a_wide_value() {
    assert_eq!(TraceValue::to_delta(u64::MAX as u128 + 1).0, 0);
    assert_eq!(TraceValue::to_delta(u64::MAX as u128 + 43).0, 42);
    assert_eq!(TraceValue::to_delta(u128::MAX).0, u64::MAX);
}
