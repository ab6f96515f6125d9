use boot_time::sys::unix::{Instant as Reading, Timespec};
use boot_time::sys::unsupported::Instant as Placeholder;
use boot_time::sys::windows::{Instant as Counted, PerformanceCounterInstant};
use boot_time::sys_common::mul_div_u64;
use boot_time::{Duration, Instant};

fn reading(secs: i64, nanos: u32) -> Reading {
    Reading { t: Timespec { secs, nanos } }
}

fn exact(value: u64, numer: u64, denom: u64) -> u64 {
    (value as u128 * numer as u128 / denom as u128) as u64
}

#[test]
fn mul_div_exact_values() {
    assert_eq!(mul_div_u64(10_000_000, 1_000_000_000, 10_000_000), 1_000_000_000);
    assert_eq!(mul_div_u64(7, 3, 2), 10);
    assert_eq!(mul_div_u64(0, u64::MAX, 1), 0);
    assert_eq!(mul_div_u64(u64::MAX, 1_000_000_000, 1_000_000_000), u64::MAX);
    assert_eq!(mul_div_u64(u64::MAX, u64::MAX, u64::MAX), u64::MAX);
}

#[test]
fn mul_div_near_the_top_of_the_range() {
    let cases: [(u64, u64, u64); 6] = [
        (u64::MAX, 3, 7),
        (u64::MAX - 1, u64::MAX - 2, u64::MAX),
        (1 << 63, 1 << 40, 1 << 41),
        (123_456_789_012_345, 1_000_000_000, 3_579_545),
        (0xdead_beef_cafe_f00d, 0x1234_5678, 0x9abc_def0_1234),
        (u64::MAX / 3, 2, 1),
    ];
    for (v, n, d) in cases {
        assert_eq!(mul_div_u64(v, n, d), exact(v, n, d), "{v} * {n} / {d}");
    }
}

#[test]
fn reading_add_carries_nanoseconds() {
    let a = reading(5, 900_000_000);
    let b = a.checked_add_duration(&Duration::new(1, 200_000_000)).unwrap();
    assert_eq!(b, reading(7, 100_000_000));
    let c = b.checked_sub_duration(&Duration::new(1, 200_000_000)).unwrap();
    assert_eq!(c, a);
}

#[test]
fn reading_add_overflows_at_the_largest_second() {
    let a = reading(i64::MAX, 999_999_999);
    assert_eq!(a.checked_add_duration(&Duration::from_nanos(1)), None);
    assert_eq!(a.checked_add_duration(&Duration::ZERO), Some(a));
    let b = reading(i64::MAX - 1, 999_999_999);
    assert_eq!(b.checked_add_duration(&Duration::from_nanos(1)), Some(reading(i64::MAX, 0)));
}

#[test]
fn reading_sub_overflows_at_the_smallest_second() {
    let a = reading(i64::MIN, 0);
    assert_eq!(a.checked_sub_duration(&Duration::from_nanos(1)), None);
    let b = reading(i64::MIN + 1, 0);
    assert_eq!(b.checked_sub_duration(&Duration::from_nanos(1)), Some(reading(i64::MIN, 999_999_999)));
    let c = reading(0, 0);
    assert_eq!(c.checked_sub_duration(&Duration::from_secs(u64::MAX)), None);
    assert_eq!(
        c.checked_sub_duration(&Duration::from_secs(1 << 63)),
        Some(reading(i64::MIN, 0))
    );
}

#[test]
fn reading_difference_spans_the_whole_range() {
    let hi = reading(i64::MAX, 999_999_999);
    let lo = reading(i64::MIN, 0);
    assert_eq!(hi.checked_sub_instant(&lo), Some(Duration::new(u64::MAX, 999_999_999)));
    assert_eq!(lo.checked_sub_instant(&hi), None);
    let a = reading(3, 100);
    let b = reading(2, 200);
    assert_eq!(a.checked_sub_instant(&b), Some(Duration::new(0, 999_999_900)));
    assert_eq!(b.checked_sub_instant(&a), None);
    assert_eq!(a.checked_sub_instant(&a), Some(Duration::ZERO));
}

#[test]
fn counter_conversion_and_epsilon() {
    let freq: i64 = 10_000_000;
    let t = Counted::now(PerformanceCounterInstant { ts: 25_000_000 }, freq);
    assert_eq!(t.t, Duration::from_millis(2500));
    let odd = Counted::now(PerformanceCounterInstant { ts: 1 }, 3);
    assert_eq!(odd.t, Duration::from_nanos(333_333_333));
    assert_eq!(PerformanceCounterInstant::epsilon(freq), Duration::from_nanos(100));
    assert_eq!(PerformanceCounterInstant::epsilon(3), Duration::from_nanos(333_333_333));
}

#[test]
fn counter_difference_tolerates_one_tick() {
    let freq: i64 = 10_000_000;
    let a = Counted { t: Duration::from_nanos(1_000) };
    let within = Counted { t: Duration::from_nanos(1_100) };
    let beyond = Counted { t: Duration::from_nanos(1_101) };
    assert_eq!(a.checked_sub_instant(&within, freq), Some(Duration::ZERO));
    assert_eq!(a.checked_sub_instant(&beyond, freq), None);
    assert_eq!(beyond.checked_sub_instant(&a, freq), Some(Duration::from_nanos(101)));
    assert_eq!(a.checked_sub_instant(&a, freq), Some(Duration::ZERO));
}

#[test]
fn counter_and_placeholder_arithmetic() {
    let a = Counted { t: Duration::from_secs(10) };
    assert_eq!(a.checked_add_duration(&Duration::from_secs(5)), Some(Counted { t: Duration::from_secs(15) }));
    assert_eq!(a.checked_sub_duration(&Duration::from_secs(11)), None);
    assert_eq!(a.checked_add_duration(&Duration::MAX), None);
    let p = Placeholder(Duration::from_secs(10));
    assert_eq!(p.checked_sub_duration(&Duration::from_secs(4)), Some(Placeholder(Duration::from_secs(6))));
    assert_eq!(p.checked_sub_duration(&Duration::from_secs(11)), None);
    assert_eq!(p.checked_add_duration(&Duration::MAX), None);
    assert_eq!(p.checked_sub_instant(&Placeholder(Duration::from_secs(3))), Some(Duration::from_secs(7)));
    assert_eq!(Placeholder(Duration::ZERO).checked_sub_instant(&p), None);
}

#[test]
fn round_trips_by_a_duration() {
    let a = Instant::now();
    for d in [Duration::from_nanos(1), Duration::from_millis(999), Duration::new(86_400, 5)] {
        assert_eq!(a.checked_add(d).unwrap().checked_sub(d), Some(a));
        assert_eq!(a.checked_sub(d).unwrap().checked_add(d), Some(a));
        assert_eq!(a.checked_add(d).unwrap().checked_duration_since(a), Some(d));
    }
}

#[test]
fn elapsed_is_not_negative_and_grows() {
    let a = Instant::now();
    let first = a.elapsed();
    let second = a.elapsed();
    assert!(second >= first);
    assert!(first >= Duration::ZERO);
}

#[test]
fn sum_at_once_matches_one_at_a_time() {
    let a = Instant::now();
    let huge = [Duration::from_secs(u64::MAX / 2), Duration::from_secs(u64::MAX / 2)];
    let total: Duration = huge.iter().sum();
    assert_eq!(a.checked_add(total), None);
    assert_eq!(huge.iter().try_fold(a, |t, d| t.checked_add(*d)), None);
    let small = [Duration::from_secs(3), Duration::from_millis(2), Duration::from_nanos(1)];
    let total: Duration = small.iter().sum();
    assert_eq!(a.checked_sub(total), small.iter().try_fold(a, |t, d| t.checked_sub(*d)));
    assert_eq!(a.checked_add(total), small.iter().try_fold(a, |t, d| t.checked_add(*d)));
    assert_eq!(a.checked_add(total).unwrap().checked_duration_since(a), Some(Duration::new(3, 2_000_001)));
}
