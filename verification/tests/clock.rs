use time_for_food::clock::{Duration, TimeOfDay, MAX_DURATION_SECONDS};

fn time(secs: u32, nano: u32) -> TimeOfDay {
    TimeOfDay::from_num_seconds_from_midnight(secs, nano).unwrap()
}

fn seconds(count: i64) -> Duration {
    Duration::try_seconds(count).unwrap()
}

/// The sum as the library states it, computed with plain integers.
fn stated_sum(secs: u32, frac: u32, count: i64) -> (u32, u32) {
    let leap = frac >= 1_000_000_000;
    if leap && count == 0 {
        (secs, frac)
    } else if leap && count > 0 {
        ((secs as i64 + count).rem_euclid(86_400) as u32, frac - 1_000_000_000)
    } else if leap {
        ((secs as i64 + 1 + count).rem_euclid(86_400) as u32, frac - 1_000_000_000)
    } else {
        ((secs as i64 + count).rem_euclid(86_400) as u32, frac)
    }
}

#[test]
fn from_hms_counts_seconds_since_midnight() {
    let t = TimeOfDay::from_hms(9, 30, 15).unwrap();
    assert_eq!(t.num_seconds_from_midnight(), 9 * 3600 + 30 * 60 + 15);
    assert_eq!(t.nanosecond(), 0);
    assert_eq!(TimeOfDay::from_hms(0, 0, 0).unwrap().num_seconds_from_midnight(), 0);
    assert_eq!(TimeOfDay::from_hms(23, 59, 59).unwrap().num_seconds_from_midnight(), 86_399);
}

#[test]
fn from_hms_refuses_parts_out_of_range() {
    assert!(TimeOfDay::from_hms(24, 0, 0).is_none());
    assert!(TimeOfDay::from_hms(23, 60, 0).is_none());
    assert!(TimeOfDay::from_hms(23, 59, 60).is_none());
    assert!(TimeOfDay::from_hms(u32::MAX, u32::MAX, u32::MAX).is_none());
}

#[test]
fn from_seconds_accepts_the_whole_day_and_leap_seconds() {
    assert!(TimeOfDay::from_num_seconds_from_midnight(0, 0).is_some());
    assert!(TimeOfDay::from_num_seconds_from_midnight(86_399, 999_999_999).is_some());
    assert!(TimeOfDay::from_num_seconds_from_midnight(86_399, 1_999_999_999).is_some());
    assert!(TimeOfDay::from_num_seconds_from_midnight(86_400, 0).is_none());
    assert!(TimeOfDay::from_num_seconds_from_midnight(86_399, 2_000_000_000).is_none());
    let t = time(3_600, 1_500_000_000);
    assert_eq!(t.num_seconds_from_midnight(), 3_600);
    assert_eq!(t.nanosecond(), 1_500_000_000);
}

#[test]
fn times_are_ordered_by_seconds_then_nanoseconds() {
    let a = time(100, 5);
    let b = time(100, 6);
    let c = time(101, 0);
    assert!(a < b);
    assert!(b < c);
    assert!(a < c);
    assert!(c > a);
    assert!(a <= a);
    assert!(a >= a);
    assert!(!(a < a));
    assert!(!(b < a));
    assert_eq!(a, time(100, 5));
    assert_ne!(a, b);
    assert_eq!(a.cmp(&b), std::cmp::Ordering::Less);
    assert_eq!(a.partial_cmp(&a), Some(std::cmp::Ordering::Equal));
    assert_eq!(c.partial_cmp(&b), Some(std::cmp::Ordering::Greater));
}

#[test]
fn duration_holds_seconds_within_its_range() {
    assert_eq!(seconds(0).num_seconds(), 0);
    assert_eq!(seconds(1_800).num_seconds(), 1_800);
    assert_eq!(seconds(-7).num_seconds(), -7);
    assert_eq!(seconds(MAX_DURATION_SECONDS).num_seconds(), MAX_DURATION_SECONDS);
    assert_eq!(seconds(-MAX_DURATION_SECONDS).num_seconds(), -MAX_DURATION_SECONDS);
    assert!(Duration::try_seconds(MAX_DURATION_SECONDS + 1).is_none());
    assert!(Duration::try_seconds(-MAX_DURATION_SECONDS - 1).is_none());
    assert!(Duration::try_seconds(i64::MAX).is_none());
    assert!(Duration::try_seconds(i64::MIN).is_none());
}

#[test]
fn plus_moves_forward_by_whole_seconds() {
    let nine = TimeOfDay::from_hms(9, 0, 0).unwrap();
    assert_eq!(nine.plus(seconds(1_800)), TimeOfDay::from_hms(9, 30, 0).unwrap());
    assert_eq!(nine.plus(seconds(0)), nine);
    assert_eq!(nine.plus(seconds(1)), TimeOfDay::from_hms(9, 0, 1).unwrap());
    assert_eq!(time(32_400, 123).plus(seconds(60)), time(32_460, 123));
}

#[test]
fn plus_wraps_around_midnight() {
    let three = TimeOfDay::from_hms(3, 5, 7).unwrap();
    assert_eq!(three.plus(seconds(22 * 3600)), TimeOfDay::from_hms(1, 5, 7).unwrap());
    assert_eq!(three.plus(seconds(-8 * 3600)), TimeOfDay::from_hms(19, 5, 7).unwrap());
    assert_eq!(three.plus(seconds(800 * 86_400)), three);
    let late = TimeOfDay::from_hms(23, 30, 0).unwrap();
    assert_eq!(late.plus(seconds(3_600)), TimeOfDay::from_hms(0, 30, 0).unwrap());
}

#[test]
fn plus_leaves_a_leap_second_behind() {
    let leap = time(3 * 3600 + 5 * 60 + 59, 1_300_000_000);
    assert_eq!(leap.plus(seconds(0)), leap);
    assert_eq!(leap.plus(seconds(10)), time(3 * 3600 + 6 * 60 + 9, 300_000_000));
    assert_eq!(leap.plus(seconds(-10)), time(3 * 3600 + 5 * 60 + 50, 300_000_000));
    assert_eq!(leap.plus(seconds(86_400)), time(3 * 3600 + 5 * 60 + 59, 300_000_000));
}

#[test]
fn plus_agrees_with_its_statement_on_a_grid() {
    let starts = [0u32, 1, 59, 60, 3_599, 32_400, 43_200, 86_340, 86_398, 86_399];
    let fracs = [0u32, 1, 999_999_999, 1_000_000_000, 1_000_000_001, 1_999_999_999];
    let counts = [
        0i64,
        1,
        -1,
        59,
        60,
        -60,
        1_800,
        3_000,
        86_399,
        86_400,
        86_401,
        -86_400,
        -86_401,
        172_800,
        128_849_018_820,
        -128_849_018_880,
        MAX_DURATION_SECONDS,
        -MAX_DURATION_SECONDS,
    ];
    for secs in starts {
        for frac in fracs {
            for count in counts {
                let sum = time(secs, frac).plus(seconds(count));
                let expected = stated_sum(secs, frac, count);
                assert_eq!(
                    (sum.num_seconds_from_midnight(), sum.nanosecond()),
                    expected,
                    "{} s {} ns plus {} s",
                    secs,
                    frac,
                    count
                );
            }
        }
    }
}

#[test]
fn plus_twice_is_plus_of_the_total_for_forward_steps() {
    let start = TimeOfDay::from_hms(9, 0, 0).unwrap();
    let in_two_steps = start.plus(seconds(1_200)).plus(seconds(3_000));
    assert_eq!(in_two_steps, start.plus(seconds(4_200)));
    assert_eq!(in_two_steps, TimeOfDay::from_hms(10, 10, 0).unwrap());
}

/// A fixed sequence of scattered numbers.
fn scattered(state: &mut u64) -> u64 {
    *state = state.wrapping_mul(6_364_136_223_846_793_005).wrapping_add(1_442_695_040_888_963_407);
    *state >> 11
}

#[test]
fn plus_agrees_with_its_statement_on_scattered_values() {
    let mut state = 2026u64;
    for round in 0..200_000 {
        let secs = (scattered(&mut state) % 86_400) as u32;
        let frac = (scattered(&mut state) % 2_000_000_000) as u32;
        let spread = match round % 4 {
            0 => 100,
            1 => 200_000,
            2 => 1 << 40,
            _ => 2 * MAX_DURATION_SECONDS as u64 + 1,
        };
        let count = (scattered(&mut state) % spread) as i64 - (spread / 2) as i64;
        let sum = time(secs, frac).plus(seconds(count));
        assert_eq!(
            (sum.num_seconds_from_midnight(), sum.nanosecond()),
            stated_sum(secs, frac, count),
            "{} s {} ns plus {} s",
            secs,
            frac,
            count
        );
    }
}
