use distrakt::datetime::push_clock;
use distrakt::embed::{rgb, BOT_RED};
use distrakt::text::{bool_to_string, push_decimal, push_signed_decimal, u64_to_decimal};
use distrakt::time::{elapsed, UtcTime, MAX_TIMESTAMP, MIN_TIMESTAMP};

#[test]
fn decimal_of_small_and_large_numbers() {
    assert_eq!(u64_to_decimal(0), "0");
    assert_eq!(u64_to_decimal(7), "7");
    assert_eq!(u64_to_decimal(42), "42");
    assert_eq!(u64_to_decimal(1000), "1000");
    assert_eq!(u64_to_decimal(u64::MAX), "18446744073709551615");
}

#[test]
fn decimal_is_appended() {
    let mut s = String::from("rank ");
    push_decimal(&mut s, 305);
    assert_eq!(s, "rank 305");
}

#[test]
fn signed_decimal_of_negative_numbers() {
    let mut s = String::new();
    push_signed_decimal(&mut s, -5);
    assert_eq!(s, "-5");
    let mut s = String::new();
    push_signed_decimal(&mut s, i64::MIN);
    assert_eq!(s, "-9223372036854775808");
    let mut s = String::new();
    push_signed_decimal(&mut s, 0);
    assert_eq!(s, "0");
    let mut s = String::new();
    push_signed_decimal(&mut s, i64::MAX);
    assert_eq!(s, "9223372036854775807");
}

#[test]
fn booleans_as_text() {
    assert_eq!(bool_to_string(true), "true");
    assert_eq!(bool_to_string(false), "false");
}

fn clock_of(secs: i64) -> String {
    let mut s = String::new();
    push_clock(&mut s, &UtcTime { secs, nanos: 0 });
    s
}

#[test]
fn clock_of_instants() {
    assert_eq!(clock_of(0), "00:00:00 UTC");
    assert_eq!(clock_of(3723), "01:02:03 UTC");
    assert_eq!(clock_of(86_399), "23:59:59 UTC");
    assert_eq!(clock_of(86_400 + 45_296), "12:34:56 UTC");
    assert_eq!(clock_of(-1), "23:59:59 UTC");
    assert_eq!(clock_of(-86_400), "00:00:00 UTC");
    assert_eq!(clock_of(MAX_TIMESTAMP), "23:59:59 UTC");
    assert_eq!(clock_of(MIN_TIMESTAMP), "00:00:00 UTC");
}

#[test]
fn clock_matches_chrono() {
    for secs in [0i64, 1_555_555_555, -1_234_567, 1_725_029_869, MAX_TIMESTAMP, MIN_TIMESTAMP] {
        let dt = chrono::DateTime::<chrono::Utc>::from_timestamp(secs, 0).unwrap();
        assert_eq!(clock_of(secs), dt.format("%H:%M:%S UTC").to_string());
    }
}

#[test]
fn colour_of_the_bot() {
    assert_eq!(rgb(237, 28, 36), BOT_RED);
    assert_eq!(rgb(0, 0, 0), 0);
    assert_eq!(rgb(255, 255, 255), 0xFF_FF_FF);
}

#[test]
fn instants_compare_and_add() {
    let a = UtcTime { secs: 10, nanos: 5 };
    let b = UtcTime { secs: 10, nanos: 6 };
    let c = UtcTime { secs: 11, nanos: 0 };
    assert!(a.is_before(&b));
    assert!(!b.is_before(&a));
    assert!(b.is_before(&c));
    assert!(!a.is_before(&a));
    assert_eq!(a.plus_seconds(-20), UtcTime { secs: -10, nanos: 5 });
    assert_eq!(UtcTime::midnight(2), UtcTime { secs: 172_800, nanos: 0 });
}

#[test]
fn range_of_instants_is_chrono_range() {
    assert!(chrono::DateTime::<chrono::Utc>::from_timestamp(MAX_TIMESTAMP, 999_999_999).is_some());
    assert!(chrono::DateTime::<chrono::Utc>::from_timestamp(MIN_TIMESTAMP, 0).is_some());
    assert!(chrono::DateTime::<chrono::Utc>::from_timestamp(MAX_TIMESTAMP + 1, 0).is_none());
    assert!(chrono::DateTime::<chrono::Utc>::from_timestamp(MIN_TIMESTAMP - 1, 0).is_none());
    assert_eq!(distrakt::time::MIN_DAY * 86_400, MIN_TIMESTAMP);
    assert_eq!(distrakt::time::MAX_DAY * 86_400 + 86_399, MAX_TIMESTAMP);
}

fn chrono_of(t: &UtcTime) -> chrono::DateTime<chrono::Utc> {
    chrono::DateTime::<chrono::Utc>::from_timestamp(t.secs, t.nanos).unwrap()
}

#[test]
fn leap_seconds_follow_chrono() {
    // 2016-12-31T23:59:60.5Z
    let leap = UtcTime { secs: 1_483_228_799, nanos: 1_500_000_000 };
    let mut clock = String::new();
    push_clock(&mut clock, &leap);
    assert_eq!(clock, "23:59:60 UTC");
    assert_eq!(clock, chrono_of(&leap).format("%H:%M:%S UTC").to_string());
    for secs in [-3600i64, -1, 0, 1, 60, 86_400] {
        let t = leap.plus_seconds(secs);
        let c = chrono_of(&leap) + chrono::TimeDelta::seconds(secs);
        assert_eq!((t.secs, t.nanos), (c.timestamp(), c.timestamp_subsec_nanos()));
    }
    assert_eq!(leap.plus_seconds(1), UtcTime { secs: 1_483_228_800, nanos: 500_000_000 });
    assert_eq!(leap.plus_seconds(-1), UtcTime { secs: 1_483_228_799, nanos: 500_000_000 });
    let instants = [
        UtcTime { secs: 1_483_228_799, nanos: 0 },
        UtcTime { secs: 1_483_228_800, nanos: 250 },
        UtcTime { secs: 1_483_228_700, nanos: 3 },
        leap,
        UtcTime { secs: 1_483_315_199, nanos: 1_200_000_000 },
        UtcTime { secs: -1, nanos: 1_999_999_999 },
    ];
    for a in instants {
        for b in instants {
            let d = chrono_of(&b).signed_duration_since(chrono_of(&a));
            assert_eq!(elapsed(&a, &b), d.num_nanoseconds().unwrap() as i128);
            assert_eq!(a.is_before(&b), chrono_of(&a) < chrono_of(&b));
        }
    }
    assert_eq!(elapsed(&UtcTime { secs: 1_483_228_799, nanos: 0 }, &leap), 1_500_000_000);
}
