use luxamor::clock::{elapsed_since, more_than_seconds_passed, Timestamp, MAX_TIMESTAMP_SECS, MIN_TIMESTAMP_SECS};

fn at(secs: i64, nanos: u32) -> Timestamp {
    Timestamp { secs, nanos }
}

#[test]
fn elapsed_is_exact_difference() {
    assert_eq!(elapsed_since(&at(100, 0), &at(40, 0)), 60_000_000_000);
    assert_eq!(elapsed_since(&at(100, 250), &at(100, 500)), -250);
    assert_eq!(elapsed_since(&at(-5, 0), &at(5, 1)), -10_000_000_001);
    assert_eq!(elapsed_since(&at(0, 0), &at(0, 0)), 0);
}

#[test]
fn elapsed_counts_a_leap_second_once() {
    // 2015-06-30 23:59:60.500 (a leap second) minus 2015-06-30 23:00:00
    let leap = at(1435708799, 1_500_000_000);
    let hour_before = at(1435705200, 0);
    assert_eq!(elapsed_since(&leap, &hour_before), 3600 * 1_000_000_000 + 500_000_000);
}

#[test]
fn elapsed_over_the_whole_range() {
    let first = at(-8334601228800, 0);
    let last = at(8210266876799, 999_999_999);
    let e = elapsed_since(&last, &first);
    assert_eq!(e, (8210266876799i128 + 8334601228800i128) * 1_000_000_000 + 999_999_999);
}

#[test]
fn more_than_seconds_passed_is_strict() {
    let then = at(1000, 0);
    assert!(!more_than_seconds_passed(&at(1300, 0), &then, 300));
    assert!(more_than_seconds_passed(&at(1300, 1), &then, 300));
    assert!(!more_than_seconds_passed(&at(1299, 999_999_999), &then, 300));
    assert!(more_than_seconds_passed(&at(1000, 0), &then, -1));
    assert!(!more_than_seconds_passed(&at(1000, 0), &then, 0));
}

#[test]
fn elapsed_around_leap_seconds_as_chrono_counts() {
    // 2015-06-30 03:00:59 and 02:59:59, both written as leap seconds
    let a = at(1435633259, 1_000_000_000);
    let b = at(1435633199, 1_000_000_000);
    assert_eq!(elapsed_since(&a, &b), 61_000_000_000);
    // within one leap second
    assert_eq!(elapsed_since(&a, &at(1435633259, 0)), 1_000_000_000);
    // 03:00:00 after the leap second 02:59:59
    assert_eq!(elapsed_since(&at(1435633200, 0), &at(1435633199, 1_000_000_000)), 1_000_000_000);
    // the other way round
    assert_eq!(elapsed_since(&at(1435633199, 1_000_000_000), &at(1435633200, 0)), -1_000_000_000);
}

#[test]
fn bounds_are_exactly_chronos_range() {
    let first = chrono::DateTime::from_timestamp(MIN_TIMESTAMP_SECS, 0).unwrap();
    assert_eq!(first.naive_utc().to_string(), "-262143-01-01 00:00:00");
    assert!(chrono::DateTime::from_timestamp(MIN_TIMESTAMP_SECS - 1, 0).is_none());
    let last = chrono::DateTime::from_timestamp(MAX_TIMESTAMP_SECS, 0).unwrap();
    assert_eq!(last.naive_utc().to_string(), "+262142-12-31 23:59:59");
    assert!(chrono::DateTime::from_timestamp(MAX_TIMESTAMP_SECS + 1, 0).is_none());
    assert_eq!(chrono::NaiveDate::MIN.to_string(), "-262143-01-01");
}

#[test]
fn colour_with_hash_inside_is_read() {
    assert!(luxamor::helpers::valid_hex("b0#0b69"));
    assert!(luxamor::helpers::valid_hex("+fffff"));
    assert!(!luxamor::helpers::valid_hex("+ff"));
    assert!(!luxamor::helpers::valid_hex("-fffff"));
}
