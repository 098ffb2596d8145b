use chrono::NaiveDateTime;
use notification_client::timestamp::{Timestamp, MAX_SECONDS, MIN_SECONDS};

fn at(seconds: i64, nanos: i32) -> Timestamp {
    Timestamp { seconds, nanos }
}

#[test]
fn epoch_renders_as_midnight() {
    assert_eq!(at(0, 0).render(), Some("1970-01-01T00:00:00".to_string()));
}

#[test]
fn whole_seconds_render_without_fraction() {
    assert_eq!(at(1_631_016_000, 0).render(), Some("2021-09-07T12:00:00".to_string()));
    assert_eq!(at(1_234_567_890, 0).render(), Some("2009-02-13T23:31:30".to_string()));
    assert_eq!(at(951_868_799, 0).render(), Some("2000-02-29T23:59:59".to_string()));
}

#[test]
fn seconds_before_the_epoch() {
    assert_eq!(at(-1, 0).render(), Some("1969-12-31T23:59:59".to_string()));
}

#[test]
fn fraction_has_three_six_or_nine_digits() {
    assert_eq!(
        at(1_000_000_000, 500_000_000).render(),
        Some("2001-09-09T01:46:40.500".to_string())
    );
    assert_eq!(at(1, 1_000).render(), Some("1970-01-01T00:00:01.000001".to_string()));
    assert_eq!(at(1, 1).render(), Some("1970-01-01T00:00:01.000000001".to_string()));
}

#[test]
fn leap_second_is_the_sixtieth() {
    assert!(at(59, 1_500_000_000).is_valid());
    assert_eq!(at(59, 1_500_000_000).render(), Some("1970-01-01T00:00:60.500".to_string()));
    assert!(at(-1, 1_000_000_000).is_valid());
    assert_eq!(at(-1, 1_000_000_000).render(), Some("1969-12-31T23:59:60".to_string()));
}

#[test]
fn leap_second_only_at_the_end_of_a_minute() {
    assert!(!at(60, 1_000_000_000).is_valid());
    assert_eq!(at(60, 1_000_000_000).render(), None);
    assert!(!at(-2, 1_000_000_000).is_valid());
    assert_eq!(at(-2, 1_000_000_000).render(), None);
    assert!(at(60, 999_999_999).is_valid());
}

#[test]
fn nanos_out_of_range() {
    assert!(!at(0, -1).is_valid());
    assert_eq!(at(0, -1).render(), None);
    assert!(!at(59, 2_000_000_000).is_valid());
    assert_eq!(at(59, 2_000_000_000).render(), None);
    assert!(!at(0, i32::MIN).is_valid());
    assert!(!at(59, i32::MAX).is_valid());
    assert!(at(59, 1_999_999_999).is_valid());
}

#[test]
fn first_and_last_second() {
    assert!(at(MIN_SECONDS, 0).is_valid());
    assert_eq!(at(MIN_SECONDS, 0).render(), Some("-262143-01-01T00:00:00".to_string()));
    assert!(at(MAX_SECONDS, 999_999_999).is_valid());
    assert_eq!(
        at(MAX_SECONDS, 999_999_999).render(),
        Some("+262142-12-31T23:59:59.999999999".to_string())
    );
}

#[test]
fn seconds_out_of_range() {
    assert!(!at(MIN_SECONDS - 1, 0).is_valid());
    assert_eq!(at(MIN_SECONDS - 1, 0).render(), None);
    assert!(!at(MAX_SECONDS + 1, 0).is_valid());
    assert_eq!(at(MAX_SECONDS + 1, 0).render(), None);
    assert!(!at(i64::MIN, 0).is_valid());
    assert!(!at(i64::MAX, 0).is_valid());
}

#[test]
#[allow(deprecated)]
fn range_is_the_one_chrono_accepts() {
    assert!(NaiveDateTime::from_timestamp_opt(MIN_SECONDS, 0).is_some());
    assert!(NaiveDateTime::from_timestamp_opt(MIN_SECONDS - 1, 0).is_none());
    assert!(NaiveDateTime::from_timestamp_opt(MIN_SECONDS - 1, 999_999_999).is_none());
    assert!(NaiveDateTime::from_timestamp_opt(MAX_SECONDS, 1_999_999_999).is_some());
    assert!(NaiveDateTime::from_timestamp_opt(MAX_SECONDS + 1, 0).is_none());
    assert!(NaiveDateTime::from_timestamp_opt(59, 1_999_999_999).is_some());
    assert!(NaiveDateTime::from_timestamp_opt(59, 2_000_000_000).is_none());
    assert!(NaiveDateTime::from_timestamp_opt(58, 1_000_000_000).is_none());
}

#[test]
#[allow(deprecated)]
fn validity_agrees_with_chrono_on_a_sweep() {
    let seconds = [
        MIN_SECONDS - 86_400,
        MIN_SECONDS - 1,
        MIN_SECONDS,
        MIN_SECONDS + 59,
        -86_401,
        -61,
        -60,
        -1,
        0,
        58,
        59,
        60,
        119,
        86_399,
        86_400,
        MAX_SECONDS - 60,
        MAX_SECONDS,
        MAX_SECONDS + 1,
    ];
    let nanos = [0, 1, 999_999_999, 1_000_000_000, 1_999_999_999, 2_000_000_000, i32::MAX];
    for s in seconds {
        for n in nanos {
            let t = at(s, n);
            let theirs = NaiveDateTime::from_timestamp_opt(s, n as u32);
            assert_eq!(t.is_valid(), theirs.is_some(), "seconds {} nanos {}", s, n);
            assert_eq!(t.render(), theirs.map(|d| format!("{:?}", d)));
        }
    }
}
