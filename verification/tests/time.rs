use pocketcache::clock::Timestamp;
use pocketcache::time::Expiration;

#[test]
fn to_sec() {
    assert_eq!(Expiration::Second(10).to_sec(), 10);
    assert_eq!(Expiration::Second(300).to_sec(), 300);
    assert_eq!(Expiration::Minute(1).to_sec(), 60);
    assert_eq!(Expiration::Minute(20).to_sec(), 1200);
    assert_eq!(Expiration::Hour(1).to_sec(), 3600);
    assert_eq!(Expiration::Hour(24).to_sec(), 86400);
    assert_eq!(Expiration::Default.to_sec(), Expiration::Hour(1).to_sec());
}

#[test]
fn to_sec_of_default_is_one_hour() {
    assert_eq!(Expiration::Default.to_sec(), 3600);
}

#[test]
fn to_sec_of_zero_counts() {
    assert_eq!(Expiration::Second(0).to_sec(), 0);
    assert_eq!(Expiration::Minute(0).to_sec(), 0);
    assert_eq!(Expiration::Hour(0).to_sec(), 0);
}

#[test]
fn to_sec_at_the_largest_lengths_that_fit() {
    assert_eq!(Expiration::Second(u64::MAX).to_sec(), u64::MAX);
    assert_eq!(Expiration::Minute(u64::MAX / 60).to_sec(), u64::MAX / 60 * 60);
    assert_eq!(Expiration::Hour(u64::MAX / 3600).to_sec(), u64::MAX / 3600 * 3600);
}

#[test]
fn total_secs_agrees_with_to_sec() {
    assert_eq!(Expiration::Second(10).total_secs(), 10);
    assert_eq!(Expiration::Minute(20).total_secs(), 1200);
    assert_eq!(Expiration::Hour(24).total_secs(), 86400);
    assert_eq!(Expiration::Default.total_secs(), 3600);
}

#[test]
fn total_secs_beyond_u64() {
    assert_eq!(
        Expiration::Minute(u64::MAX).total_secs(),
        1_106_804_644_422_573_096_900u128
    );
    assert_eq!(
        Expiration::Hour(u64::MAX).total_secs(),
        66_408_278_665_354_385_814_000u128
    );
    assert_eq!(
        Expiration::Minute(u64::MAX / 60 + 1).total_secs(),
        18_446_744_073_709_551_660u128
    );
}

#[test]
fn is_expired_at_the_boundary() {
    let policy = Expiration::Second(10);
    let stored = Timestamp::new(100, 0);
    assert!(!policy.is_expired(&stored, &Timestamp::new(100, 0)));
    assert!(!policy.is_expired(&stored, &Timestamp::new(109, 999_999_999)));
    assert!(policy.is_expired(&stored, &Timestamp::new(110, 0)));
    assert!(policy.is_expired(&stored, &Timestamp::new(111, 0)));
}

#[test]
fn is_expired_when_the_clock_went_back() {
    let policy = Expiration::Hour(1);
    let stored = Timestamp::new(100, 0);
    assert!(policy.is_expired(&stored, &Timestamp::new(99, 999_999_999)));
    assert!(policy.is_expired(&stored, &Timestamp::before_epoch(1, 0)));
}

#[test]
fn is_expired_with_zero_length() {
    let stored = Timestamp::new(7, 7);
    assert!(Expiration::Second(0).is_expired(&stored, &stored));
    assert!(Expiration::Minute(0).is_expired(&stored, &stored));
    assert!(Expiration::Hour(0).is_expired(&stored, &stored));
}

#[test]
fn is_expired_by_minutes_hours_and_default() {
    let stored = Timestamp::new(1_000, 500);
    assert!(!Expiration::Minute(1).is_expired(&stored, &Timestamp::new(1_060, 499)));
    assert!(Expiration::Minute(1).is_expired(&stored, &Timestamp::new(1_060, 500)));
    assert!(!Expiration::Hour(2).is_expired(&stored, &Timestamp::new(8_200, 499)));
    assert!(Expiration::Hour(2).is_expired(&stored, &Timestamp::new(8_200, 500)));
    assert!(!Expiration::Default.is_expired(&stored, &Timestamp::new(4_600, 499)));
    assert!(Expiration::Default.is_expired(&stored, &Timestamp::new(4_600, 500)));
}

#[test]
fn is_expired_with_a_length_beyond_u64() {
    let policy = Expiration::Hour(u64::MAX);
    let first = Timestamp::before_epoch(u64::MAX, 0);
    let last = Timestamp::new(u64::MAX, 999_999_999);
    assert!(!policy.is_expired(&first, &last));
    assert!(policy.is_expired(&last, &first));
}

#[test]
fn is_expired_with_an_age_beyond_u64() {
    let first = Timestamp::before_epoch(u64::MAX, 0);
    let last = Timestamp::new(u64::MAX, 0);
    assert!(Expiration::Second(u64::MAX).is_expired(&first, &last));
    assert!(Expiration::Minute(u64::MAX / 60).is_expired(&first, &last));
    assert!(!Expiration::Minute(u64::MAX / 60 * 3).is_expired(&first, &last));
}

#[test]
fn expiration_is_a_plain_value() {
    let policy = Expiration::Minute(5);
    let copy = policy;
    assert_eq!(policy, copy);
    assert_eq!(policy.clone(), Expiration::Minute(5));
    assert_ne!(policy, Expiration::Second(300));
    assert_eq!(format!("{:?}", Expiration::Default), "Default");
}
