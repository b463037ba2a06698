use common::state::{State, UtcTimestamp, MAX_TIMESTAMP_SECS, MIN_TIMESTAMP_SECS};

fn at(secs: i64, nanos: u32) -> UtcTimestamp {
    UtcTimestamp::new(secs, nanos).unwrap()
}

#[test]
fn timestamp_bounds() {
    assert!(UtcTimestamp::new(0, 0).is_some());
    assert!(UtcTimestamp::new(0, 999_999_999).is_some());
    assert!(UtcTimestamp::new(0, 1_000_000_000).is_none());
    assert!(UtcTimestamp::new(MAX_TIMESTAMP_SECS, 999_999_999).is_some());
    assert!(UtcTimestamp::new(MAX_TIMESTAMP_SECS + 1, 0).is_none());
    assert!(UtcTimestamp::new(MIN_TIMESTAMP_SECS, 0).is_some());
    assert!(UtcTimestamp::new(MIN_TIMESTAMP_SECS - 1, 0).is_none());
    let t = at(12, 34);
    assert_eq!(t.secs(), 12);
    assert_eq!(t.nanos(), 34);
}

#[test]
fn timestamp_bounds_match_chrono() {
    assert!(chrono::DateTime::from_timestamp(MAX_TIMESTAMP_SECS, 999_999_999).is_some());
    assert!(chrono::DateTime::from_timestamp(MAX_TIMESTAMP_SECS + 1, 0).is_none());
    assert!(chrono::DateTime::from_timestamp(MIN_TIMESTAMP_SECS, 0).is_some());
    assert!(chrono::DateTime::from_timestamp(MIN_TIMESTAMP_SECS - 1, 999_999_999).is_none());
}

#[test]
fn expiry_across_the_whole_range() {
    let state = State::expiring_at((), at(MIN_TIMESTAMP_SECS, 0));
    assert!(state.is_expired_at(at(MAX_TIMESTAMP_SECS, 0)));
    let state = State::expiring_at((), at(MAX_TIMESTAMP_SECS, 0));
    assert!(!state.is_expired_at(at(MIN_TIMESTAMP_SECS, 0)));
}

#[test]
fn expiry_needs_a_whole_second() {
    let state = State::expiring_at("body", at(100, 0));
    assert!(!state.is_expired_at(at(99, 0)));
    assert!(!state.is_expired_at(at(100, 0)));
    assert!(!state.is_expired_at(at(100, 999_999_999)));
    assert!(state.is_expired_at(at(101, 0)));
    assert!(state.is_expired_at(at(5_000, 0)));

    let state = State::expiring_at(1u8, at(100, 1));
    assert!(!state.is_expired_at(at(101, 0)));
    assert!(state.is_expired_at(at(101, 1)));
}

#[test]
fn expiry_before_epoch() {
    let state = State::expiring_at((), at(-10, 500_000_000));
    assert!(!state.is_expired_at(at(-9, 0)));
    assert!(state.is_expired_at(at(-9, 500_000_000)));
    assert!(state.is_expired_at(at(0, 0)));
}

#[test]
fn expired_stays_expired() {
    let state = State::expiring_at(0u32, at(1_000, 0));
    let mut secs = 1_001;
    while secs < 1_100 {
        assert!(state.is_expired_at(at(secs, 0)));
        secs += 7;
    }
}

#[test]
fn fresh_state_is_not_expired() {
    let state: State<String> = State::from("fresh".to_string());
    assert_eq!(state.body, "fresh");
    assert!(!state.is_expired());
    let now = UtcTimestamp::now();
    assert!(now.secs() > 1_600_000_000);
    assert!(state.expires_at.secs() >= 0);
}

#[test]
fn old_state_is_expired() {
    let state = State::expiring_at("old", at(1_000_000_000, 0));
    assert!(state.is_expired());
}

#[test]
fn state_expired_before_epoch_is_expired_now() {
    let state = State::expiring_at(7u8, at(-100, 0));
    assert!(state.is_expired());
}
