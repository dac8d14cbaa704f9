use command_relay::error::ContractError;
use command_relay::guard::{guard_swap, RetryWrite};
use command_relay::timestamp::Timestamp;

fn key() -> (String, String) {
    ("5".to_string(), "1".to_string())
}

fn write_at(time: Timestamp) -> RetryWrite {
    RetryWrite { deposit_id: "5".to_string(), number_trades: "1".to_string(), time }
}

#[test]
fn guard_accepts_a_key_without_record() {
    let now = Timestamp::from_seconds(100);
    assert_eq!(guard_swap(now, key(), 60, None), Ok(write_at(now)));
}

#[test]
fn guard_accepts_a_key_without_record_at_time_zero() {
    let now = Timestamp::from_nanos(0);
    assert_eq!(guard_swap(now, key(), u64::MAX, None), Ok(write_at(now)));
}

#[test]
fn guard_rejects_before_the_deadline() {
    let last = Some(Timestamp::from_seconds(100));
    let pending = Err(ContractError::AllPending {});
    assert_eq!(guard_swap(Timestamp::from_seconds(100), key(), 60, last), pending);
    assert_eq!(guard_swap(Timestamp::from_seconds(150), key(), 60, last), pending);
    assert_eq!(guard_swap(Timestamp::from_nanos(159_999_999_999), key(), 60, last), pending);
}

#[test]
fn guard_accepts_from_the_deadline_on() {
    let last = Some(Timestamp::from_seconds(100));
    let at = Timestamp::from_seconds(160);
    assert_eq!(guard_swap(at, key(), 60, last), Ok(write_at(at)));
    let after = Timestamp::from_nanos(160_000_000_001);
    assert_eq!(guard_swap(after, key(), 60, last), Ok(write_at(after)));
}

#[test]
fn guard_counts_the_nanoseconds_of_the_record() {
    let last = Some(Timestamp::from_nanos(100_500_000_000));
    assert_eq!(
        guard_swap(Timestamp::from_nanos(160_200_000_000), key(), 60, last),
        Err(ContractError::AllPending {})
    );
    let at = Timestamp::from_nanos(160_500_000_000);
    assert_eq!(guard_swap(at, key(), 60, last), Ok(write_at(at)));
}

#[test]
fn guard_with_no_delay_accepts_at_the_same_instant() {
    let now = Timestamp::from_seconds(100);
    assert_eq!(guard_swap(now, key(), 0, Some(now)), Ok(write_at(now)));
}

#[test]
fn guard_rejects_a_clock_that_went_back() {
    let last = Some(Timestamp::from_seconds(100));
    assert_eq!(
        guard_swap(Timestamp::from_seconds(99), key(), 0, last),
        Err(ContractError::AllPending {})
    );
}

#[test]
fn guard_does_not_wrap_a_far_deadline() {
    let pending = Err(ContractError::AllPending {});
    let last = Some(Timestamp::from_nanos(u64::MAX));
    assert_eq!(guard_swap(Timestamp::from_nanos(u64::MAX), key(), 1, last), pending);
    let early = Some(Timestamp::from_nanos(1));
    assert_eq!(guard_swap(Timestamp::from_nanos(u64::MAX), key(), u64::MAX, early), pending);
    assert_eq!(guard_swap(Timestamp::from_nanos(u64::MAX), key(), 18_446_744_074, early), pending);
    let late = Timestamp::from_nanos(u64::MAX);
    assert_eq!(guard_swap(late, key(), 18_446_744_073, early), Ok(write_at(late)));
}

#[test]
fn guard_hands_the_key_back_as_it_came() {
    let now = Timestamp::from_seconds(1);
    let out = guard_swap(now, ("007".to_string(), "".to_string()), 60, None).unwrap();
    assert_eq!(out.deposit_id, "007");
    assert_eq!(out.number_trades, "");
    assert_eq!(out.time, now);
}
