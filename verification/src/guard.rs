//! The idempotency guard of the swap command: a swap for a key is accepted
//! only when the retry delay has passed since the last accepted one.

use crate::error::ContractError;
use crate::state::RetryKey;
use crate::timestamp::{Timestamp, NANOS_PER_SECOND};
use vstd::prelude::*;

verus! {

/// The first instant, in nanoseconds, at which a swap may be repeated after
/// one accepted at `last`.
pub open spec fn deadline(last: Timestamp, retry_delay: u64) -> int {
    last.nanos + retry_delay * NANOS_PER_SECOND
}

/// Whether an earlier swap still blocks a new one at `now`: there is a record
/// and its deadline lies after `now`.
pub open spec fn is_pending(
    prior_record: Option<Timestamp>,
    retry_delay: u64,
    now: Timestamp,
) -> bool {
    prior_record matches Some(last) && deadline(last, retry_delay) > now.nanos
}

/// The record that an accepted swap writes: the time of acceptance, under
/// the swap's key.
#[derive(Clone, Debug, PartialEq, Eq)]
pub struct RetryWrite {
    pub deposit_id: String,
    pub number_trades: String,
    pub time: Timestamp,
}

impl RetryWrite {
    /// The key under which the record is written.
    pub open spec fn key(self) -> RetryKey {
        (self.deposit_id@, self.number_trades@)
    }
}

/// Decides a swap for `key` at `now`, given the record that the key has.
///
/// A swap without a record, or with one whose deadline has come, is accepted,
/// and the result says to record `now` under the key. Otherwise the swap is
/// rejected as pending. The deadline is computed without wrapping.
pub fn guard_swap(
    now: Timestamp,
    key: (String, String),
    retry_delay: u64,
    prior_record: Option<Timestamp>,
) -> (out: Result<RetryWrite, ContractError>)
    ensures
        is_pending(prior_record, retry_delay, now) ==> out == Err::<RetryWrite, ContractError>(
            ContractError::AllPending {  },
        ),
        !is_pending(prior_record, retry_delay, now) ==> (out matches Ok(write) && write.key() == (
            key.0@,
            key.1@,
        ) && write.time == now),
{
    match prior_record {
        Some(last) => {
            assert(NANOS_PER_SECOND == 1_000_000_000);
            let deadline: u128 = last.nanos as u128 + retry_delay as u128
                * NANOS_PER_SECOND as u128;
            if deadline > now.nanos as u128 {
                return Err(ContractError::AllPending {  });
            }
        },
        None => {},
    }
    Ok(RetryWrite { deposit_id: key.0, number_trades: key.1, time: now })
}

} // verus!
