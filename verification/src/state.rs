//! What the relay keeps between commands: the controller state and the time
//! of the last accepted swap for each retry key.

use crate::error::ContractError;
use crate::msg::{Metadata, MetadataView};
use crate::timestamp::Timestamp;
use vstd::prelude::*;

verus! {

/// The controller state. It is written once, at initialisation.
#[derive(Debug, PartialEq, Eq)]
pub struct State {
    /// Least number of seconds between two accepted swaps for one key.
    pub retry_delay: u64,
    /// The remote job that every outbound message targets.
    pub job_id: String,
    /// The only caller whose commands are accepted.
    pub owner: String,
    pub metadata: Metadata,
}

/// What a [`State`] denotes.
pub struct StateView {
    pub retry_delay: u64,
    pub job_id: Seq<char>,
    pub owner: Seq<char>,
    pub metadata: MetadataView,
}

impl View for State {
    type V = StateView;

    open spec fn view(&self) -> StateView {
        StateView {
            retry_delay: self.retry_delay,
            job_id: self.job_id@,
            owner: self.owner@,
            metadata: self.metadata@,
        }
    }
}

impl Clone for State {
    fn clone(&self) -> (copy: State)
        ensures
            copy@ == self@,
    {
        State {
            retry_delay: self.retry_delay,
            job_id: self.job_id.clone(),
            owner: self.owner.clone(),
            metadata: self.metadata.clone(),
        }
    }
}

/// A retry key: the decimal texts of a deposit id and of a trade count. Keys
/// are compared as texts, character by character.
pub type RetryKey = (Seq<char>, Seq<char>);

/// The time of the last accepted swap for one key.
#[derive(Debug, PartialEq, Eq)]
struct RetryRecord {
    deposit_id: String,
    number_trades: String,
    time: Timestamp,
}

impl Clone for RetryRecord {
    fn clone(&self) -> (copy: RetryRecord)
        ensures
            copy == *self,
    {
        RetryRecord {
            deposit_id: self.deposit_id.clone(),
            number_trades: self.number_trades.clone(),
            time: self.time,
        }
    }
}

impl RetryRecord {
    spec fn key(self) -> RetryKey {
        (self.deposit_id@, self.number_trades@)
    }
}

/// Whether some record has this key.
spec fn has_key(records: Seq<RetryRecord>, key: RetryKey) -> bool {
    exists|i: int| 0 <= i < records.len() && #[trigger] records[i].key() == key
}

/// The position of a record with this key.
spec fn position(records: Seq<RetryRecord>, key: RetryKey) -> int {
    choose|i: int| 0 <= i < records.len() && #[trigger] records[i].key() == key
}

/// No key occurs in two records.
spec fn distinct_keys(records: Seq<RetryRecord>) -> bool {
    forall|i: int, j: int|
        0 <= i < j < records.len() ==> #[trigger] records[i].key() != #[trigger] records[j].key()
}

/// The records as a map from key to time.
spec fn record_map(records: Seq<RetryRecord>) -> Map<RetryKey, Timestamp> {
    Map::new(
        |key: RetryKey| has_key(records, key),
        |key: RetryKey| records[position(records, key)].time,
    )
}

/// The store: the controller state, absent until initialised, and the retry
/// records. No key has two records. `==` compares the records in the order
/// in which their keys were first written.
#[derive(Debug, PartialEq, Eq)]
pub struct Storage {
    state: Option<State>,
    records: Vec<RetryRecord>,
}

/// What a [`Storage`] denotes.
pub struct StorageView {
    pub state: Option<StateView>,
    pub withdraw_timestamp: Map<RetryKey, Timestamp>,
}

impl View for Storage {
    type V = StorageView;

    closed spec fn view(&self) -> StorageView {
        StorageView {
            state: match self.state {
                Some(state) => Some(state@),
                None => None,
            },
            withdraw_timestamp: record_map(self.records@),
        }
    }
}

impl Clone for Storage {
    fn clone(&self) -> (copy: Storage)
        ensures
            copy@ == self@,
    {
        proof {
            use_type_invariant(self);
        }
        let state = match &self.state {
            Some(state) => Some(state.clone()),
            None => None,
        };
        let records = self.records.clone();
        assert(records@ =~= self.records@);
        Storage { state, records }
    }
}

impl Storage {
    #[verifier::type_invariant]
    spec fn well_formed(self) -> bool {
        distinct_keys(self.records@)
    }

    /// An empty store: no state, no records.
    pub fn new() -> (storage: Storage)
        ensures
            storage@ == (StorageView { state: None, withdraw_timestamp: Map::empty() }),
    {
        let storage = Storage { state: None, records: Vec::new() };
        assert(storage@.withdraw_timestamp =~= Map::empty());
        storage
    }

    /// A copy of the controller state, or `NotFound` before initialisation.
    pub fn load_state(&self) -> (out: Result<State, ContractError>)
        ensures
            match self@.state {
                Some(state) => out matches Ok(loaded) && loaded@ == state,
                None => out matches Err(e) && e == (ContractError::NotFound {  }),
            },
    {
        match &self.state {
            Some(state) => Ok(state.clone()),
            None => Err(ContractError::NotFound {  }),
        }
    }

    /// Writes the controller state, over what was there.
    pub fn save_state(&mut self, state: State)
        ensures
            final(self)@ == (StorageView { state: Some(state@), ..old(self)@ }),
    {
        proof {
            use_type_invariant(&*self);
        }
        self.state = Some(state);
    }

    /// The time recorded for a key, if there is one.
    pub fn may_load_timestamp(&self, deposit_id: &String, number_trades: &String) -> (out: Option<
        Timestamp,
    >)
        ensures
            out == (if self@.withdraw_timestamp.contains_key((deposit_id@, number_trades@)) {
                Some(self@.withdraw_timestamp[(deposit_id@, number_trades@)])
            } else {
                None
            }),
    {
        proof {
            use_type_invariant(self);
        }
        match self.find(deposit_id, number_trades) {
            Some(i) => {
                proof {
                    lemma_record_at(self.records@, i as int);
                }
                Some(self.records[i].time)
            },
            None => None,
        }
    }

    /// Records a time for a key, over what was recorded for it.
    pub fn save_timestamp(&mut self, deposit_id: String, number_trades: String, time: Timestamp)
        ensures
            final(self)@ == (StorageView {
                withdraw_timestamp: old(self)@.withdraw_timestamp.insert(
                    (deposit_id@, number_trades@),
                    time,
                ),
                ..old(self)@
            }),
    {
        proof {
            use_type_invariant(&*self);
        }
        let found = self.find(&deposit_id, &number_trades);
        let record = RetryRecord { deposit_id, number_trades, time };
        let mut records = Vec::new();
        std::mem::swap(&mut records, &mut self.records);
        let ghost before = records@;
        match found {
            Some(i) => {
                records.set(i, record);
                proof {
                    lemma_overwrite(before, i as int, record);
                }
            },
            None => {
                records.push(record);
                proof {
                    lemma_append(before, record);
                }
            },
        }
        self.records = records;
    }

    /// The position of the record with this key, if there is one.
    fn find(&self, deposit_id: &String, number_trades: &String) -> (out: Option<usize>)
        ensures
            match out {
                Some(i) => i < self.records@.len() && self.records@[i as int].key() == (
                    deposit_id@,
                    number_trades@,
                ),
                None => !has_key(self.records@, (deposit_id@, number_trades@)),
            },
    {
        let mut i: usize = 0;
        while i < self.records.len()
            invariant
                i <= self.records@.len(),
                forall|j: int|
                    0 <= j < i ==> #[trigger] self.records@[j].key() != (deposit_id@, number_trades@),
            decreases self.records@.len() - i,
        {
            let record = &self.records[i];
            if record.deposit_id == *deposit_id && record.number_trades == *number_trades {
                return Some(i);
            }
            i += 1;
        }
        None
    }
}

/// With distinct keys, the map holds each record's time at its key.
proof fn lemma_record_at(records: Seq<RetryRecord>, i: int)
    requires
        distinct_keys(records),
        0 <= i < records.len(),
    ensures
        record_map(records).contains_key(records[i].key()),
        record_map(records)[records[i].key()] == records[i].time,
{
    let key = records[i].key();
    assert(has_key(records, key));
    let p = position(records, key);
    assert(p == i) by {
        if p < i {
            assert(records[p].key() != records[i].key());
        } else if i < p {
            assert(records[i].key() != records[p].key());
        }
    }
}

/// Writing a record over one with the same key inserts its time at that key.
proof fn lemma_overwrite(records: Seq<RetryRecord>, i: int, record: RetryRecord)
    requires
        distinct_keys(records),
        0 <= i < records.len(),
        records[i].key() == record.key(),
    ensures
        distinct_keys(records.update(i, record)),
        record_map(records.update(i, record)) == record_map(records).insert(
            record.key(),
            record.time,
        ),
{
    let after = records.update(i, record);
    assert(distinct_keys(after)) by {
        assert forall|a: int, b: int| 0 <= a < b < after.len() implies #[trigger] after[a].key()
            != #[trigger] after[b].key() by {
            assert(records[a].key() != records[b].key());
        }
    }
    assert forall|key: RetryKey| has_key(after, key) <==> has_key(records, key) by {
        if has_key(after, key) {
            let p = position(after, key);
            assert(records[p].key() == key);
        }
        if has_key(records, key) {
            let p = position(records, key);
            assert(after[p].key() == key);
        }
    }
    assert forall|key: RetryKey| #[trigger] has_key(after, key) implies record_map(after)[key] == (
    if key == record.key() {
        record.time
    } else {
        record_map(records)[key]
    }) by {
        let p = position(after, key);
        lemma_record_at(after, p);
        if key != record.key() {
            assert(p != i);
            assert(records[p].key() == key);
            lemma_record_at(records, p);
        } else {
            lemma_record_at(after, i);
        }
    }
    assert(record_map(after) =~= record_map(records).insert(record.key(), record.time));
}

/// Appending a record with a new key inserts its time at that key.
proof fn lemma_append(records: Seq<RetryRecord>, record: RetryRecord)
    requires
        distinct_keys(records),
        !has_key(records, record.key()),
    ensures
        distinct_keys(records.push(record)),
        record_map(records.push(record)) == record_map(records).insert(record.key(), record.time),
{
    let after = records.push(record);
    let last = records.len() as int;
    assert(distinct_keys(after)) by {
        assert forall|a: int, b: int| 0 <= a < b < after.len() implies #[trigger] after[a].key()
            != #[trigger] after[b].key() by {
            if b < last {
                assert(records[a].key() != records[b].key());
            } else {
                assert(records[a].key() != record.key());
            }
        }
    }
    assert forall|key: RetryKey| has_key(after, key) <==> (has_key(records, key) || key
        == record.key()) by {
        if has_key(after, key) {
            let p = position(after, key);
            if p < last {
                assert(records[p].key() == key);
            }
        }
        if has_key(records, key) {
            let p = position(records, key);
            assert(after[p].key() == key);
        }
        if key == record.key() {
            assert(after[last].key() == key);
        }
    }
    assert forall|key: RetryKey| #[trigger] has_key(after, key) implies record_map(after)[key] == (
    if key == record.key() {
        record.time
    } else {
        record_map(records)[key]
    }) by {
        let p = position(after, key);
        lemma_record_at(after, p);
        if key != record.key() {
            assert(p != last);
            assert(records[p].key() == key);
            lemma_record_at(records, p);
        } else {
            lemma_record_at(after, last);
        }
    }
    assert(record_map(after) =~= record_map(records).insert(record.key(), record.time));
}

} // verus!
