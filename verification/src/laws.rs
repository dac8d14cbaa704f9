//! What holds of the command handlers, proved from their contracts.

use crate::abi::{address_bytes, is_address_text, joined_types, selector, type_text, ParamType};
use crate::contract::{handled, rejection, retry_key, storage_after};
use crate::encoder::{
    command_arguments, command_function, command_payload, set_paloma_signature, swap_signature,
    update_compass_signature, update_fee_signature, update_refund_wallet_signature,
    update_service_fee_collector_signature, update_service_fee_signature,
};
use crate::error::ContractError;
use crate::guard::deadline;
use crate::msg::{DepositView, ExecuteMsgView};
use crate::response::Response;
use crate::state::{RetryKey, StorageView};
use crate::timestamp::Timestamp;
use crate::uint256::{be_value, decimal_digits, lemma_decimal_injective};
use vstd::prelude::*;

verus! {

/// A command from anyone but the owner is turned down as unauthorized,
/// whatever the command, and the store stays as it was.
pub proof fn lemma_only_owner_commands(
    before: StorageView,
    now: Timestamp,
    sender: Seq<char>,
    msg: ExecuteMsgView,
    out: Result<Response, ContractError>,
    after: StorageView,
)
    requires
        before.state matches Some(state) && state.owner != sender,
        handled(before, now, sender, msg, out, after),
    ensures
        out == Err::<Response, ContractError>(ContractError::Unauthorized {  }),
        after == before,
{
}

/// A rejected command, whatever the reason, leaves the store as it was.
pub proof fn lemma_rejection_changes_nothing(
    before: StorageView,
    now: Timestamp,
    sender: Seq<char>,
    msg: ExecuteMsgView,
    out: Result<Response, ContractError>,
    after: StorageView,
)
    requires
        handled(before, now, sender, msg, out, after),
        out is Err,
    ensures
        after == before,
{
}

/// Every accepted command sends exactly one message, and that message
/// carries the job and the metadata of the controller state, whatever the
/// command.
pub proof fn lemma_metadata_passes_through(
    before: StorageView,
    now: Timestamp,
    sender: Seq<char>,
    msg: ExecuteMsgView,
    out: Result<Response, ContractError>,
    after: StorageView,
)
    requires
        handled(before, now, sender, msg, out, after),
        out is Ok,
    ensures
        before.state is Some,
        out->Ok_0@.messages.len() == 1,
        out->Ok_0@.messages[0].metadata == before.state->Some_0.metadata,
        out->Ok_0@.messages[0].job_id == before.state->Some_0.job_id,
        out->Ok_0@.messages[0].payload == command_payload(msg),
        after.state == before.state,
{
}

/// The owner's swap for a key without a record is accepted, and it records
/// the current time under that key.
pub proof fn lemma_first_swap_is_accepted(
    before: StorageView,
    now: Timestamp,
    sender: Seq<char>,
    deposit: DepositView,
)
    requires
        before.state matches Some(state) && state.owner == sender,
        is_address_text(deposit.receiver),
        !before.withdraw_timestamp.contains_key(retry_key(deposit)),
    ensures
        rejection(before, now, sender, ExecuteMsgView::PutSwap { deposit }) is None,
        storage_after(before, now, ExecuteMsgView::PutSwap { deposit }).withdraw_timestamp.get(
            retry_key(deposit),
        ) == Some(now),
{
}

/// After an accepted swap at `first`, the owner's next swap for the same key
/// is pending exactly while the deadline of `first` lies ahead, and is
/// accepted from the deadline on.
pub proof fn lemma_repeat_waits_for_deadline(
    before: StorageView,
    first: Timestamp,
    second: Timestamp,
    sender: Seq<char>,
    deposit: DepositView,
    repeat: DepositView,
)
    requires
        rejection(before, first, sender, ExecuteMsgView::PutSwap { deposit }) is None,
        retry_key(repeat) == retry_key(deposit),
        is_address_text(repeat.receiver),
    ensures
        rejection(
            storage_after(before, first, ExecuteMsgView::PutSwap { deposit }),
            second,
            sender,
            ExecuteMsgView::PutSwap { deposit: repeat },
        ) == (if deadline(first, before.state->Some_0.retry_delay) > second.nanos {
            Some(ContractError::AllPending {  })
        } else {
            None
        }),
{
}

/// Deposits that differ in their deposit id or in their trade count have
/// different retry keys.
pub proof fn lemma_retry_keys_differ(a: DepositView, b: DepositView)
    requires
        a.deposit_id@ != b.deposit_id@ || a.number_trades@ != b.number_trades@,
    ensures
        retry_key(a) != retry_key(b),
{
    if retry_key(a) == retry_key(b) {
        lemma_decimal_injective(a.deposit_id@, b.deposit_id@);
        lemma_decimal_injective(a.number_trades@, b.number_trades@);
    }
}

/// A swap for one key neither changes the record of another key nor the
/// decision on a later swap for that other key.
pub proof fn lemma_keys_are_independent(
    before: StorageView,
    now: Timestamp,
    deposit: DepositView,
    later: Timestamp,
    sender: Seq<char>,
    other: DepositView,
)
    requires
        retry_key(other) != retry_key(deposit),
    ensures
        storage_after(before, now, ExecuteMsgView::PutSwap { deposit }).withdraw_timestamp.get(
            retry_key(other),
        ) == before.withdraw_timestamp.get(retry_key(other)),
        rejection(
            storage_after(before, now, ExecuteMsgView::PutSwap { deposit }),
            later,
            sender,
            ExecuteMsgView::PutSwap { deposit: other },
        ) == rejection(before, later, sender, ExecuteMsgView::PutSwap { deposit: other }),
{
}

/// One command as it reaches the relay: the block time, the caller and the
/// message.
pub struct Step {
    pub now: Timestamp,
    pub sender: Seq<char>,
    pub msg: ExecuteMsgView,
}

/// The store after one command: what [`storage_after`] says where the
/// command is accepted, and the store as it was where it is rejected.
pub open spec fn store_after_step(storage: StorageView, step: Step) -> StorageView {
    if rejection(storage, step.now, step.sender, step.msg) is None {
        storage_after(storage, step.now, step.msg)
    } else {
        storage
    }
}

/// The store after a sequence of commands, handled one after the other.
pub open spec fn store_after_steps(storage: StorageView, steps: Seq<Step>) -> StorageView
    decreases steps.len(),
{
    if steps.len() == 0 {
        storage
    } else {
        store_after_step(store_after_steps(storage, steps.drop_last()), steps.last())
    }
}

/// Handling a command takes the store where [`store_after_step`] says.
pub proof fn lemma_handling_is_a_step(
    before: StorageView,
    now: Timestamp,
    sender: Seq<char>,
    msg: ExecuteMsgView,
    out: Result<Response, ContractError>,
    after: StorageView,
)
    requires
        handled(before, now, sender, msg, out, after),
    ensures
        after == store_after_step(before, Step { now, sender, msg }),
        out is Ok <==> rejection(before, now, sender, msg) is None,
{
}

/// No sequence of commands, from whomever and whenever, changes the
/// controller state: the owner, the job, the retry delay and the metadata
/// stay what initialisation made them.
pub proof fn lemma_state_survives_commands(storage: StorageView, steps: Seq<Step>)
    ensures
        store_after_steps(storage, steps).state == storage.state,
    decreases steps.len(),
{
    if steps.len() > 0 {
        lemma_state_survives_commands(storage, steps.drop_last());
    }
}

/// Through any sequence of commands a key keeps its record, and the time in
/// it never goes back.
pub proof fn lemma_records_only_move_forward(
    storage: StorageView,
    steps: Seq<Step>,
    key: RetryKey,
)
    requires
        storage.withdraw_timestamp.contains_key(key),
    ensures
        store_after_steps(storage, steps).withdraw_timestamp.contains_key(key),
        store_after_steps(storage, steps).withdraw_timestamp[key].nanos
            >= storage.withdraw_timestamp[key].nanos,
    decreases steps.len(),
{
    if steps.len() > 0 {
        lemma_records_only_move_forward(storage, steps.drop_last(), key);
    }
}

/// Two accepted swaps for one key are never closer than the retry delay,
/// whatever commands come between them: the later one is accepted at or
/// after the deadline of the earlier one.
pub proof fn lemma_accepted_swaps_are_spaced(
    storage: StorageView,
    first: Step,
    between: Seq<Step>,
    last: Step,
)
    requires
        first.msg is PutSwap,
        last.msg is PutSwap,
        retry_key(last.msg->deposit) == retry_key(first.msg->deposit),
        rejection(storage, first.now, first.sender, first.msg) is None,
        rejection(
            store_after_steps(store_after_step(storage, first), between),
            last.now,
            last.sender,
            last.msg,
        ) is None,
    ensures
        storage.state is Some,
        last.now.nanos >= deadline(first.now, storage.state->Some_0.retry_delay),
{
    let key = retry_key(first.msg->deposit);
    let started = store_after_step(storage, first);
    assert(started.withdraw_timestamp[key] == first.now);
    lemma_records_only_move_forward(started, between, key);
    lemma_state_survives_commands(started, between);
}

/// The payload of every command begins with the selector of its function's
/// signature, which depends on the kind of command alone and not on its
/// arguments.
pub proof fn lemma_selector_leads(msg: ExecuteMsgView)
    ensures
        command_payload(msg).len() == 4 + command_arguments(msg).len(),
        command_payload(msg).subrange(0, 4) == selector(command_function(msg).signature())@,
        command_payload(msg).skip(4) == command_arguments(msg),
{
    let head = selector(command_function(msg).signature())@;
    assert(head.len() == 4);
    assert(command_payload(msg).subrange(0, 4) =~= head);
    assert(command_payload(msg).skip(4) =~= command_arguments(msg));
}

/// Any two swaps begin with the same four bytes.
pub proof fn lemma_swap_selector_is_fixed(a: DepositView, b: DepositView)
    ensures
        command_payload(ExecuteMsgView::PutSwap { deposit: a }).subrange(0, 4) == command_payload(
            ExecuteMsgView::PutSwap { deposit: b },
        ).subrange(0, 4),
{
    lemma_selector_leads(ExecuteMsgView::PutSwap { deposit: a });
    lemma_selector_leads(ExecuteMsgView::PutSwap { deposit: b });
}

/// The decimal text of 256.
proof fn lemma_decimal_256()
    ensures
        decimal_digits(256) == seq!['2', '5', '6'],
{
    reveal_with_fuel(decimal_digits, 3);
    assert(decimal_digits(256) =~= seq!['2', '5', '6']);
}

/// The canonical names of the two parameter types in use.
proof fn lemma_type_texts()
    ensures
        type_text(ParamType::Address) == "address"@,
        type_text(ParamType::Uint(256)) == "uint256"@,
{
    lemma_decimal_256();
    reveal_strlit("uint");
    reveal_strlit("uint256");
    assert(type_text(ParamType::Uint(256)) =~= "uint256"@);
}

/// The signature texts of the seven remote functions, as the target chain
/// writes them.
pub proof fn lemma_signature_texts()
    ensures
        swap_signature().signature() == "swap(address,uint256,uint256,uint256,uint256)"@,
        set_paloma_signature().signature() == "set_paloma()"@,
        update_compass_signature().signature() == "update_compass(address)"@,
        update_refund_wallet_signature().signature() == "update_refund_wallet(address)"@,
        update_fee_signature().signature() == "update_fee(uint256)"@,
        update_service_fee_collector_signature().signature()
            == "update_service_fee_collector(address)"@,
        update_service_fee_signature().signature() == "update_service_fee(uint256)"@,
{
    lemma_type_texts();
    reveal_strlit("address");
    reveal_strlit("uint256");
    reveal_strlit("(");
    reveal_strlit(")");
    reveal_strlit(",");
    let address = seq![ParamType::Address];
    let uint256 = seq![ParamType::Uint(256)];
    assert(joined_types(address) == "address"@);
    assert(joined_types(uint256) == "uint256"@);
    assert(joined_types(Seq::empty()) == Seq::<char>::empty());
    assert(set_paloma_signature().kinds() =~= Seq::empty());
    assert(update_compass_signature().kinds() =~= address);
    assert(update_refund_wallet_signature().kinds() =~= address);
    assert(update_fee_signature().kinds() =~= uint256);
    assert(update_service_fee_collector_signature().kinds() =~= address);
    assert(update_service_fee_signature().kinds() =~= uint256);
    assert(set_paloma_signature().signature() =~= "set_paloma()"@) by {
        reveal_strlit("set_paloma");
        reveal_strlit("set_paloma()");
    }
    assert(update_compass_signature().signature() =~= "update_compass(address)"@) by {
        reveal_strlit("update_compass");
        reveal_strlit("update_compass(address)");
    }
    assert(update_refund_wallet_signature().signature() =~= "update_refund_wallet(address)"@) by {
        reveal_strlit("update_refund_wallet");
        reveal_strlit("update_refund_wallet(address)");
    }
    assert(update_fee_signature().signature() =~= "update_fee(uint256)"@) by {
        reveal_strlit("update_fee");
        reveal_strlit("update_fee(uint256)");
    }
    assert(update_service_fee_collector_signature().signature()
        =~= "update_service_fee_collector(address)"@) by {
        reveal_strlit("update_service_fee_collector");
        reveal_strlit("update_service_fee_collector(address)");
    }
    assert(update_service_fee_signature().signature() =~= "update_service_fee(uint256)"@) by {
        reveal_strlit("update_service_fee");
        reveal_strlit("update_service_fee(uint256)");
    }
    assert(swap_signature().signature() =~= "swap(address,uint256,uint256,uint256,uint256)"@) by {
        let kinds = seq![
            ParamType::Address,
            ParamType::Uint(256),
            ParamType::Uint(256),
            ParamType::Uint(256),
            ParamType::Uint(256),
        ];
        assert(swap_signature().kinds() =~= kinds);
        let k1 = kinds.take(1);
        let k2 = kinds.take(2);
        let k3 = kinds.take(3);
        let k4 = kinds.take(4);
        assert(k1 =~= address);
        assert(k2.drop_last() =~= k1);
        assert(k3.drop_last() =~= k2);
        assert(k4.drop_last() =~= k3);
        assert(kinds.drop_last() =~= k4);
        reveal_strlit("address,uint256");
        reveal_strlit("address,uint256,uint256");
        reveal_strlit("address,uint256,uint256,uint256");
        reveal_strlit("address,uint256,uint256,uint256,uint256");
        assert(joined_types(k2) =~= "address,uint256"@);
        assert(joined_types(k3) =~= "address,uint256,uint256"@);
        assert(joined_types(k4) =~= "address,uint256,uint256,uint256"@);
        assert(joined_types(kinds) =~= "address,uint256,uint256,uint256,uint256"@);
        reveal_strlit("swap");
        reveal_strlit("swap(address,uint256,uint256,uint256,uint256)");
    }
}

/// The word of a payload at the given position behind the selector.
pub open spec fn payload_word(payload: Seq<u8>, index: int) -> Seq<u8> {
    payload.subrange(4 + 32 * index, 36 + 32 * index)
}

/// The address that a word holds: its last twenty bytes.
pub open spec fn word_address(word: Seq<u8>) -> Seq<u8> {
    word.skip(12)
}

/// Reading the five words of a swap's payload gives back the receiver's
/// twenty bytes, behind twelve zero bytes, and the four integers, byte for
/// byte and hence in value.
pub proof fn lemma_swap_round_trip(deposit: DepositView)
    ensures
        ({
            let payload = command_payload(ExecuteMsgView::PutSwap { deposit });
            &&& payload.len() == 4 + 5 * 32
            &&& word_address(payload_word(payload, 0)) == address_bytes(deposit.receiver)
            &&& payload_word(payload, 0).take(12) == Seq::new(12, |i: int| 0u8)
            &&& payload_word(payload, 1) == deposit.amount.bytes@
            &&& payload_word(payload, 2) == deposit.expected.bytes@
            &&& payload_word(payload, 3) == deposit.deposit_id.bytes@
            &&& payload_word(payload, 4) == deposit.number_trades.bytes@
            &&& be_value(payload_word(payload, 1)) == deposit.amount@
            &&& be_value(payload_word(payload, 2)) == deposit.expected@
            &&& be_value(payload_word(payload, 3)) == deposit.deposit_id@
            &&& be_value(payload_word(payload, 4)) == deposit.number_trades@
        }),
{
    let msg = ExecuteMsgView::PutSwap { deposit };
    let payload = command_payload(msg);
    lemma_selector_leads(msg);
    assert(address_bytes(deposit.receiver).len() == 20);
    assert(word_address(payload_word(payload, 0)) =~= address_bytes(deposit.receiver));
    assert(payload_word(payload, 0).take(12) =~= Seq::new(12, |i: int| 0u8));
    assert(payload_word(payload, 1) =~= deposit.amount.bytes@);
    assert(payload_word(payload, 2) =~= deposit.expected.bytes@);
    assert(payload_word(payload, 3) =~= deposit.deposit_id.bytes@);
    assert(payload_word(payload, 4) =~= deposit.number_trades.bytes@);
}

} // verus!
