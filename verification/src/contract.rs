//! The command handlers: authorisation, the swap guard, and the assembly of
//! the outbound message.
//!
//! Every handler follows one order: load the controller state, check the
//! caller, for a swap consult the guard, encode the call, and only then write
//! and answer. A rejected command changes nothing and sends nothing.

use crate::encoder::{command_function, command_payload, encode, is_well_formed};
use crate::env::{Env, MessageInfo};
use crate::error::ContractError;
use crate::guard::{guard_swap, is_pending};
use crate::msg::{
    texts, Deposit, DepositView, ExecuteMsg, ExecuteMsgView, GetJobIdResponse, InstantiateMsg,
    Metadata, MetadataView, PalomaMsg, PalomaMsgView, QueryMsg,
};
use crate::response::{AttributeView, Response, ResponseView};
use crate::state::{RetryKey, State, StateView, Storage, StorageView};
use crate::timestamp::Timestamp;
use crate::uint256::{decimal_digits, Uint256};
use vstd::prelude::*;

verus! {

/// The retry key of a swap: the decimal texts of its deposit id and of its
/// trade count.
pub open spec fn retry_key(deposit: DepositView) -> RetryKey {
    (decimal_digits(deposit.deposit_id@), decimal_digits(deposit.number_trades@))
}

/// Why a command is rejected, or `None` where it is accepted. The checks come
/// in this order: the state must be there, the caller must be the owner, a
/// swap must not be pending, and the address text must denote an address.
pub open spec fn rejection(
    storage: StorageView,
    now: Timestamp,
    sender: Seq<char>,
    msg: ExecuteMsgView,
) -> Option<ContractError> {
    match storage.state {
        None => Some(ContractError::NotFound {  }),
        Some(state) => {
            if state.owner != sender {
                Some(ContractError::Unauthorized {  })
            } else if msg matches ExecuteMsgView::PutSwap { deposit } && is_pending(
                storage.withdraw_timestamp.get(retry_key(deposit)),
                state.retry_delay,
                now,
            ) {
                Some(ContractError::AllPending {  })
            } else if !is_well_formed(msg) {
                Some(ContractError::MalformedInput {  })
            } else {
                None
            }
        },
    }
}

/// The outbound message of an accepted command. The job and the metadata are
/// those of the controller state; only the payload comes from the command.
pub open spec fn envelope(state: StateView, msg: ExecuteMsgView) -> PalomaMsgView {
    PalomaMsgView { job_id: state.job_id, payload: command_payload(msg), metadata: state.metadata }
}

/// The response to an accepted command: one message, and the name of the
/// remote function as the action.
pub open spec fn response_to(state: StateView, msg: ExecuteMsgView) -> ResponseView {
    ResponseView {
        messages: seq![envelope(state, msg)],
        attributes: seq![AttributeView { key: "action"@, value: command_function(msg).name }],
    }
}

/// The store after an accepted command: a swap records `now` under its key,
/// and every other command leaves the store as it was.
pub open spec fn storage_after(
    storage: StorageView,
    now: Timestamp,
    msg: ExecuteMsgView,
) -> StorageView {
    match msg {
        ExecuteMsgView::PutSwap { deposit } => StorageView {
            withdraw_timestamp: storage.withdraw_timestamp.insert(retry_key(deposit), now),
            ..storage
        },
        _ => storage,
    }
}

/// What handling a command means: a rejected command fails with its reason
/// and leaves the store unchanged; an accepted one answers with
/// [`response_to`] and leaves the store as [`storage_after`] says.
pub open spec fn handled(
    before: StorageView,
    now: Timestamp,
    sender: Seq<char>,
    msg: ExecuteMsgView,
    out: Result<Response, ContractError>,
    after: StorageView,
) -> bool {
    match rejection(before, now, sender, msg) {
        Some(error) => out == Err::<Response, ContractError>(error) && after == before,
        None => {
            &&& out matches Ok(response)
            &&& response@ == response_to(before.state.unwrap(), msg)
            &&& after == storage_after(before, now, msg)
        },
    }
}

/// Checks that the caller is the recorded owner, text for text.
pub fn authorize(state: &State, caller: &String) -> (out: Result<(), ContractError>)
    ensures
        out is Ok <==> caller@ == state@.owner,
        out matches Err(error) ==> error == (ContractError::Unauthorized {  }),
{
    if state.owner == *caller {
        Ok(())
    } else {
        Err(ContractError::Unauthorized {  })
    }
}

/// The controller state, for the owner only.
fn owner_state(deps: &Storage, info: &MessageInfo) -> (out: Result<State, ContractError>)
    ensures
        match deps@.state {
            None => out == Err::<State, ContractError>(ContractError::NotFound {  }),
            Some(state) => if state.owner != info.sender@ {
                out == Err::<State, ContractError>(ContractError::Unauthorized {  })
            } else {
                out matches Ok(loaded) && loaded@ == state
            },
        },
{
    let state = deps.load_state()?;
    authorize(&state, &info.sender)?;
    Ok(state)
}

/// Wraps a payload for the remote job of the controller state.
fn relay(state: State, payload: Vec<u8>, action: &str) -> (response: Response)
    ensures
        response@ == (ResponseView {
            messages: seq![
                PalomaMsgView {
                    job_id: state@.job_id,
                    payload: payload@,
                    metadata: state@.metadata,
                },
            ],
            attributes: seq![AttributeView { key: "action"@, value: action@ }],
        }),
{
    let message = PalomaMsg { job_id: state.job_id, payload, metadata: state.metadata };
    Response::new().add_message(message).add_attribute("action", action)
}

/// Handles a swap: relays the deposit as a call of the remote `swap`, unless
/// a swap for the same deposit id and trade count is still pending. An
/// accepted swap records the block time under its key before it answers.
pub fn swap(deps: &mut Storage, env: Env, info: MessageInfo, deposits: Deposit) -> (out: Result<
    Response,
    ContractError,
>)
    ensures
        handled(
            old(deps)@,
            env.block.time,
            info.sender@,
            ExecuteMsgView::PutSwap { deposit: deposits@ },
            out,
            final(deps)@,
        ),
{
    let state = owner_state(deps, &info)?;
    let deposit_id = deposits.deposit_id.to_string();
    let number_trades = deposits.number_trades.to_string();
    let prior_record = deps.may_load_timestamp(&deposit_id, &number_trades);
    let write = guard_swap(
        env.block.time,
        (deposit_id, number_trades),
        state.retry_delay,
        prior_record,
    )?;
    let payload = encode(&ExecuteMsg::PutSwap { deposit: deposits })?;
    deps.save_timestamp(write.deposit_id, write.number_trades, write.time);
    Ok(relay(state, payload, "swap"))
}

/// Handles `SetPaloma`: relays a call of the remote `set_paloma`, which takes
/// no arguments.
pub fn set_paloma(deps: &Storage, info: MessageInfo) -> (out: Result<Response, ContractError>)
    ensures
        forall|now: Timestamp| #[trigger]
            handled(deps@, now, info.sender@, ExecuteMsgView::SetPaloma {  }, out, deps@),
{
    let state = owner_state(deps, &info)?;
    let payload = encode(&ExecuteMsg::SetPaloma {  })?;
    Ok(relay(state, payload, "set_paloma"))
}

/// Handles `UpdateCompass`: relays the new compass address as a call of the
/// remote `update_compass`.
pub fn update_compass(deps: &Storage, info: MessageInfo, new_compass: String) -> (out: Result<
    Response,
    ContractError,
>)
    ensures
        forall|now: Timestamp| #[trigger]
            handled(
                deps@,
                now,
                info.sender@,
                ExecuteMsgView::UpdateCompass { new_compass: new_compass@ },
                out,
                deps@,
            ),
{
    let state = owner_state(deps, &info)?;
    let payload = encode(&ExecuteMsg::UpdateCompass { new_compass })?;
    Ok(relay(state, payload, "update_compass"))
}

/// Handles `UpdateRefundWallet`: relays the new refund wallet address as a
/// call of the remote `update_refund_wallet`.
pub fn update_refund_wallet(deps: &Storage, info: MessageInfo, new_refund_wallet: String) -> (out:
    Result<Response, ContractError>)
    ensures
        forall|now: Timestamp| #[trigger]
            handled(
                deps@,
                now,
                info.sender@,
                ExecuteMsgView::UpdateRefundWallet { new_refund_wallet: new_refund_wallet@ },
                out,
                deps@,
            ),
{
    let state = owner_state(deps, &info)?;
    let payload = encode(&ExecuteMsg::UpdateRefundWallet { new_refund_wallet })?;
    Ok(relay(state, payload, "update_refund_wallet"))
}

/// Handles `UpdateFee`: relays the new fee as a call of the remote
/// `update_fee`.
pub fn update_fee(deps: &Storage, info: MessageInfo, fee: Uint256) -> (out: Result<
    Response,
    ContractError,
>)
    ensures
        forall|now: Timestamp| #[trigger]
            handled(deps@, now, info.sender@, ExecuteMsgView::UpdateFee { fee }, out, deps@),
{
    let state = owner_state(deps, &info)?;
    let payload = encode(&ExecuteMsg::UpdateFee { fee })?;
    Ok(relay(state, payload, "update_fee"))
}

/// Handles `UpdateServiceFeeCollector`: relays the new collector address as a
/// call of the remote `update_service_fee_collector`.
pub fn update_service_fee_collector(
    deps: &Storage,
    info: MessageInfo,
    new_service_fee_collector: String,
) -> (out: Result<Response, ContractError>)
    ensures
        forall|now: Timestamp| #[trigger]
            handled(
                deps@,
                now,
                info.sender@,
                ExecuteMsgView::UpdateServiceFeeCollector {
                    new_service_fee_collector: new_service_fee_collector@,
                },
                out,
                deps@,
            ),
{
    let state = owner_state(deps, &info)?;
    let payload = encode(&ExecuteMsg::UpdateServiceFeeCollector { new_service_fee_collector })?;
    Ok(relay(state, payload, "update_service_fee_collector"))
}

/// Handles `UpdateServiceFee`: relays the new service fee as a call of the
/// remote `update_service_fee`.
pub fn update_service_fee(deps: &Storage, info: MessageInfo, new_service_fee: Uint256) -> (out:
    Result<Response, ContractError>)
    ensures
        forall|now: Timestamp| #[trigger]
            handled(
                deps@,
                now,
                info.sender@,
                ExecuteMsgView::UpdateServiceFee { new_service_fee },
                out,
                deps@,
            ),
{
    let state = owner_state(deps, &info)?;
    let payload = encode(&ExecuteMsg::UpdateServiceFee { new_service_fee })?;
    Ok(relay(state, payload, "update_service_fee"))
}

/// Handles a command of the owner.
///
/// A command is rejected, in this order, when the controller state has not
/// been initialised, when the caller is not the owner, when it is a swap
/// whose key is still pending, or when its address text denotes no address.
/// A rejected command leaves the store unchanged. An accepted command answers
/// with one outbound message, whose job and metadata are those of the
/// controller state and whose payload is the command's encoded call. Only an
/// accepted swap changes the store: it records the block time under its key.
pub fn execute(deps: &mut Storage, env: Env, info: MessageInfo, msg: ExecuteMsg) -> (out: Result<
    Response,
    ContractError,
>)
    ensures
        handled(old(deps)@, env.block.time, info.sender@, msg@, out, final(deps)@),
{
    match msg {
        ExecuteMsg::PutSwap { deposit } => swap(deps, env, info, deposit),
        ExecuteMsg::SetPaloma {  } => set_paloma(deps, info),
        ExecuteMsg::UpdateCompass { new_compass } => update_compass(deps, info, new_compass),
        ExecuteMsg::UpdateRefundWallet { new_refund_wallet } => update_refund_wallet(
            deps,
            info,
            new_refund_wallet,
        ),
        ExecuteMsg::UpdateFee { fee } => update_fee(deps, info, fee),
        ExecuteMsg::UpdateServiceFeeCollector {
            new_service_fee_collector,
        } => update_service_fee_collector(deps, info, new_service_fee_collector),
        ExecuteMsg::UpdateServiceFee { new_service_fee } => update_service_fee(
            deps,
            info,
            new_service_fee,
        ),
    }
}

/// Initialises the relay: writes the controller state with the caller as the
/// owner, over whatever state was there, and leaves the retry records alone.
pub fn instantiate(deps: &mut Storage, _env: Env, info: MessageInfo, msg: InstantiateMsg) -> (out:
    Result<Response, ContractError>)
    ensures
        final(deps)@ == (StorageView {
            state: Some(
                StateView {
                    retry_delay: msg.retry_delay,
                    job_id: msg.job_id@,
                    owner: info.sender@,
                    metadata: MetadataView { creator: msg.creator@, signers: texts(msg.signers@) },
                },
            ),
            ..old(deps)@
        }),
        out matches Ok(response) && response@ == (ResponseView {
            messages: seq![],
            attributes: seq![
                AttributeView { key: "method"@, value: "instantiate"@ },
                AttributeView { key: "owner"@, value: info.sender@ },
                AttributeView { key: "job_id"@, value: msg.job_id@ },
            ],
        }),
{
    let response = Response::new().add_attribute("method", "instantiate").add_attribute(
        "owner",
        info.sender.as_str(),
    ).add_attribute("job_id", msg.job_id.as_str());
    assert(response@.messages =~= seq![]);
    assert(response@.attributes =~= seq![
        AttributeView { key: "method"@, value: "instantiate"@ },
        AttributeView { key: "owner"@, value: info.sender@ },
        AttributeView { key: "job_id"@, value: msg.job_id@ },
    ]);
    let state = State {
        retry_delay: msg.retry_delay,
        job_id: msg.job_id,
        owner: info.sender,
        metadata: Metadata { creator: msg.creator, signers: msg.signers },
    };
    deps.save_state(state);
    Ok(response)
}

/// Answers a query. The one query there is asks for the remote job.
pub fn query(deps: &Storage, _env: Env, msg: QueryMsg) -> (out: Result<
    GetJobIdResponse,
    ContractError,
>)
    ensures
        match deps@.state {
            Some(state) => out matches Ok(response) && response.job_id@ == state.job_id,
            None => out == Err::<GetJobIdResponse, ContractError>(ContractError::NotFound {  }),
        },
{
    match msg {
        QueryMsg::GetJobId {  } => get_job_id(deps),
    }
}

/// The remote job that the relay targets, or `NotFound` before
/// initialisation.
pub fn get_job_id(deps: &Storage) -> (out: Result<GetJobIdResponse, ContractError>)
    ensures
        match deps@.state {
            Some(state) => out matches Ok(response) && response.job_id@ == state.job_id,
            None => out == Err::<GetJobIdResponse, ContractError>(ContractError::NotFound {  }),
        },
{
    let state = deps.load_state()?;
    Ok(GetJobIdResponse { job_id: state.job_id })
}

} // verus!
