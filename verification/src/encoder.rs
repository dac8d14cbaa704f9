//! The command encoder: from a command to the payload of its remote call.
//!
//! Each kind of command calls one remote function, whose signature is fixed
//! here. The payload is the selector of that signature followed by the
//! command's arguments, one 32-byte word each, in declaration order.

use crate::abi::{
    address_bytes, address_word, is_address_text, parse_address, selector, token_words,
    types_check, Function, FunctionView, Param, ParamType, ParamView, Token,
};
use crate::error::ContractError;
use crate::msg::{ExecuteMsg, ExecuteMsgView};
use vstd::pervasive::unreached;
use vstd::prelude::*;

verus! {

/// An address parameter of the given name.
pub open spec fn address_param(name: Seq<char>) -> ParamView {
    ParamView { name, kind: ParamType::Address }
}

/// A 256-bit unsigned integer parameter of the given name.
pub open spec fn uint256_param(name: Seq<char>) -> ParamView {
    ParamView { name, kind: ParamType::Uint(256) }
}

/// The signature of the remote `swap`.
pub open spec fn swap_signature() -> FunctionView {
    FunctionView {
        name: "swap"@,
        inputs: seq![
            address_param("receiver"@),
            uint256_param("amount"@),
            uint256_param("expected"@),
            uint256_param("deposit_id"@),
            uint256_param("number_trades"@),
        ],
    }
}

/// The signature of the remote `set_paloma`.
pub open spec fn set_paloma_signature() -> FunctionView {
    FunctionView { name: "set_paloma"@, inputs: seq![] }
}

/// The signature of the remote `update_compass`.
pub open spec fn update_compass_signature() -> FunctionView {
    FunctionView { name: "update_compass"@, inputs: seq![address_param("new_compass"@)] }
}

/// The signature of the remote `update_refund_wallet`.
pub open spec fn update_refund_wallet_signature() -> FunctionView {
    FunctionView {
        name: "update_refund_wallet"@,
        inputs: seq![address_param("new_refund_wallet"@)],
    }
}

/// The signature of the remote `update_fee`.
pub open spec fn update_fee_signature() -> FunctionView {
    FunctionView { name: "update_fee"@, inputs: seq![uint256_param("new_fee"@)] }
}

/// The signature of the remote `update_service_fee_collector`.
pub open spec fn update_service_fee_collector_signature() -> FunctionView {
    FunctionView {
        name: "update_service_fee_collector"@,
        inputs: seq![address_param("new_service_fee_collector"@)],
    }
}

/// The signature of the remote `update_service_fee`.
pub open spec fn update_service_fee_signature() -> FunctionView {
    FunctionView { name: "update_service_fee"@, inputs: seq![uint256_param("new_service_fee"@)] }
}

/// The remote function that a command calls.
pub open spec fn command_function(msg: ExecuteMsgView) -> FunctionView {
    match msg {
        ExecuteMsgView::PutSwap { .. } => swap_signature(),
        ExecuteMsgView::SetPaloma {  } => set_paloma_signature(),
        ExecuteMsgView::UpdateCompass { .. } => update_compass_signature(),
        ExecuteMsgView::UpdateRefundWallet { .. } => update_refund_wallet_signature(),
        ExecuteMsgView::UpdateFee { .. } => update_fee_signature(),
        ExecuteMsgView::UpdateServiceFeeCollector { .. } => update_service_fee_collector_signature(),
        ExecuteMsgView::UpdateServiceFee { .. } => update_service_fee_signature(),
    }
}

/// The address text that a command carries, if it carries one.
pub open spec fn command_address(msg: ExecuteMsgView) -> Option<Seq<char>> {
    match msg {
        ExecuteMsgView::PutSwap { deposit } => Some(deposit.receiver),
        ExecuteMsgView::UpdateCompass { new_compass } => Some(new_compass),
        ExecuteMsgView::UpdateRefundWallet { new_refund_wallet } => Some(new_refund_wallet),
        ExecuteMsgView::UpdateServiceFeeCollector { new_service_fee_collector } => Some(
            new_service_fee_collector,
        ),
        _ => None,
    }
}

/// Whether the address text of a command, if it has one, denotes an address.
pub open spec fn is_well_formed(msg: ExecuteMsgView) -> bool {
    command_address(msg) matches Some(text) ==> is_address_text(text)
}

/// The argument words of a command's call, in declaration order.
pub open spec fn command_arguments(msg: ExecuteMsgView) -> Seq<u8> {
    match msg {
        ExecuteMsgView::PutSwap { deposit } => address_word(address_bytes(deposit.receiver))
            + deposit.amount.bytes@ + deposit.expected.bytes@ + deposit.deposit_id.bytes@
            + deposit.number_trades.bytes@,
        ExecuteMsgView::SetPaloma {  } => Seq::empty(),
        ExecuteMsgView::UpdateCompass { new_compass } => address_word(address_bytes(new_compass)),
        ExecuteMsgView::UpdateRefundWallet { new_refund_wallet } => address_word(
            address_bytes(new_refund_wallet),
        ),
        ExecuteMsgView::UpdateFee { fee } => fee.bytes@,
        ExecuteMsgView::UpdateServiceFeeCollector { new_service_fee_collector } => address_word(
            address_bytes(new_service_fee_collector),
        ),
        ExecuteMsgView::UpdateServiceFee { new_service_fee } => new_service_fee.bytes@,
    }
}

/// The payload of a command's call: the selector of the function's
/// signature, then the argument words.
pub open spec fn command_payload(msg: ExecuteMsgView) -> Seq<u8> {
    selector(command_function(msg).signature())@ + command_arguments(msg)
}

fn address_input(name: &str) -> (param: Param)
    ensures
        param@ == address_param(name@),
{
    Param { name: name.to_owned(), kind: ParamType::Address }
}

fn uint256_input(name: &str) -> (param: Param)
    ensures
        param@ == uint256_param(name@),
{
    Param { name: name.to_owned(), kind: ParamType::Uint(256) }
}

/// The descriptor of a function with one parameter.
fn unary_function(name: &str, input: Param) -> (function: Function)
    ensures
        function@ == (FunctionView { name: name@, inputs: seq![input@] }),
{
    let mut inputs = Vec::new();
    inputs.push(input);
    let function = Function { name: name.to_owned(), inputs };
    assert(function@.inputs =~= seq![input@]);
    function
}

/// The descriptor of the remote `swap`.
fn swap_function() -> (function: Function)
    ensures
        function@ == swap_signature(),
{
    let mut inputs = Vec::new();
    inputs.push(address_input("receiver"));
    inputs.push(uint256_input("amount"));
    inputs.push(uint256_input("expected"));
    inputs.push(uint256_input("deposit_id"));
    inputs.push(uint256_input("number_trades"));
    let function = Function { name: "swap".to_owned(), inputs };
    assert(function@.inputs =~= swap_signature().inputs);
    function
}

/// The signature descriptor of the remote function that a command calls.
pub fn signature_of(msg: &ExecuteMsg) -> (function: Function)
    ensures
        function@ == command_function(msg@),
{
    match msg {
        ExecuteMsg::PutSwap { .. } => swap_function(),
        ExecuteMsg::SetPaloma {  } => {
            let function = Function { name: "set_paloma".to_owned(), inputs: Vec::new() };
            assert(function@.inputs =~= seq![]);
            function
        },
        ExecuteMsg::UpdateCompass { .. } => unary_function(
            "update_compass",
            address_input("new_compass"),
        ),
        ExecuteMsg::UpdateRefundWallet { .. } => unary_function(
            "update_refund_wallet",
            address_input("new_refund_wallet"),
        ),
        ExecuteMsg::UpdateFee { .. } => unary_function("update_fee", uint256_input("new_fee")),
        ExecuteMsg::UpdateServiceFeeCollector { .. } => unary_function(
            "update_service_fee_collector",
            address_input("new_service_fee_collector"),
        ),
        ExecuteMsg::UpdateServiceFee { .. } => unary_function(
            "update_service_fee",
            uint256_input("new_service_fee"),
        ),
    }
}

/// The one token of a call that takes an address, read from its text.
fn address_argument(text: &String) -> (out: Result<Vec<Token>, ContractError>)
    ensures
        out is Ok <==> is_address_text(text@),
        out matches Err(error) ==> error == (ContractError::MalformedInput {  }),
        out matches Ok(tokens) ==> {
            &&& token_words(tokens@) == address_word(address_bytes(text@))
            &&& types_check(tokens@, seq![ParamType::Address])
        },
{
    let address = parse_address(text.as_str())?;
    let mut tokens = Vec::new();
    tokens.push(Token::Address(address));
    proof {
        reveal_with_fuel(token_words, 2);
        assert(token_words(tokens@) =~= address_word(address_bytes(text@)));
    }
    Ok(tokens)
}

/// The one token of a call that takes an unsigned integer.
fn uint256_argument(value: crate::uint256::Uint256) -> (tokens: Vec<Token>)
    ensures
        token_words(tokens@) == value.bytes@,
        types_check(tokens@, seq![ParamType::Uint(256)]),
{
    let mut tokens = Vec::new();
    tokens.push(Token::Uint(value));
    proof {
        reveal_with_fuel(token_words, 2);
        assert(token_words(tokens@) =~= value.bytes@);
    }
    tokens
}

/// The argument tokens of a command's call, in declaration order. A command
/// whose address text denotes no address has none.
fn tokens_of(msg: &ExecuteMsg) -> (out: Result<Vec<Token>, ContractError>)
    ensures
        out is Ok <==> is_well_formed(msg@),
        out matches Err(error) ==> error == (ContractError::MalformedInput {  }),
        out matches Ok(tokens) ==> {
            &&& token_words(tokens@) == command_arguments(msg@)
            &&& types_check(tokens@, command_function(msg@).kinds())
        },
{
    match msg {
        ExecuteMsg::PutSwap { deposit } => {
            let receiver = parse_address(deposit.receiver.as_str())?;
            let mut tokens = Vec::new();
            tokens.push(Token::Address(receiver));
            tokens.push(Token::Uint(deposit.amount));
            tokens.push(Token::Uint(deposit.expected));
            tokens.push(Token::Uint(deposit.deposit_id));
            tokens.push(Token::Uint(deposit.number_trades));
            proof {
                reveal_with_fuel(token_words, 6);
                assert(token_words(tokens@) =~= command_arguments(msg@));
                assert(swap_signature().kinds() =~= seq![
                    ParamType::Address,
                    ParamType::Uint(256),
                    ParamType::Uint(256),
                    ParamType::Uint(256),
                    ParamType::Uint(256),
                ]);
            }
            Ok(tokens)
        },
        ExecuteMsg::SetPaloma {  } => {
            let tokens = Vec::new();
            assert(set_paloma_signature().kinds() =~= seq![]);
            Ok(tokens)
        },
        ExecuteMsg::UpdateCompass { new_compass } => {
            assert(update_compass_signature().kinds() =~= seq![ParamType::Address]);
            address_argument(new_compass)
        },
        ExecuteMsg::UpdateRefundWallet { new_refund_wallet } => {
            assert(update_refund_wallet_signature().kinds() =~= seq![ParamType::Address]);
            address_argument(new_refund_wallet)
        },
        ExecuteMsg::UpdateFee { fee } => {
            assert(update_fee_signature().kinds() =~= seq![ParamType::Uint(256)]);
            Ok(uint256_argument(*fee))
        },
        ExecuteMsg::UpdateServiceFeeCollector { new_service_fee_collector } => {
            assert(update_service_fee_collector_signature().kinds() =~= seq![ParamType::Address]);
            address_argument(new_service_fee_collector)
        },
        ExecuteMsg::UpdateServiceFee { new_service_fee } => {
            assert(update_service_fee_signature().kinds() =~= seq![ParamType::Uint(256)]);
            Ok(uint256_argument(*new_service_fee))
        },
    }
}

/// Encodes a command as the payload of its remote call.
///
/// The one way to fail is an address text that denotes no address. For every
/// other command the payload is [`command_payload`]: the arguments always
/// match the signature, so the encoding itself cannot fail.
pub fn encode(msg: &ExecuteMsg) -> (out: Result<Vec<u8>, ContractError>)
    ensures
        out is Ok <==> is_well_formed(msg@),
        out matches Err(error) ==> error == (ContractError::MalformedInput {  }),
        out matches Ok(payload) ==> payload@ == command_payload(msg@),
{
    let tokens = tokens_of(msg)?;
    let function = signature_of(msg);
    match function.encode_input(&tokens) {
        Ok(payload) => Ok(payload),
        Err(_) => unreached(),
    }
}

} // verus!
