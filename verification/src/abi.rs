//! Solidity-ABI call encoding for fixed-arity functions over addresses and
//! unsigned integers.
//!
//! A call payload is the four-byte selector of the function's canonical
//! signature followed by one 32-byte word for each argument, in declaration
//! order. The hashing and the byte layout are done by the `ethabi` crate; this
//! module states what comes back and checks the arguments around it.

use crate::error::ContractError;
use crate::uint256::{decimal_digits, Uint256};
use ethabi::{
    Address, Function as EthFunction, Param as EthParam, ParamType as EthParamType,
    StateMutability, Token as EthToken, Uint,
};
use std::str::FromStr;
use vstd::prelude::*;

verus! {

/// The type of one function parameter.
#[derive(Clone, Copy, Debug, PartialEq, Eq, Structural)]
pub enum ParamType {
    /// A 20-byte account address.
    Address,
    /// An unsigned integer of the given bit width.
    Uint(usize),
}

/// A named function parameter.
#[derive(Clone, Debug, PartialEq, Eq)]
pub struct Param {
    pub name: String,
    pub kind: ParamType,
}

/// What a [`Param`] denotes.
pub struct ParamView {
    pub name: Seq<char>,
    pub kind: ParamType,
}

impl View for Param {
    type V = ParamView;

    open spec fn view(&self) -> ParamView {
        ParamView { name: self.name@, kind: self.kind }
    }
}

/// The signature descriptor of a remote function: its name and its ordered
/// parameters.
#[derive(Clone, Debug, PartialEq, Eq)]
pub struct Function {
    pub name: String,
    pub inputs: Vec<Param>,
}

/// What a [`Function`] denotes.
pub struct FunctionView {
    pub name: Seq<char>,
    pub inputs: Seq<ParamView>,
}

impl View for Function {
    type V = FunctionView;

    open spec fn view(&self) -> FunctionView {
        FunctionView { name: self.name@, inputs: self.inputs@.map_values(|p: Param| p@) }
    }
}

impl FunctionView {
    /// The parameter types in declaration order.
    pub open spec fn kinds(self) -> Seq<ParamType> {
        self.inputs.map_values(|p: ParamView| p.kind)
    }

    /// The canonical signature text, such as `transfer(address,uint256)`.
    pub open spec fn signature(self) -> Seq<char> {
        signature_text(self.name, self.kinds())
    }
}

/// One argument value of a call.
#[derive(Clone, Copy, Debug, PartialEq, Eq)]
pub enum Token {
    /// The 20 bytes of an address.
    Address([u8; 20]),
    /// An unsigned integer.
    Uint(Uint256),
}

/// The number of tokens from which a call is too long to encode: the words
/// of so many tokens have at least 2^32 bytes, and the encoder counts bytes
/// in 32 bits.
pub const MAX_TOKENS: usize = 0x0800_0000;

/// Why a call could not be encoded.
#[derive(Clone, Copy, Debug, PartialEq, Eq, Structural)]
pub enum AbiError {
    /// The arguments do not match the function's parameters in number or type.
    InvalidData,
}

/// The canonical name of a parameter type.
pub open spec fn type_text(kind: ParamType) -> Seq<char> {
    match kind {
        ParamType::Address => "address"@,
        ParamType::Uint(bits) => "uint"@ + decimal_digits(bits as nat),
    }
}

/// The canonical type names, separated by commas.
pub open spec fn joined_types(kinds: Seq<ParamType>) -> Seq<char>
    decreases kinds.len(),
{
    if kinds.len() == 0 {
        Seq::empty()
    } else if kinds.len() == 1 {
        type_text(kinds[0])
    } else {
        joined_types(kinds.drop_last()) + ","@ + type_text(kinds.last())
    }
}

/// The canonical signature text: the name, then the joined type names in
/// round brackets.
pub open spec fn signature_text(name: Seq<char>, kinds: Seq<ParamType>) -> Seq<char> {
    name + "("@ + joined_types(kinds) + ")"@
}

/// The selector of a signature text: the first four bytes of the Keccak-256
/// hash of its UTF-8 bytes. This names what `ethabi::short_signature` computes
/// for a function whose canonical signature is the text; nothing else is
/// claimed of it.
pub uninterp spec fn selector(signature: Seq<char>) -> [u8; 4];

/// Whether a token is a value of a parameter type. An integer token fits an
/// integer parameter of any width.
pub open spec fn token_fits(token: Token, kind: ParamType) -> bool {
    match token {
        Token::Address(_) => kind is Address,
        Token::Uint(_) => kind is Uint,
    }
}

/// Whether the tokens match the parameter types in number and type.
pub open spec fn types_check(tokens: Seq<Token>, kinds: Seq<ParamType>) -> bool {
    &&& tokens.len() == kinds.len()
    &&& forall|i: int| 0 <= i < tokens.len() ==> token_fits(#[trigger] tokens[i], kinds[i])
}

/// The 32-byte word of an address: twelve zero bytes, then the address.
pub open spec fn address_word(address: Seq<u8>) -> Seq<u8> {
    Seq::new(12, |i: int| 0u8) + address
}

/// The 32-byte word of a token: an address after twelve zero bytes, an
/// integer as its big-endian bytes.
pub open spec fn token_word(token: Token) -> Seq<u8> {
    match token {
        Token::Address(address) => address_word(address@),
        Token::Uint(value) => value.bytes@,
    }
}

/// The words of the tokens, one after the other.
pub open spec fn token_words(tokens: Seq<Token>) -> Seq<u8>
    decreases tokens.len(),
{
    if tokens.len() == 0 {
        Seq::empty()
    } else {
        token_words(tokens.drop_last()) + token_word(tokens.last())
    }
}

/// The payload of a call: selector, then argument words.
pub open spec fn call_payload(function: FunctionView, tokens: Seq<Token>) -> Seq<u8> {
    selector(function.signature())@ + token_words(tokens)
}

/// The value of a hexadecimal digit of either case.
pub open spec fn hex_digit(c: char) -> Option<int> {
    if '0' <= c <= '9' {
        Some(c as int - '0' as int)
    } else if 'a' <= c <= 'f' {
        Some(c as int - 'a' as int + 10)
    } else if 'A' <= c <= 'F' {
        Some(c as int - 'A' as int + 10)
    } else {
        None
    }
}

/// The blank characters that an address text may hold anywhere behind its
/// prefix: space, carriage return, line feed and tab.
pub open spec fn is_blank(c: char) -> bool {
    c == ' ' || c == '\r' || c == '\n' || c == '\t'
}

/// The text without one leading `0x`, if it has one.
pub open spec fn without_prefix(text: Seq<char>) -> Seq<char> {
    if text.len() >= 2 && text[0] == '0' && text[1] == 'x' {
        text.skip(2)
    } else {
        text
    }
}

/// The text without its blank characters.
pub open spec fn without_blanks(text: Seq<char>) -> Seq<char>
    decreases text.len(),
{
    if text.len() == 0 {
        Seq::empty()
    } else if is_blank(text.last()) {
        without_blanks(text.drop_last())
    } else {
        without_blanks(text.drop_last()).push(text.last())
    }
}

/// The characters of an address text that count: what is left without the
/// prefix and the blanks.
pub open spec fn address_digits(text: Seq<char>) -> Seq<char> {
    without_blanks(without_prefix(text))
}

/// Whether a text denotes an address: behind an optional `0x`, and blanks
/// aside, it is exactly forty hexadecimal digits.
pub open spec fn is_address_text(text: Seq<char>) -> bool {
    let digits = address_digits(text);
    &&& digits.len() == 40
    &&& forall|i: int| 0 <= i < 40 ==> hex_digit(#[trigger] digits[i]) is Some
}

/// The twenty bytes that an address text denotes, two digits to a byte, the
/// first digit of each pair in the high half.
pub open spec fn address_bytes(text: Seq<char>) -> Seq<u8> {
    let digits = address_digits(text);
    Seq::new(
        20,
        |i: int|
            (16 * hex_digit(digits[2 * i]).unwrap() + hex_digit(digits[2 * i + 1]).unwrap()) as u8,
    )
}

/// Trusted: `from_str` of `ethabi::Address`. The contract claims that it
/// accepts exactly the texts of [`is_address_text`] and gives the bytes of
/// [`address_bytes`]: it drops one leading `0x`, skips blanks wherever they
/// stand, and wants forty hexadecimal digits and nothing else.
#[verifier::external_body]
fn ethabi_parse_address(text: &str) -> (out: Option<[u8; 20]>)
    ensures
        out is Some <==> is_address_text(text@),
        out matches Some(bytes) ==> bytes@ == address_bytes(text@),
{
    match Address::from_str(text) {
        Ok(address) => Some(address.0),
        Err(_) => None,
    }
}

/// Reads an address from its hexadecimal text.
pub fn parse_address(text: &str) -> (out: Result<[u8; 20], ContractError>)
    ensures
        out is Ok <==> is_address_text(text@),
        out matches Ok(bytes) ==> bytes@ == address_bytes(text@),
        out matches Err(e) ==> e == (ContractError::MalformedInput {  }),
{
    match ethabi_parse_address(text) {
        Some(bytes) => Ok(bytes),
        None => Err(ContractError::MalformedInput {  }),
    }
}

/// The error type of `ethabi`, which the encoder hands through unread.
#[verifier::external_type_specification]
#[verifier::external_body]
pub struct ExEthabiError(ethabi::Error);

/// Trusted: builds the `ethabi::Function` with this name and these inputs and
/// calls its `encode_input` on the tokens. The contract claims that the call
/// succeeds exactly when the tokens match the inputs in number and type, and
/// that the bytes are then the selector of the canonical signature followed by
/// one word per token: an address left-padded with zeros, an integer
/// big-endian. It claims this below [`MAX_TOKENS`] only, where the byte count
/// that `ethabi` keeps in 32 bits cannot overflow.
#[allow(deprecated)]
#[verifier::external_body]
fn ethabi_encode_input(function: &Function, tokens: &Vec<Token>) -> (out: Result<
    Vec<u8>,
    ethabi::Error,
>)
    requires
        tokens@.len() < MAX_TOKENS,
    ensures
        out is Ok <==> types_check(tokens@, function@.kinds()),
        out matches Ok(bytes) ==> bytes@ == selector(function@.signature())@ + token_words(tokens@),
{
    let inputs = function.inputs.iter().map(|p| EthParam {
        name: p.name.clone(),
        kind: match p.kind {
            ParamType::Address => EthParamType::Address,
            ParamType::Uint(bits) => EthParamType::Uint(bits),
        },
        internal_type: None,
    }).collect();
    let values: Vec<_> = tokens.iter().map(|t| match t {
        Token::Address(a) => EthToken::Address(Address::from(*a)),
        Token::Uint(u) => EthToken::Uint(Uint::from_big_endian(&u.bytes)),
    }).collect();
    let (name, state_mutability) = (function.name.clone(), StateMutability::NonPayable);
    EthFunction { name, inputs, outputs: vec![], constant: None, state_mutability }.encode_input(&values)
}

impl Function {
    /// Encodes a call of this function with the given argument tokens.
    ///
    /// Fails exactly when the tokens do not match the parameters in number
    /// and type. There must be fewer than [`MAX_TOKENS`] tokens.
    pub fn encode_input(&self, tokens: &Vec<Token>) -> (out: Result<Vec<u8>, AbiError>)
        requires
            tokens@.len() < MAX_TOKENS,
        ensures
            out is Ok <==> types_check(tokens@, self@.kinds()),
            out matches Ok(bytes) ==> bytes@ == call_payload(self@, tokens@),
            out matches Err(e) ==> e == AbiError::InvalidData,
    {
        match ethabi_encode_input(self, tokens) {
            Ok(bytes) => Ok(bytes),
            Err(_) => Err(AbiError::InvalidData),
        }
    }
}

} // verus!
