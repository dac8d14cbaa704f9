use command_relay::abi::{
    parse_address, AbiError, Function, Param, ParamType, Token, MAX_TOKENS,
};
use command_relay::error::ContractError;
use command_relay::uint256::Uint256;

fn unhex(text: &str) -> Vec<u8> {
    let digits: Vec<u8> = text
        .bytes()
        .filter(|b| !b.is_ascii_whitespace())
        .map(|b| (b as char).to_digit(16).unwrap() as u8)
        .collect();
    digits.chunks(2).map(|pair| pair[0] * 16 + pair[1]).collect()
}

fn uint(value: u128) -> Uint256 {
    let mut bytes = [0u8; 32];
    bytes[16..].copy_from_slice(&value.to_be_bytes());
    Uint256::from_be_bytes(bytes)
}

fn function(name: &str, kinds: &[ParamType]) -> Function {
    Function {
        name: name.to_string(),
        inputs: kinds
            .iter()
            .enumerate()
            .map(|(i, kind)| Param { name: format!("p{i}"), kind: *kind })
            .collect(),
    }
}

const ALICE: [u8; 20] = [
    0x01, 0x23, 0x45, 0x67, 0x89, 0xab, 0xcd, 0xef, 0xab, 0xcd, 0xef, 0x01, 0x23, 0x45, 0x67, 0x89,
    0xab, 0xcd, 0xef, 0x01,
];

#[test]
fn encode_input_gives_selector_then_words() {
    let transfer = function("transfer", &[ParamType::Address, ParamType::Uint(256)]);
    let tokens = vec![Token::Address(ALICE), Token::Uint(uint(1000))];
    let expected = unhex(
        "a9059cbb
         0000000000000000000000000123456789abcdefabcdef0123456789abcdef01
         00000000000000000000000000000000000000000000000000000000000003e8",
    );
    assert_eq!(transfer.encode_input(&tokens), Ok(expected));
}

#[test]
fn encode_input_without_parameters_is_the_selector_alone() {
    let set_paloma = function("set_paloma", &[]);
    assert_eq!(set_paloma.encode_input(&vec![]), Ok(unhex("23fde8e2")));
}

#[test]
fn encode_input_does_not_depend_on_parameter_names() {
    let kinds = [ParamType::Address, ParamType::Uint(256)];
    let plain = function("transfer", &kinds);
    let mut named = function("transfer", &kinds);
    named.inputs[0].name = "to".to_string();
    named.inputs[1].name = "value".to_string();
    let tokens = vec![Token::Address(ALICE), Token::Uint(uint(7))];
    assert_eq!(plain.encode_input(&tokens), named.encode_input(&tokens));
}

#[test]
fn encode_input_writes_the_width_into_the_signature() {
    let narrow = function("f", &[ParamType::Uint(8)]);
    let expected = unhex(
        "3120d434
         0000000000000000000000000000000000000000000000000000000000000005",
    );
    assert_eq!(narrow.encode_input(&vec![Token::Uint(uint(5))]), Ok(expected));
}

#[test]
fn encode_input_keeps_all_bytes_of_an_integer() {
    let f = function("update_fee", &[ParamType::Uint(256)]);
    let mut bytes = [0u8; 32];
    for (i, byte) in bytes.iter_mut().enumerate() {
        *byte = 0xe0 + i as u8;
    }
    let out = f.encode_input(&vec![Token::Uint(Uint256::from_be_bytes(bytes))]).unwrap();
    assert_eq!(out.len(), 36);
    assert_eq!(&out[..4], unhex("fbd15955").as_slice());
    assert_eq!(&out[4..], &bytes[..]);
}

#[test]
fn encode_input_rejects_too_few_tokens() {
    let transfer = function("transfer", &[ParamType::Address, ParamType::Uint(256)]);
    let tokens = vec![Token::Address(ALICE)];
    assert_eq!(transfer.encode_input(&tokens), Err(AbiError::InvalidData));
}

#[test]
fn encode_input_rejects_too_many_tokens() {
    let set_paloma = function("set_paloma", &[]);
    let tokens = vec![Token::Uint(uint(1))];
    assert_eq!(set_paloma.encode_input(&tokens), Err(AbiError::InvalidData));
}

#[test]
fn encode_input_rejects_a_token_of_the_wrong_type() {
    let transfer = function("transfer", &[ParamType::Address, ParamType::Uint(256)]);
    let swapped = vec![Token::Uint(uint(1000)), Token::Address(ALICE)];
    assert_eq!(transfer.encode_input(&swapped), Err(AbiError::InvalidData));
    let both_integers = vec![Token::Uint(uint(1)), Token::Uint(uint(2))];
    assert_eq!(transfer.encode_input(&both_integers), Err(AbiError::InvalidData));
}

#[test]
fn encode_input_agrees_with_the_decoder_of_ethabi() {
    let kinds = [ParamType::Address, ParamType::Uint(256), ParamType::Uint(256)];
    let f = function("pay", &kinds);
    let big = u128::MAX - 12345;
    let tokens = vec![Token::Address(ALICE), Token::Uint(uint(big)), Token::Uint(uint(0))];
    let payload = f.encode_input(&tokens).unwrap();
    let decoded = ethabi::decode(
        &[ethabi::ParamType::Address, ethabi::ParamType::Uint(256), ethabi::ParamType::Uint(256)],
        &payload[4..],
    )
    .unwrap();
    assert_eq!(
        decoded,
        vec![
            ethabi::Token::Address(ethabi::Address::from(ALICE)),
            ethabi::Token::Uint(ethabi::Uint::from(big)),
            ethabi::Token::Uint(ethabi::Uint::from(0u8)),
        ]
    );
    assert_eq!(
        &payload[..4],
        &ethabi::short_signature(
            "pay",
            &[ethabi::ParamType::Address, ethabi::ParamType::Uint(256), ethabi::ParamType::Uint(256)]
        )[..]
    );
}

#[test]
fn parse_address_reads_forty_digits() {
    assert_eq!(parse_address("0123456789abcdefabcdef0123456789abcdef01"), Ok(ALICE));
}

#[test]
fn parse_address_reads_digits_of_either_case() {
    assert_eq!(parse_address("0123456789ABCDEFabcdef0123456789AbCdEf01"), Ok(ALICE));
}

#[test]
fn parse_address_drops_one_leading_prefix() {
    assert_eq!(parse_address("0x0123456789abcdefabcdef0123456789abcdef01"), Ok(ALICE));
    assert_eq!(
        parse_address("0x0x0123456789abcdefabcdef0123456789abcdef01"),
        Err(ContractError::MalformedInput {})
    );
}

#[test]
fn parse_address_wants_the_prefix_in_lower_case_and_in_front() {
    assert_eq!(
        parse_address("0X0123456789abcdefabcdef0123456789abcdef01"),
        Err(ContractError::MalformedInput {})
    );
    assert_eq!(
        parse_address(" 0x0123456789abcdefabcdef0123456789abcdef01"),
        Err(ContractError::MalformedInput {})
    );
}

#[test]
fn parse_address_skips_blanks_behind_the_prefix() {
    assert_eq!(parse_address("0x 0123456789abcdef\tabcdef0123456789\r\nabcdef0 1 "), Ok(ALICE));
    assert_eq!(parse_address(" 0123456789abcdefabcdef0123456789abcdef01"), Ok(ALICE));
}

#[test]
fn parse_address_puts_the_first_digit_of_a_pair_high() {
    let mut expected = [0u8; 20];
    expected[0] = 0xf0;
    expected[19] = 0x0f;
    assert_eq!(parse_address("f00000000000000000000000000000000000000f"), Ok(expected));
}

#[test]
fn parse_address_rejects_a_wrong_number_of_digits() {
    let malformed = Err(ContractError::MalformedInput {});
    assert_eq!(parse_address(""), malformed);
    assert_eq!(parse_address("0x"), malformed);
    assert_eq!(parse_address("0123456789abcdefabcdef0123456789abcdef0"), malformed);
    assert_eq!(parse_address("0123456789abcdefabcdef0123456789abcdef"), malformed);
    assert_eq!(parse_address("0123456789abcdefabcdef0123456789abcdef012"), malformed);
    assert_eq!(parse_address("0123456789abcdefabcdef0123456789abcdef0123"), malformed);
}

#[test]
fn parse_address_rejects_what_is_no_digit() {
    let malformed = Err(ContractError::MalformedInput {});
    assert_eq!(parse_address("g123456789abcdefabcdef0123456789abcdef01"), malformed);
    assert_eq!(parse_address("0123456789abcdefabcdef0123456789abcdef0:"), malformed);
    assert_eq!(parse_address("0123456789abcdefabcdef0123456789abcdef01!"), malformed);
    assert_eq!(parse_address("0123456789abcdefabcdef0123456789abcdef0\u{e9}"), malformed);
    assert_eq!(parse_address("0123456789abcdef\u{a0}abcdef0123456789abcdef01"), malformed);
    assert_eq!(parse_address("paloma1qyqszqgpqyqszqgpqyqszqgpqyqszqgp"), malformed);
}

#[test]
fn the_token_bound_keeps_the_byte_count_in_32_bits() {
    assert_eq!(MAX_TOKENS, 1 << 27);
    assert!((MAX_TOKENS as u64 - 1) * 32 <= u32::MAX as u64);
    assert!(MAX_TOKENS as u64 * 32 > u32::MAX as u64);
}

#[test]
fn encode_input_takes_many_tokens() {
    let count = 1000;
    let kinds = vec![ParamType::Uint(256); count];
    let f = function("many", &kinds);
    let tokens: Vec<Token> = (0..count).map(|i| Token::Uint(uint(i as u128))).collect();
    let out = f.encode_input(&tokens).unwrap();
    assert_eq!(out.len(), 4 + 32 * count);
    assert_eq!(&out[4 + 32 * 999..], &uint(999).bytes[..]);
}
