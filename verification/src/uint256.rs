//! Unsigned 256-bit integers, held as big-endian bytes, and their decimal text.

use vstd::prelude::*;

verus! {

/// The number that a big-endian byte string denotes.
pub open spec fn be_value(bytes: Seq<u8>) -> nat
    decreases bytes.len(),
{
    if bytes.len() == 0 {
        0
    } else {
        be_value(bytes.drop_last()) * 256 + bytes.last() as nat
    }
}

/// The character for one decimal digit.
pub open spec fn digit_char(d: nat) -> char {
    if d == 0 {
        '0'
    } else if d == 1 {
        '1'
    } else if d == 2 {
        '2'
    } else if d == 3 {
        '3'
    } else if d == 4 {
        '4'
    } else if d == 5 {
        '5'
    } else if d == 6 {
        '6'
    } else if d == 7 {
        '7'
    } else if d == 8 {
        '8'
    } else {
        '9'
    }
}

/// Decimal text of a number: most significant digit first, no leading zeros,
/// and the single digit `0` for zero.
pub open spec fn decimal_digits(n: nat) -> Seq<char>
    decreases n,
{
    if n < 10 {
        seq![digit_char(n)]
    } else {
        decimal_digits(n / 10).push(digit_char(n % 10))
    }
}

/// An unsigned 256-bit integer. `bytes` holds it big-endian.
#[derive(Clone, Copy, Debug, PartialEq, Eq)]
pub struct Uint256 {
    pub bytes: [u8; 32],
}

impl View for Uint256 {
    type V = nat;

    open spec fn view(&self) -> nat {
        be_value(self.bytes@)
    }
}

impl Uint256 {
    /// The integer with the given value.
    pub fn from_u128(value: u128) -> (out: Uint256)
        ensures
            out@ == value,
    {
        let mut bytes = [0u8; 32];
        let mut rest = value;
        let mut i: usize = 32;
        proof {
            assert(pow256(16) == 0x1_0000_0000_0000_0000_0000_0000_0000_0000) by {
                reveal_with_fuel(pow256, 17);
            }
            assert(bytes@.skip(32) =~= Seq::<u8>::empty());
            assert(pow256((32 - i) as nat) == 1);
        }
        while i > 16
            invariant
                16 <= i <= 32,
                forall|j: int| 0 <= j < i ==> bytes@[j] == 0,
                rest < pow256((i - 16) as nat),
                be_value(bytes@.skip(i as int)) + rest * pow256((32 - i) as nat) == value,
            decreases i,
        {
            let ghost low = bytes@.skip(i as int);
            let ghost weight = pow256((32 - i) as nat);
            let byte = (rest % 256) as u8;
            i -= 1;
            bytes[i] = byte;
            proof {
                assert(bytes@.skip(i as int) =~= seq![byte] + low);
                lemma_be_value_prepend(byte, low);
                assert(pow256((32 - i) as nat) == 256 * weight);
                assert(pow256((i + 1 - 16) as nat) == 256 * pow256((i - 16) as nat));
                assert(byte * weight + (rest / 256) * (256 * weight) == rest * weight)
                    by (nonlinear_arith)
                    requires
                        byte == rest % 256,
                ;
            }
            rest = rest / 256;
        }
        proof {
            lemma_be_value_leading_zeros(bytes@, 16);
        }
        Uint256 { bytes }
    }

    /// Builds the integer from its 32 big-endian bytes.
    pub fn from_be_bytes(data: [u8; 32]) -> (value: Uint256)
        ensures
            value.bytes == data,
    {
        Uint256 { bytes: data }
    }

    /// The 32 big-endian bytes of the integer.
    pub fn to_be_bytes(&self) -> (data: [u8; 32])
        ensures
            data == self.bytes,
    {
        self.bytes
    }

    /// The integer as decimal text.
    pub fn to_string(&self) -> (text: String)
        ensures
            text@ == decimal_digits(self@),
    {
        decimal_text(&self.bytes)
    }
}

/// Trusted: `cosmwasm_std::Uint256::from_be_bytes` followed by that type's
/// `to_string`. The contract claims that the text is the decimal rendering of
/// the number the bytes denote big-endian, without sign, padding or leading
/// zeros.
#[verifier::external_body]
fn decimal_text(bytes: &[u8; 32]) -> (text: String)
    ensures
        text@ == decimal_digits(be_value(bytes@)),
{
    cosmwasm_std::Uint256::from_be_bytes(*bytes).to_string()
}

/// 256 to the power of `n`: the weight of the byte that has `n` bytes behind
/// it.
spec fn pow256(n: nat) -> nat
    decreases n,
{
    if n == 0 {
        1
    } else {
        256 * pow256((n - 1) as nat)
    }
}

/// A byte in front of a byte string adds the byte times the weight of its
/// place.
proof fn lemma_be_value_prepend(first: u8, rest: Seq<u8>)
    ensures
        be_value(seq![first] + rest) == first * pow256(rest.len()) + be_value(rest),
    decreases rest.len(),
{
    let whole = seq![first] + rest;
    if rest.len() == 0 {
        assert(whole.drop_last() =~= Seq::<u8>::empty());
        assert(be_value(whole.drop_last()) == 0);
        assert(whole.last() == first);
        assert(pow256(0) == 1);
    } else {
        let shorter = rest.drop_last();
        assert(whole.drop_last() =~= seq![first] + shorter);
        assert(whole.last() == rest.last());
        lemma_be_value_prepend(first, shorter);
        let weight = pow256(shorter.len());
        assert(pow256(rest.len()) == 256 * weight);
        assert(be_value(whole) == be_value(seq![first] + shorter) * 256 + rest.last());
        assert(be_value(rest) == be_value(shorter) * 256 + rest.last());
        assert((first * weight + be_value(shorter)) * 256 == first * (256 * weight) + be_value(
            shorter,
        ) * 256) by (nonlinear_arith);
    }
}

/// Zero bytes in front do not change the value.
proof fn lemma_be_value_leading_zeros(bytes: Seq<u8>, zeros: nat)
    requires
        zeros <= bytes.len(),
        forall|j: int| 0 <= j < zeros ==> bytes[j] == 0,
    ensures
        be_value(bytes) == be_value(bytes.skip(zeros as int)),
    decreases zeros,
{
    if zeros == 0 {
        assert(bytes.skip(0) =~= bytes);
    } else {
        let tail = bytes.skip(1);
        assert(bytes =~= seq![bytes[0]] + tail);
        lemma_be_value_prepend(bytes[0], tail);
        lemma_be_value_leading_zeros(tail, (zeros - 1) as nat);
        assert(tail.skip(zeros - 1) =~= bytes.skip(zeros as int));
    }
}

/// Every decimal text has at least one digit.
pub proof fn lemma_decimal_nonempty(n: nat)
    ensures
        decimal_digits(n).len() >= 1,
        n >= 10 ==> decimal_digits(n).len() >= 2,
    decreases n,
{
    if n >= 10 {
        lemma_decimal_nonempty(n / 10);
    }
}

/// Different numbers have different decimal texts.
pub proof fn lemma_decimal_injective(a: nat, b: nat)
    requires
        decimal_digits(a) == decimal_digits(b),
    ensures
        a == b,
    decreases a,
{
    lemma_decimal_nonempty(a);
    lemma_decimal_nonempty(b);
    if a < 10 {
        assert(decimal_digits(a).len() == 1);
        assert(b < 10);
        assert(decimal_digits(a)[0] == digit_char(a));
        assert(decimal_digits(b)[0] == digit_char(b));
    } else {
        assert(b >= 10);
        let pa = decimal_digits(a / 10);
        let pb = decimal_digits(b / 10);
        assert(pa.push(digit_char(a % 10)).drop_last() == pa);
        assert(pb.push(digit_char(b % 10)).drop_last() == pb);
        assert(pa.push(digit_char(a % 10)).last() == digit_char(a % 10));
        assert(pb.push(digit_char(b % 10)).last() == digit_char(b % 10));
        lemma_decimal_injective(a / 10, b / 10);
    }
}

} // verus!
