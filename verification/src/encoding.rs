use crate::types::Address;
use sha3::Digest;
use vstd::prelude::*;
use vstd::string::StringExecFns;

verus! {

/// The lower-case hexadecimal digit of a value below sixteen.
pub open spec fn hex_digit(n: int) -> char {
    seq!['0', '1', '2', '3', '4', '5', '6', '7', '8', '9', 'a', 'b', 'c', 'd', 'e', 'f'][n]
}

/// The lower-case hexadecimal text of a byte string: two digits for each
/// byte, the high half first.
pub open spec fn hex_lower(bytes: Seq<u8>) -> Seq<char> {
    Seq::new(
        2 * bytes.len(),
        |i: int|
            if i % 2 == 0 {
                hex_digit(bytes[i / 2] as int / 16)
            } else {
                hex_digit(bytes[i / 2] as int % 16)
            },
    )
}

/// The text `0x` followed by the hexadecimal text of the bytes.
pub open spec fn prefixed_hex(bytes: Seq<u8>) -> Seq<char> {
    seq!['0', 'x'] + hex_lower(bytes)
}

/// The text under which an address is written down: `0x` and forty digits.
pub open spec fn address_text(address: Address) -> Seq<char> {
    prefixed_hex(address.bytes@)
}

/// Two byte strings with the same hexadecimal text are equal.
pub proof fn lemma_hex_lower_injective(a: Seq<u8>, b: Seq<u8>)
    requires
        hex_lower(a) == hex_lower(b),
    ensures
        a == b,
{
    assert(hex_lower(a).len() == 2 * a.len());
    assert(hex_lower(b).len() == 2 * b.len());
    assert forall|j: int| 0 <= j < a.len() implies a[j] == b[j] by {
        let hi_a = hex_lower(a)[2 * j];
        let hi_b = hex_lower(b)[2 * j];
        let lo_a = hex_lower(a)[2 * j + 1];
        let lo_b = hex_lower(b)[2 * j + 1];
        assert(hi_a == hex_digit(a[j] as int / 16));
        assert(hi_b == hex_digit(b[j] as int / 16));
        assert(lo_a == hex_digit(a[j] as int % 16));
        assert(lo_b == hex_digit(b[j] as int % 16));
        assert(a[j] as int / 16 == b[j] as int / 16);
        assert(a[j] as int % 16 == b[j] as int % 16);
    }
    assert(a =~= b);
}

/// Two addresses written down alike are the same address.
pub proof fn lemma_address_text_injective(a: Address, b: Address)
    requires
        address_text(a) == address_text(b),
    ensures
        a == b,
{
    assert(hex_lower(a.bytes@) =~= address_text(a).subrange(2, address_text(a).len() as int));
    assert(hex_lower(b.bytes@) =~= address_text(b).subrange(2, address_text(b).len() as int));
    lemma_hex_lower_injective(a.bytes@, b.bytes@);
    assert(a.bytes@ =~= b.bytes@);
    assert(a.bytes == b.bytes);
}

/// `hex::encode`: the lower-case hexadecimal text of the bytes, two digits
/// for each byte with the high half first. Believed of the outside crate,
/// not proved here.
#[verifier::external_body]
pub(crate) fn hex_encode(data: &[u8]) -> (text: String)
    ensures
        text@ == hex_lower(data@),
{
    hex::encode(data)
}

/// The Keccak-256 digest of a byte string, as the `sha3` crate computes it.
pub uninterp spec fn keccak256(data: Seq<u8>) -> Seq<u8>;

/// `sha3::Keccak256::digest`: hashes the whole input in one call. The
/// contract only gives the digest its name; nothing is proved of the hash.
#[verifier::external_body]
pub(crate) fn keccak256_digest(data: &[u8]) -> (digest: Vec<u8>)
    ensures
        digest@ == keccak256(data@),
{
    sha3::Keccak256::digest(data).to_vec()
}

/// The `Debug` text of `ethers::types::Address`: `0x` and the forty
/// lower-case hexadecimal digits of its twenty bytes. Believed of the
/// outside crate, not proved here.
#[verifier::external_body]
pub(crate) fn address_debug_text(address: &Address) -> (text: String)
    ensures
        text@ == address_text(*address),
{
    format!("{:?}", ethers::types::Address::from(address.bytes))
}

/// The text `0x` followed by the hexadecimal text of `data`.
pub fn prefixed_hex_string(data: &[u8]) -> (text: String)
    ensures
        text@ == prefixed_hex(data@),
{
    let digits = hex_encode(data);
    proof {
        reveal_strlit("0x");
        assert("0x"@ =~= seq!['0', 'x']);
    }
    String::from_str("0x").concat(digits.as_str())
}

/// The decimal digit of a value below ten.
pub open spec fn decimal_digit(n: int) -> char {
    seq!['0', '1', '2', '3', '4', '5', '6', '7', '8', '9'][n]
}

/// The decimal text of a number, without leading zeros.
pub open spec fn decimal_text(n: nat) -> Seq<char>
    decreases n,
{
    if n < 10 {
        seq![decimal_digit(n as int)]
    } else {
        decimal_text(n / 10).push(decimal_digit((n % 10) as int))
    }
}

/// The text of digits that were collected lowest first.
spec fn reversed_digits(digits: Seq<u8>) -> Seq<char> {
    Seq::new(digits.len(), |i: int| decimal_digit(digits[digits.len() - 1 - i] as int))
}

fn digit_str(d: u8) -> (s: &'static str)
    requires
        d < 10,
    ensures
        s@ == seq![decimal_digit(d as int)],
{
    proof {
        reveal_strlit("0");
        reveal_strlit("1");
        reveal_strlit("2");
        reveal_strlit("3");
        reveal_strlit("4");
        reveal_strlit("5");
        reveal_strlit("6");
        reveal_strlit("7");
        reveal_strlit("8");
        reveal_strlit("9");
    }
    let s = if d == 0 {
        "0"
    } else if d == 1 {
        "1"
    } else if d == 2 {
        "2"
    } else if d == 3 {
        "3"
    } else if d == 4 {
        "4"
    } else if d == 5 {
        "5"
    } else if d == 6 {
        "6"
    } else if d == 7 {
        "7"
    } else if d == 8 {
        "8"
    } else {
        "9"
    };
    assert(s@ =~= seq![decimal_digit(d as int)]);
    s
}

/// Writes a number in decimal.
pub fn decimal_string(n: u64) -> (text: String)
    ensures
        text@ == decimal_text(n as nat),
{
    let mut digits: Vec<u8> = Vec::new();
    let mut rest: u64 = n;
    while rest >= 10
        invariant
            decimal_text(n as nat) == decimal_text(rest as nat) + reversed_digits(digits@),
            forall|i: int| 0 <= i < digits@.len() ==> digits@[i] < 10,
        decreases rest,
    {
        let ghost before = digits@;
        digits.push((rest % 10) as u8);
        proof {
            assert(reversed_digits(digits@) =~= seq![decimal_digit((rest % 10) as int)]
                + reversed_digits(before));
            assert(decimal_text(rest as nat) =~= decimal_text((rest / 10) as nat) + seq![
                decimal_digit((rest % 10) as int),
            ]);
        }
        rest = rest / 10;
    }
    let mut text = String::from_str(digit_str(rest as u8));
    let mut left: usize = digits.len();
    while left > 0
        invariant
            left <= digits@.len(),
            forall|i: int| 0 <= i < digits@.len() ==> digits@[i] < 10,
            text@ == decimal_text(rest as nat) + reversed_digits(digits@).subrange(
                0,
                digits@.len() - left,
            ),
        decreases left,
    {
        left -= 1;
        text.append(digit_str(digits[left]));
        proof {
            let r = reversed_digits(digits@);
            let k = digits@.len() - left - 1;
            assert(r.subrange(0, k + 1) =~= r.subrange(0, k).push(r[k]));
            assert(text@ =~= decimal_text(rest as nat) + r.subrange(0, k + 1));
        }
    }
    proof {
        let r = reversed_digits(digits@);
        assert(r.subrange(0, digits@.len() as int) =~= r);
    }
    text
}

/// The number that a decimal text stands for.
pub open spec fn decimal_value(text: Seq<char>) -> nat
    decreases text.len(),
{
    if text.len() == 0 {
        0
    } else {
        decimal_value(text.drop_last()) * 10 + (text.last() as nat - '0' as nat) as nat
    }
}

/// Reading the decimal text of a number gives the number back.
pub proof fn lemma_decimal_round_trip(n: nat)
    ensures
        decimal_value(decimal_text(n)) == n,
    decreases n,
{
    let d = (n % 10) as int;
    assert(decimal_digit(d) as nat - '0' as nat == d);
    if n < 10 {
        let t = decimal_text(n);
        assert(t.drop_last().len() == 0);
        assert(decimal_value(t.drop_last()) == 0);
    } else {
        lemma_decimal_round_trip(n / 10);
        let t = decimal_text(n);
        assert(t.drop_last() =~= decimal_text(n / 10));
        assert(t.last() == decimal_digit(d));
    }
}

/// Two numbers with the same decimal text are equal.
pub proof fn lemma_decimal_text_injective(a: nat, b: nat)
    requires
        decimal_text(a) == decimal_text(b),
    ensures
        a == b,
{
    lemma_decimal_round_trip(a);
    lemma_decimal_round_trip(b);
}

/// What is hashed after a market's name for its YES or its NO token.
pub open spec fn token_suffix(is_yes: bool) -> Seq<u8> {
    if is_yes {
        seq![89u8, 69u8, 83u8, 0u8, 0u8]
    } else {
        seq![78u8, 79u8, 0u8, 0u8, 0u8]
    }
}

/// The address text of a market's YES or NO token: `0x` and the digest of
/// the market's name followed by the token's suffix.
pub open spec fn token_address_text(market_id: Seq<char>, is_yes: bool) -> Seq<char> {
    prefixed_hex(keccak256(vstd::utf8::encode_utf8(market_id) + token_suffix(is_yes)))
}

} // verus!
