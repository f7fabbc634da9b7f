//! Lower-case hexadecimal text, the wire format of hashes and seals.

use vstd::prelude::*;

verus! {

/// The lower-case hexadecimal digit for a value below sixteen.
pub open spec fn hex_digit(nibble: int) -> char {
    if nibble < 10 {
        ((nibble + 48) as u8) as char
    } else {
        ((nibble + 87) as u8) as char
    }
}

/// The value of a hexadecimal digit of either case, and `-1` for any other
/// character.
pub open spec fn hex_value(c: char) -> int {
    if '0' <= c && c <= '9' {
        c as int - 48
    } else if 'a' <= c && c <= 'f' {
        c as int - 87
    } else if 'A' <= c && c <= 'F' {
        c as int - 55
    } else {
        -1
    }
}

/// The lower-case hexadecimal text of `bytes`: two digits per byte, high
/// nibble first.
pub open spec fn lower_hex(bytes: Seq<u8>) -> Seq<char> {
    Seq::new(
        2 * bytes.len(),
        |i: int|
            if i % 2 == 0 {
                hex_digit(bytes[i / 2] as int / 16)
            } else {
                hex_digit(bytes[i / 2] as int % 16)
            },
    )
}

/// Whether `text` is an even number of hexadecimal digits and nothing else.
pub open spec fn is_hex_text(text: Seq<char>) -> bool {
    &&& text.len() % 2 == 0
    &&& forall|i: int| 0 <= i < text.len() ==> hex_value(#[trigger] text[i]) >= 0
}

/// The bytes that hexadecimal `text` stands for, a pair of digits each.
pub open spec fn hex_bytes(text: Seq<char>) -> Seq<u8> {
    Seq::new(
        text.len() / 2,
        |i: int| (16 * hex_value(text[2 * i]) + hex_value(text[2 * i + 1])) as u8,
    )
}

/// The two characters that mark hexadecimal text on the wire.
pub open spec fn prefix_0x() -> Seq<char> {
    seq!['0', 'x']
}

/// `text` without a leading `0x`, and `text` itself where it has none.
pub open spec fn strip_0x(text: Seq<char>) -> Seq<char> {
    if text.len() >= 2 && text[0] == '0' && text[1] == 'x' {
        text.skip(2)
    } else {
        text
    }
}

/// The wire form of a byte string: `0x` and its lower-case hexadecimal text.
pub open spec fn prefixed_hex(bytes: Seq<u8>) -> Seq<char> {
    prefix_0x() + lower_hex(bytes)
}

/// Every digit that `hex_digit` gives is read back by `hex_value`.
pub proof fn lemma_hex_digit_value(nibble: int)
    requires
        0 <= nibble < 16,
    ensures
        hex_value(hex_digit(nibble)) == nibble,
        hex_digit(nibble) != 'x',
{
}

/// Hexadecimal text decodes bit for bit to the bytes it was made from, and
/// the wire form is `0x` followed by that text.
pub proof fn lemma_hex_round_trip(bytes: Seq<u8>)
    ensures
        is_hex_text(lower_hex(bytes)),
        hex_bytes(lower_hex(bytes)) == bytes,
        strip_0x(prefixed_hex(bytes)) == lower_hex(bytes),
        hex_bytes(strip_0x(prefixed_hex(bytes))) == bytes,
{
    let text = lower_hex(bytes);
    assert forall|i: int| 0 <= i < text.len() implies hex_value(#[trigger] text[i]) >= 0 by {
        lemma_hex_digit_value(bytes[i / 2] as int / 16);
        lemma_hex_digit_value(bytes[i / 2] as int % 16);
    }
    assert forall|i: int| 0 <= i < bytes.len() implies #[trigger] hex_bytes(text)[i]
        == bytes[i] by {
        let b = bytes[i] as int;
        lemma_hex_digit_value(b / 16);
        lemma_hex_digit_value(b % 16);
        assert((2 * i) % 2 == 0);
        assert((2 * i) / 2 == i);
        assert((2 * i + 1) % 2 == 1);
        assert((2 * i + 1) / 2 == i);
    }
    assert(hex_bytes(text) =~= bytes);
    assert(prefixed_hex(bytes).skip(2) =~= text);
}

/// Hexadecimal text of a byte string.
///
/// Calls `rustc_hex::ToHex::to_hex` on the slice. Trusted: the result has two
/// characters per byte, the digits `0-9a-f` of the high and then the low
/// nibble, in the order of the bytes.
#[verifier::external_body]
pub(crate) fn to_hex(bytes: &[u8]) -> (text: String)
    ensures
        text@ == lower_hex(bytes@),
{
    rustc_hex::ToHex::to_hex(bytes)
}

/// Drops a leading `0x`.
///
/// Calls `ethereum_types::clean_0x`. Trusted: where the text starts with the
/// two characters `0x` the result is the rest of it, and else all of it.
#[verifier::external_body]
pub(crate) fn clean_0x(text: &str) -> (rest: &str)
    ensures
        rest@ == strip_0x(text@),
{
    #[allow(deprecated)]
    ethereum_types::clean_0x(text)
}

/// The wire form of a byte string: `0x` and its lower-case hexadecimal text.
pub fn to_prefixed_hex(bytes: &[u8]) -> (text: String)
    ensures
        text@ == prefixed_hex(bytes@),
{
    proof {
        reveal_strlit("0x");
    }
    let mut text = String::from_str("0x");
    assert(text@ =~= prefix_0x());
    let digits = to_hex(bytes);
    text.append(digits.as_str());
    text
}

} // verus!
