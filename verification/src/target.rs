//! Headers and targets: the two 256-bit values of a job.

use crate::hex::{
    clean_0x, hex_bytes, hex_value, is_hex_text, lemma_hex_digit_value, lemma_hex_round_trip,
    lower_hex, prefixed_hex, strip_0x,
};
use std::str::FromStr;
use vstd::prelude::*;

verus! {

/// Whether hexadecimal text may hold `c` between its digits: a blank, a tab
/// or an end of line.
pub open spec fn is_hex_space(c: char) -> bool {
    c == ' ' || c == '\t' || c == '\n' || c == '\r'
}

/// `text` without the characters that `is_hex_space` names.
pub open spec fn hex_digits(text: Seq<char>) -> Seq<char> {
    text.filter(|c: char| !is_hex_space(c))
}

/// The header that `text` spells: 64 hexadecimal digits of either case.
/// Blanks, tabs and ends of line between them do not count.
pub open spec fn header_of_text(text: Seq<char>) -> Option<Seq<u8>> {
    let digits = hex_digits(text);
    if is_hex_text(digits) && digits.len() == 64 {
        Some(hex_bytes(digits))
    } else {
        None
    }
}

/// The number that `text` spells in hexadecimal digits of either case. Text
/// of odd length counts as if a `0` stood before it; blanks, tabs and ends of
/// line between the digits do not count.
pub open spec fn target_of_text(text: Seq<char>) -> Option<nat> {
    let padded = if text.len() % 2 == 0 {
        text
    } else {
        seq!['0'] + text
    };
    let digits = hex_digits(padded);
    if is_hex_text(digits) {
        Some(be_value(hex_bytes(digits)))
    } else {
        None
    }
}

/// The number that `bytes` spell in big-endian order.
pub open spec fn be_value(bytes: Seq<u8>) -> nat
    decreases bytes.len(),
{
    if bytes.len() == 0 {
        0
    } else {
        256 * be_value(bytes.drop_last()) + bytes.last() as nat
    }
}

/// 256 to the power of `n`.
pub open spec fn pow256(n: nat) -> nat
    decreases n,
{
    if n == 0 {
        1
    } else {
        256 * pow256((n - 1) as nat)
    }
}

/// The number that `n` bytes spell is below 256 to the power of `n`.
pub proof fn lemma_be_value_bound(bytes: Seq<u8>)
    ensures
        be_value(bytes) < pow256(bytes.len()),
    decreases bytes.len(),
{
    if bytes.len() > 0 {
        lemma_be_value_bound(bytes.drop_last());
    }
}

/// Where two byte strings of one length first differ, the one with the
/// smaller byte there spells the smaller number.
pub proof fn lemma_be_value_order(a: Seq<u8>, b: Seq<u8>, at: int)
    requires
        a.len() == b.len(),
        0 <= at < a.len(),
        a.take(at) == b.take(at),
        a[at] < b[at],
    ensures
        be_value(a) < be_value(b),
    decreases a.len(),
{
    let n = a.len() as int;
    if at == n - 1 {
        assert(a.drop_last() == a.take(at));
        assert(b.drop_last() == b.take(at));
    } else {
        assert(a.drop_last().take(at) == a.take(at));
        assert(b.drop_last().take(at) == b.take(at));
        lemma_be_value_order(a.drop_last(), b.drop_last(), at);
    }
}

/// Bytes that are all zero spell zero.
pub proof fn lemma_be_value_of_zeros(bytes: Seq<u8>)
    requires
        forall|i: int| 0 <= i < bytes.len() ==> bytes[i] == 0,
    ensures
        be_value(bytes) == 0,
    decreases bytes.len(),
{
    if bytes.len() > 0 {
        lemma_be_value_of_zeros(bytes.drop_last());
    }
}

/// The 32-byte hash that names the work item to mine.
#[derive(Clone, Copy, Debug, PartialEq, Eq)]
pub struct Header {
    bytes: [u8; 32],
}

impl View for Header {
    type V = Seq<u8>;

    closed spec fn view(&self) -> Seq<u8> {
        self.bytes@
    }
}

impl Header {
    /// The header made of these bytes.
    pub fn new(bytes: [u8; 32]) -> (header: Header)
        ensures
            header@ == bytes@,
    {
        Header { bytes }
    }

    /// The bytes of the header.
    pub fn as_bytes(&self) -> (bytes: &[u8; 32])
        ensures
            bytes@ == self@,
    {
        &self.bytes
    }
}

/// A 256-bit unsigned bound: a hash meets it when it is not above it.
#[derive(Clone, Copy, Debug, PartialEq, Eq)]
pub struct Target {
    bytes: [u8; 32],
}

impl Target {
    /// The big-endian bytes of the target.
    pub closed spec fn spec_bytes(&self) -> Seq<u8> {
        self.bytes@
    }

    /// The number the target stands for.
    pub open spec fn value(&self) -> nat {
        be_value(self.spec_bytes())
    }

    /// A target is a number of 256 bits.
    pub proof fn lemma_fits_256_bits(self)
        ensures
            self.value() < pow256(32),
    {
        lemma_be_value_bound(self.spec_bytes());
    }

    /// The target with these big-endian bytes.
    pub fn from_be_bytes(bytes: [u8; 32]) -> (target: Target)
        ensures
            target.spec_bytes() == bytes@,
    {
        Target { bytes }
    }

    /// The target zero, which only the zero hash meets.
    pub fn zero() -> (target: Target)
        ensures
            target.spec_bytes() == Seq::new(32, |i: int| 0u8),
            target.value() == 0,
    {
        let target = Target { bytes: [0u8; 32] };
        assert(target.bytes@ =~= Seq::new(32, |i: int| 0u8));
        proof {
            lemma_be_value_of_zeros(target.bytes@);
        }
        target
    }

    /// The big-endian bytes of the target.
    pub fn to_be_bytes(&self) -> (bytes: [u8; 32])
        ensures
            bytes@ == self.spec_bytes(),
    {
        self.bytes
    }

    /// Whether `hash`, read as a big-endian number, is at most the target.
    pub fn is_met_by(&self, hash: &[u8; 32]) -> (met: bool)
        ensures
            met == (be_value(hash@) <= self.value()),
    {
        let mut i: usize = 0;
        while i < 32
            invariant
                i <= 32,
                hash@.take(i as int) == self.bytes@.take(i as int),
            decreases 32 - i,
        {
            if hash[i] < self.bytes[i] {
                proof {
                    lemma_be_value_order(hash@, self.bytes@, i as int);
                }
                return true;
            }
            if hash[i] > self.bytes[i] {
                proof {
                    lemma_be_value_order(self.bytes@, hash@, i as int);
                }
                return false;
            }
            assert(hash@.take(i + 1) =~= hash@.take(i as int).push(hash@[i as int]));
            assert(self.bytes@.take(i + 1) =~= self.bytes@.take(i as int).push(
                self.bytes@[i as int],
            ));
            i += 1;
        }
        assert(hash@ =~= hash@.take(32));
        assert(self.bytes@ =~= self.bytes@.take(32));
        true
    }
}

/// Text without blanks, tabs and ends of line is all digits.
proof fn lemma_hex_digits_of_plain_text(text: Seq<char>)
    requires
        forall|i: int| 0 <= i < text.len() ==> !is_hex_space(#[trigger] text[i]),
    ensures
        hex_digits(text) == text,
    decreases text.len(),
{
    reveal(Seq::filter);
    if text.len() > 0 {
        lemma_hex_digits_of_plain_text(text.drop_last());
        assert(text.drop_last().push(text.last()) =~= text);
    }
}

/// The wire form of a header reads back as that header.
pub proof fn lemma_header_wire_round_trip(header: Seq<u8>)
    requires
        header.len() == 32,
    ensures
        header_of_text(strip_0x(prefixed_hex(header))) == Some(header),
{
    lemma_hex_round_trip(header);
    let text = lower_hex(header);
    assert forall|i: int| 0 <= i < text.len() implies !is_hex_space(#[trigger] text[i]) by {
        lemma_hex_digit_value(header[i / 2] as int / 16);
        lemma_hex_digit_value(header[i / 2] as int % 16);
        assert(hex_value(text[i]) >= 0);
    }
    lemma_hex_digits_of_plain_text(text);
}

/// Reads a 32-byte hash from hexadecimal text.
///
/// Calls `ethereum_types::H256::from_str`. Trusted: blanks, tabs and ends of
/// line are passed over; the call succeeds exactly when what is left is 64
/// hexadecimal digits of either case, and then gives the 32 bytes they spell,
/// a pair of digits each.
#[verifier::external_body]
fn h256_from_str(text: &str) -> (hash: Option<[u8; 32]>)
    ensures
        match hash {
            Some(bytes) => header_of_text(text@) == Some(bytes@),
            None => header_of_text(text@) is None,
        },
{
    ethereum_types::H256::from_str(text).ok().map(|hash| hash.0)
}

/// Reads a 256-bit number from hexadecimal text, as its 32 big-endian bytes.
///
/// Calls `ethereum_types::U256::from_str` and `U256::to_big_endian`. Trusted:
/// text of odd length is read as if a `0` stood before it; blanks, tabs and
/// ends of line are passed over; the call succeeds exactly when what is left
/// is an even number of hexadecimal digits, and then gives the number they
/// spell. More than 64 digits make the outside function panic, so longer
/// text is left out.
#[verifier::external_body]
fn u256_from_str(text: &str) -> (number: Option<[u8; 32]>)
    requires
        text@.len() <= 64,
    ensures
        match number {
            Some(bytes) => target_of_text(text@) == Some(be_value(bytes@)),
            None => target_of_text(text@) is None,
        },
{
    let number = ethereum_types::U256::from_str(text).ok()?;
    let mut bytes = [0u8; 32];
    number.to_big_endian(&mut bytes);
    Some(bytes)
}

/// Reads a header from its wire form: 64 hexadecimal digits, with or without
/// `0x` before them. Anything else is refused; see `header_of_text`.
pub fn parse_header(text: &str) -> (header: Option<Header>)
    ensures
        match header {
            Some(h) => header_of_text(strip_0x(text@)) == Some(h@),
            None => header_of_text(strip_0x(text@)) is None,
        },
{
    match h256_from_str(clean_0x(text)) {
        Some(bytes) => Some(Header::new(bytes)),
        None => None,
    }
}

/// Reads a target from its wire form: hexadecimal digits, with or without
/// `0x` before them. More than 64 characters after the `0x` are refused, and
/// so is anything that is no number; see `target_of_text`.
pub fn parse_target(text: &str) -> (target: Option<Target>)
    ensures
        match target {
            Some(t) => strip_0x(text@).len() <= 64 && target_of_text(strip_0x(text@)) == Some(
                t.value(),
            ),
            None => strip_0x(text@).len() > 64 || target_of_text(strip_0x(text@)) is None,
        },
{
    let digits = clean_0x(text);
    if digits.unicode_len() > 64 {
        return None;
    }
    match u256_from_str(digits) {
        Some(bytes) => Some(Target::from_be_bytes(bytes)),
        None => None,
    }
}

} // verus!
