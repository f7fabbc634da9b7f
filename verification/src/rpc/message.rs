//! The JSON-RPC messages a miner sends, as text.

use crate::hex::{
    hex_bytes, lemma_hex_round_trip, lower_hex, prefix_0x, prefixed_hex, strip_0x, to_prefixed_hex,
};
use vstd::prelude::*;

verus! {

/// The decimal digit for a value below ten.
pub open spec fn decimal_digit(digit: nat) -> char {
    ((digit + 48) as u8) as char
}

/// The decimal text of a number, without leading zeros.
pub open spec fn decimal(n: nat) -> Seq<char>
    decreases n,
{
    if n < 10 {
        seq![decimal_digit(n)]
    } else {
        decimal(n / 10).push(decimal_digit(n % 10))
    }
}

/// The seal of a solution: the wire form of each of its parts, in order.
pub open spec fn seal_of(solution: Seq<Seq<u8>>) -> Seq<Seq<char>> {
    Seq::new(solution.len(), |i: int| prefixed_hex(solution[i]))
}

/// A seal has one text per part of the solution; each is `0x` followed by the
/// lower-case hexadecimal text of the part, and decodes to the part bit for
/// bit.
pub proof fn lemma_seal_round_trip(solution: Seq<Seq<u8>>, i: int)
    requires
        0 <= i < solution.len(),
    ensures
        seal_of(solution).len() == solution.len(),
        seal_of(solution)[i] == "0x"@ + lower_hex(solution[i]),
        hex_bytes(strip_0x(seal_of(solution)[i])) == solution[i],
{
    reveal_strlit("0x");
    lemma_hex_round_trip(solution[i]);
    assert("0x"@ =~= prefix_0x());
}

/// `text` between double quotes.
pub open spec fn quoted(text: Seq<char>) -> Seq<char> {
    "\""@ + text + "\""@
}

/// The items, each between double quotes, with a comma between two of them.
pub open spec fn quoted_list(items: Seq<Seq<char>>) -> Seq<char>
    decreases items.len(),
{
    if items.len() == 0 {
        Seq::empty()
    } else if items.len() == 1 {
        quoted(items[0])
    } else {
        quoted_list(items.drop_last()) + ","@ + quoted(items.last())
    }
}

/// The `params` of a submission, as JSON text: the header's wire form, then
/// the seal as an array.
pub open spec fn params_text(header: Seq<u8>, solution: Seq<Seq<u8>>) -> Seq<char> {
    "["@ + quoted(prefixed_hex(header)) + ",["@ + quoted_list(seal_of(solution)) + "]]"@
}

/// A text as a JSON string: between double quotes, and with the escapes that
/// JSON asks for.
pub uninterp spec fn json_string(text: Seq<char>) -> Option<Seq<char>>;

/// Writes a text as a JSON string.
///
/// Calls `serde_json::to_string` on a `str`. Trusted: what comes back depends
/// on the text alone; nothing is promised of which texts can be written.
#[verifier::external_body]
pub(crate) fn to_json_string(text: &str) -> (json: Option<String>)
    ensures
        match json {
            Some(j) => json_string(text@) == Some(j@),
            None => json_string(text@) is None,
        },
{
    serde_json::to_string(text).ok()
}

/// Whether two texts are the same.
pub fn same_text(a: &str, b: &str) -> (same: bool)
    ensures
        same == (a@ == b@),
{
    String::from_str(a) == String::from_str(b)
}

/// The one-character text of a decimal digit.
fn digit_text(digit: usize) -> (text: &'static str)
    requires
        digit < 10,
    ensures
        text@ == seq![decimal_digit(digit as nat)],
{
    proof {
        reveal_strlit("0");
        reveal_strlit("1");
        reveal_strlit("2");
        reveal_strlit("3");
        reveal_strlit("4");
        reveal_strlit("5");
        reveal_strlit("6");
        reveal_strlit("7");
        reveal_strlit("8");
        reveal_strlit("9");
    }
    let text = if digit == 0 {
        "0"
    } else if digit == 1 {
        "1"
    } else if digit == 2 {
        "2"
    } else if digit == 3 {
        "3"
    } else if digit == 4 {
        "4"
    } else if digit == 5 {
        "5"
    } else if digit == 6 {
        "6"
    } else if digit == 7 {
        "7"
    } else if digit == 8 {
        "8"
    } else {
        "9"
    };
    assert(text@ =~= seq![decimal_digit(digit as nat)]);
    text
}

/// The decimal text of a number, without leading zeros.
pub fn to_decimal(n: usize) -> (text: String)
    ensures
        text@ == decimal(n as nat),
    decreases n,
{
    if n < 10 {
        String::from_str(digit_text(n))
    } else {
        let mut text = to_decimal(n / 10);
        text.append(digit_text(n % 10));
        assert(text@ =~= decimal((n / 10) as nat).push(decimal_digit((n % 10) as nat)));
        text
    }
}

/// The seal of a solution: the wire form of each of its parts, in order.
pub fn seal(solution: &Vec<Vec<u8>>) -> (seal: Vec<String>)
    ensures
        seal.deep_view() == seal_of(solution.deep_view()),
{
    let mut seal: Vec<String> = Vec::new();
    let mut i: usize = 0;
    while i < solution.len()
        invariant
            i <= solution.len(),
            seal.len() == i,
            forall|k: int| 0 <= k < i ==> (#[trigger] seal[k])@ == prefixed_hex(solution[k]@),
        decreases solution.len() - i,
    {
        seal.push(to_prefixed_hex(solution[i].as_slice()));
        i += 1;
    }
    assert(seal.deep_view() =~~= seal_of(solution.deep_view()));
    seal
}

/// `text` between double quotes, appended to `out`.
fn push_quoted(out: &mut String, text: &str)
    ensures
        final(out)@ == old(out)@ + quoted(text@),
{
    out.append("\"");
    out.append(text);
    out.append("\"");
    assert(final(out)@ =~= old(out)@ + quoted(text@));
}

/// The items between double quotes and with commas between them, appended to
/// `out`.
fn push_quoted_list(out: &mut String, items: &Vec<String>)
    ensures
        final(out)@ == old(out)@ + quoted_list(items.deep_view()),
{
    let ghost all = items.deep_view();
    let mut i: usize = 0;
    while i < items.len()
        invariant
            i <= items.len(),
            all == items.deep_view(),
            out@ == old(out)@ + quoted_list(all.take(i as int)),
        decreases items.len() - i,
    {
        let ghost before = all.take(i as int);
        let ghost after = all.take(i + 1);
        assert(after.drop_last() =~= before);
        assert(after.last() == items[i as int]@);
        if i > 0 {
            out.append(",");
        }
        push_quoted(out, items[i].as_str());
        assert(out@ =~= old(out)@ + quoted_list(after));
        i += 1;
    }
    assert(all.take(items.len() as int) =~= all);
}

/// The `params` of a submission, appended to `out`.
pub fn push_params(out: &mut String, header: &[u8], solution: &Vec<Vec<u8>>)
    ensures
        final(out)@ == old(out)@ + params_text(header@, solution.deep_view()),
{
    let header_hex = to_prefixed_hex(header);
    let seal_hex = seal(solution);
    out.append("[");
    push_quoted(out, header_hex.as_str());
    out.append(",[");
    push_quoted_list(out, &seal_hex);
    out.append("]]");
    assert(final(out)@ =~= old(out)@ + params_text(header@, solution.deep_view()));
}

} // verus!
