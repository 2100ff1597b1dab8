//! JSON documents, read by `serde_json`.
//!
//! A document is kept as `serde_json` parsed it. The catalog reads one
//! thing from it: the unsigned integer under a member's name.

use vstd::prelude::*;

verus! {

/// A parsed JSON document.
#[verifier::external_type_specification]
#[verifier::external_body]
pub struct ExValue(serde_json::Value);

/// The reason why `serde_json` refused some bytes.
#[verifier::external_type_specification]
#[verifier::external_body]
pub struct ExError(serde_json::Error);

/// The members of a document, each with the unsigned integer that it
/// holds, `None` where it holds anything else. A document that is not an
/// object has no members.
pub uninterp spec fn json_members(document: serde_json::Value) -> Map<Seq<char>, Option<u64>>;

/// The members of the document that the bytes spell, `None` where they
/// spell none.
pub uninterp spec fn json_document(bytes: Seq<u8>) -> Option<Map<Seq<char>, Option<u64>>>;

/// What a document holds under a name: `None` without such a member,
/// else the member's unsigned integer, if it is one.
pub open spec fn member_of(members: Map<Seq<char>, Option<u64>>, name: Seq<char>) -> Option<
    Option<u64>,
> {
    if members.dom().contains(name) {
        Some(members[name])
    } else {
        None
    }
}

/// Calls `serde_json::from_slice` for a `serde_json::Value`. Taken on
/// trust: whether the bytes parse, and what the document then holds,
/// depends on the bytes alone.
#[verifier::external_body]
pub(crate) fn parse(bytes: &[u8]) -> (r: Result<serde_json::Value, serde_json::Error>)
    ensures
        r is Ok <==> json_document(bytes@) is Some,
        r matches Ok(document) ==> Some(json_members(document)) == json_document(bytes@),
{
    serde_json::from_slice::<serde_json::Value>(bytes)
}

/// Calls `serde_json::Value::get` with a member's name, and reads what it
/// finds with `serde_json::Value::as_u64`. Taken on trust: the outcome
/// depends on the document and the name alone.
#[verifier::external_body]
pub(crate) fn member(document: &serde_json::Value, name: &str) -> (r: Option<Option<u64>>)
    ensures
        r == member_of(json_members(*document), name@),
{
    match document.get(name) {
        Some(found) => Some(found.as_u64()),
        None => None,
    }
}

/// The decimal digits of a number, as ASCII, without leading zeros.
pub open spec fn decimal_digits(n: nat) -> Seq<u8>
    decreases n,
{
    if n < 10 {
        seq![(48 + n) as u8]
    } else {
        decimal_digits(n / 10).push((48 + n % 10) as u8)
    }
}

/// Writes a number in decimal digits at the end of `out`.
pub fn push_decimal(out: &mut Vec<u8>, n: u32)
    ensures
        final(out)@ == old(out)@ + decimal_digits(n as nat),
    decreases n,
{
    if n >= 10 {
        push_decimal(out, n / 10);
    }
    let digit: u8 = (n % 10) as u8;
    out.push(48 + digit);
}

/// The number that decimal digits spell.
pub open spec fn decimal_value(digits: Seq<u8>) -> nat
    decreases digits.len(),
{
    if digits.len() == 0 {
        0
    } else {
        decimal_value(digits.drop_last()) * 10 + (digits.last() - 48) as nat
    }
}

/// A number is written in one or more of the digits `0` to `9`, with a
/// leading zero only for zero itself, and these digits spell the number:
/// different numbers are written differently.
pub proof fn lemma_decimal_digits_spell(n: nat)
    ensures
        decimal_digits(n).len() >= 1,
        forall|i: int|
            0 <= i < decimal_digits(n).len() ==> 48 <= #[trigger] decimal_digits(n)[i] <= 57,
        n > 0 ==> decimal_digits(n)[0] != 48,
        decimal_value(decimal_digits(n)) == n,
    decreases n,
{
    let digits = decimal_digits(n);
    if n >= 10 {
        lemma_decimal_digits_spell(n / 10);
        assert(digits.drop_last() =~= decimal_digits(n / 10));
    } else {
        assert(decimal_value(digits.drop_last()) == 0);
    }
}

} // verus!
