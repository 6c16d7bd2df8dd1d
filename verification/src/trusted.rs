//! The calls this library makes into other crates. Verus takes each contract
//! here on trust; everything else in the library is proved from them.

use vstd::prelude::*;

verus! {

/// What `uuid::Uuid::parse_str` makes of a text: the identifier as a 128-bit
/// number, or `None` where the text is not a UUID in one of the forms the
/// parser knows.
pub uninterp spec fn uuid_of_text(text: Seq<char>) -> Option<u128>;

/// Calls `uuid::Uuid::parse_str` and hands back the identifier as the number
/// `Uuid::as_u128` gives. The parser is a function of the text alone and
/// returns an error, never panics, on text it cannot read.
#[verifier::external_body]
pub(crate) fn parse_uuid(text: &str) -> (id: Option<u128>)
    ensures
        id == uuid_of_text(text@),
{
    match uuid::Uuid::parse_str(text) {
        Ok(parsed) => Some(parsed.as_u128()),
        Err(_) => None,
    }
}

/// Calls `uuid::Uuid::new_v4` and hands back the identifier as a number.
/// The value is random: two calls may give any two values. All that holds of
/// each is that it is marked as a random UUID, with version 4 in the four
/// bits from bit 76 up and the variant `10` in bits 63 and 62. The call
/// panics where the operating system gives no random bytes.
#[verifier::external_body]
pub(crate) fn random_uuid() -> (id: u128)
    ensures
        id & 0x0000_0000_0000_f000_c000_0000_0000_0000 == 0x0000_0000_0000_4000_8000_0000_0000_0000,
{
    uuid::Uuid::new_v4().as_u128()
}

/// Calls `chrono::Utc::now` and hands back `timestamp_micros` of it:
/// microseconds since the Unix epoch. The clock is read from the system, so
/// two calls may disagree in either direction. The call panics where the
/// system's clock reads before 1970, so a reading that comes back is never
/// negative.
#[verifier::external_body]
pub(crate) fn utc_now_micros() -> (micros: i64)
    ensures
        0 <= micros,
{
    chrono::Utc::now().timestamp_micros()
}

/// What garde's `alphanumeric` rule says of a text.
pub uninterp spec fn garde_alphanumeric(text: Seq<char>) -> bool;

/// Calls `garde::rules::alphanumeric::apply` and reports whether the rule
/// accepted the text. The rule is a function of the text alone.
#[verifier::external_body]
pub(crate) fn is_alphanumeric(text: &str) -> (ok: bool)
    ensures
        ok == garde_alphanumeric(text@),
{
    garde::rules::alphanumeric::apply(&text, ()).is_ok()
}

} // verus!
