//! Field rules, checked before anything is handed to the store.

use vstd::prelude::*;
use crate::errors::{Field, Reason, ValidationError};
use crate::trusted::{garde_alphanumeric, is_alphanumeric, parse_uuid, uuid_of_text};

verus! {

/// What the text rule says of a text, given whether it is empty and what
/// the alphanumeric check said of it: empty text is refused first, then text
/// the check turned down.
pub open spec fn text_verdict(
    field: Field,
    empty: bool,
    alphanumeric: bool,
) -> Result<(), ValidationError> {
    if empty {
        Err(ValidationError { field, reason: Reason::Empty })
    } else if !alphanumeric {
        Err(ValidationError { field, reason: Reason::NotAlphanumeric })
    } else {
        Ok(())
    }
}

/// What the text rule says of `text`.
pub open spec fn text_rule(field: Field, text: Seq<char>) -> Result<(), ValidationError> {
    text_verdict(field, text.len() == 0, garde_alphanumeric(text))
}

/// Decides on a text from its emptiness and the alphanumeric check's answer.
pub fn judge_text(
    field: Field,
    empty: bool,
    alphanumeric: bool,
) -> (verdict: Result<(), ValidationError>)
    ensures
        verdict == text_verdict(field, empty, alphanumeric),
{
    if empty {
        Err(ValidationError { field, reason: Reason::Empty })
    } else if !alphanumeric {
        Err(ValidationError { field, reason: Reason::NotAlphanumeric })
    } else {
        Ok(())
    }
}

/// Accepts `text` for `field` where it is non-empty and made of letters and
/// digits only; otherwise names the field and the reason. The text itself is
/// never changed.
pub fn validate_text(field: Field, text: &str) -> (verdict: Result<(), ValidationError>)
    ensures
        verdict == text_rule(field, text@),
{
    let empty = text.unicode_len() == 0;
    let alphanumeric = is_alphanumeric(text);
    judge_text(field, empty, alphanumeric)
}

/// What the three texts of a new entry come to: the first broken rule in the
/// order band, album, thoughts, or acceptance.
pub open spec fn entry_verdict(
    band: Result<(), ValidationError>,
    album: Result<(), ValidationError>,
    thoughts: Result<(), ValidationError>,
) -> Result<(), ValidationError> {
    if band is Err {
        band
    } else if album is Err {
        album
    } else {
        thoughts
    }
}

/// Validates the three texts of a new entry.
pub fn validate_entry(
    band: &str,
    album: &str,
    thoughts: &str,
) -> (verdict: Result<(), ValidationError>)
    ensures
        verdict == entry_verdict(
            text_rule(Field::Band, band@),
            text_rule(Field::Album, album@),
            text_rule(Field::Thoughts, thoughts@),
        ),
{
    let on_band = validate_text(Field::Band, band);
    if on_band.is_err() {
        return on_band;
    }
    let on_album = validate_text(Field::Album, album);
    if on_album.is_err() {
        return on_album;
    }
    validate_text(Field::Thoughts, thoughts)
}

/// What an identifier text comes to, given what the UUID parser made of it.
pub open spec fn id_verdict(parsed: Option<u128>) -> Result<u128, ValidationError> {
    match parsed {
        Some(id) => Ok(id),
        None => Err(ValidationError { field: Field::Id, reason: Reason::MalformedId }),
    }
}

/// Turns the parser's answer into an identifier or a validation error.
pub fn judge_id(parsed: Option<u128>) -> (verdict: Result<u128, ValidationError>)
    ensures
        verdict == id_verdict(parsed),
{
    match parsed {
        Some(id) => Ok(id),
        None => Err(ValidationError { field: Field::Id, reason: Reason::MalformedId }),
    }
}

/// Reads an identifier from a path segment. Text that is not a UUID is a
/// validation error, never a panic.
pub fn parse_id(text: &str) -> (verdict: Result<u128, ValidationError>)
    ensures
        verdict == id_verdict(uuid_of_text(text@)),
{
    judge_id(parse_uuid(text))
}

} // verus!
