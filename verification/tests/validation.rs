use rivet_head_api::errors::{Field, Reason, ValidationError};
use rivet_head_api::validation::{judge_id, judge_text, parse_id, validate_entry, validate_text};

#[test]
fn letters_and_digits_are_accepted() {
    assert_eq!(validate_text(Field::Band, "Metallica"), Ok(()));
    assert_eq!(validate_text(Field::Album, "RideTheLightning"), Ok(()));
    assert_eq!(validate_text(Field::Album, "1984"), Ok(()));
    assert_eq!(validate_text(Field::Thoughts, "Great"), Ok(()));
}

#[test]
fn letters_of_any_script_are_accepted() {
    assert_eq!(validate_text(Field::Band, "Motörhead"), Ok(()));
}

#[test]
fn empty_text_is_refused_as_empty() {
    assert_eq!(
        validate_text(Field::Band, ""),
        Err(ValidationError { field: Field::Band, reason: Reason::Empty })
    );
}

#[test]
fn spaces_and_punctuation_are_refused() {
    assert_eq!(
        validate_text(Field::Album, "Ride The Lightning"),
        Err(ValidationError { field: Field::Album, reason: Reason::NotAlphanumeric })
    );
    assert_eq!(
        validate_text(Field::Thoughts, "Great!"),
        Err(ValidationError { field: Field::Thoughts, reason: Reason::NotAlphanumeric })
    );
    assert_eq!(
        validate_text(Field::Band, "AC/DC"),
        Err(ValidationError { field: Field::Band, reason: Reason::NotAlphanumeric })
    );
}

#[test]
fn the_error_names_the_field_it_was_asked_about() {
    for field in [Field::Band, Field::Album, Field::Thoughts] {
        assert_eq!(validate_text(field, "a b"), Err(ValidationError { field, reason: Reason::NotAlphanumeric }));
    }
}

#[test]
fn judge_text_puts_emptiness_first() {
    assert_eq!(
        judge_text(Field::Band, true, false),
        Err(ValidationError { field: Field::Band, reason: Reason::Empty })
    );
    assert_eq!(
        judge_text(Field::Band, true, true),
        Err(ValidationError { field: Field::Band, reason: Reason::Empty })
    );
    assert_eq!(
        judge_text(Field::Band, false, false),
        Err(ValidationError { field: Field::Band, reason: Reason::NotAlphanumeric })
    );
    assert_eq!(judge_text(Field::Band, false, true), Ok(()));
}

#[test]
fn an_entry_is_accepted_when_all_three_texts_are() {
    assert_eq!(validate_entry("Metallica", "RideTheLightning", "Great"), Ok(()));
}

#[test]
fn an_entry_reports_the_first_offending_field() {
    assert_eq!(
        validate_entry("", "not ok", ""),
        Err(ValidationError { field: Field::Band, reason: Reason::Empty })
    );
    assert_eq!(
        validate_entry("Metallica", "not ok", ""),
        Err(ValidationError { field: Field::Album, reason: Reason::NotAlphanumeric })
    );
    assert_eq!(
        validate_entry("Metallica", "Ok", ""),
        Err(ValidationError { field: Field::Thoughts, reason: Reason::Empty })
    );
}

#[test]
fn a_hyphenated_uuid_is_read_as_its_number() {
    assert_eq!(
        parse_id("550e8400-e29b-41d4-a716-446655440000"),
        Ok(0x550e8400_e29b_41d4_a716_446655440000_u128)
    );
}

#[test]
fn the_other_forms_of_a_uuid_are_read_too() {
    let id = 0x936da01f_9abd_4d9d_80c7_02af85c822a8_u128;
    assert_eq!(parse_id("936da01f9abd4d9d80c702af85c822a8"), Ok(id));
    assert_eq!(parse_id("936DA01F-9ABD-4D9D-80C7-02AF85C822A8"), Ok(id));
    assert_eq!(parse_id("{936da01f-9abd-4d9d-80c7-02af85c822a8}"), Ok(id));
    assert_eq!(parse_id("urn:uuid:936da01f-9abd-4d9d-80c7-02af85c822a8"), Ok(id));
}

#[test]
fn a_malformed_identifier_is_a_validation_error() {
    let malformed = Err(ValidationError { field: Field::Id, reason: Reason::MalformedId });
    assert_eq!(parse_id("not-a-uuid"), malformed);
    assert_eq!(parse_id(""), malformed);
    assert_eq!(parse_id("550e8400-e29b-41d4-a716-44665544000"), malformed);
    assert_eq!(parse_id("550e8400-e29b-41d4-a716-44665544000g"), malformed);
    assert_eq!(parse_id("42"), malformed);
}

#[test]
fn judge_id_passes_the_number_on() {
    assert_eq!(judge_id(Some(7)), Ok(7));
    assert_eq!(judge_id(Some(0)), Ok(0));
    assert_eq!(judge_id(Some(u128::MAX)), Ok(u128::MAX));
    assert_eq!(
        judge_id(None),
        Err(ValidationError { field: Field::Id, reason: Reason::MalformedId })
    );
}
