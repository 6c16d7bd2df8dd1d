//! The diary handlers. Each handler decides what is to be written; the
//! write itself is carried out by whoever owns the backing store, and the
//! handler's second half turns what the store reported into a response.

use vstd::prelude::*;
use crate::domain::diary_record::{
    marked_is_not_nil, random_marks, views_of, DiaryRecord, Patch, PatchView,
};
use crate::errors::{ApiError, ApiErrorView, Failure, FailureView, Field, ValidationError};
use crate::response::{
    texts_of, withheld_discloses_nothing, Body, BodyView, Response, ResponseView,
};
use crate::text::occurs_in;
use crate::statement::{Operation, Statement, StatementView};
use crate::trusted::{random_uuid, utc_now_micros, uuid_of_text};
use crate::validation::{
    entry_verdict, id_verdict, parse_id, text_rule, validate_entry, validate_text,
};

verus! {

/// The form of a new diary entry.
#[derive(Clone, Debug, PartialEq, Eq)]
pub struct FormData {
    pub band_content: String,
    pub album_content: String,
    pub thoughts_content: String,
}

/// A `FormData` as a mathematical value.
pub struct FormView {
    pub band_content: Seq<char>,
    pub album_content: Seq<char>,
    pub thoughts_content: Seq<char>,
}

impl View for FormData {
    type V = FormView;

    open spec fn view(&self) -> FormView {
        FormView {
            band_content: self.band_content@,
            album_content: self.album_content@,
            thoughts_content: self.thoughts_content@,
        }
    }
}

/// The form of an update to the thoughts of an entry.
#[derive(Clone, Debug, PartialEq, Eq)]
pub struct UpdatedThoughtsFormData {
    pub thoughts_content: String,
}

/// The form of an update to the album of an entry.
#[derive(Clone, Debug, PartialEq, Eq)]
pub struct UpdatedAlbumFormData {
    pub album_content: String,
}

/// What the new-entry handler decides, given what validation said of the
/// form: the error, or the insert of an entry with the three texts.
pub open spec fn post_plan(
    verdict: Result<(), ValidationError>,
    id: u128,
    now: i64,
    band: Seq<char>,
    album: Seq<char>,
    thoughts: Seq<char>,
) -> Result<StatementView, ApiErrorView> {
    match verdict {
        Err(invalid) => Err(ApiErrorView::ValidationError(invalid)),
        Ok(_) => Ok(StatementView::Insert { id, created_at: now, band, album, thoughts }),
    }
}

/// What validation says of a new-entry form.
pub open spec fn form_verdict(
    band: Seq<char>,
    album: Seq<char>,
    thoughts: Seq<char>,
) -> Result<(), ValidationError> {
    entry_verdict(
        text_rule(Field::Band, band),
        text_rule(Field::Album, album),
        text_rule(Field::Thoughts, thoughts),
    )
}

/// What a handler decided, as a mathematical value.
pub open spec fn decision_view(
    decision: Result<Statement, ApiError>,
) -> Result<StatementView, ApiErrorView> {
    match decision {
        Ok(statement) => Ok(statement@),
        Err(error) => Err(error@),
    }
}

/// The identifier in a decision; zero where the handler refused.
pub open spec fn decided_id(decision: Result<Statement, ApiError>) -> u128 {
    match decision {
        Ok(statement) => statement@.id(),
        Err(_) => 0,
    }
}

/// The stamp in a decision; zero where the handler refused.
pub open spec fn decided_stamp(decision: Result<Statement, ApiError>) -> i64 {
    match decision {
        Ok(statement) => statement@.stamp(),
        Err(_) => 0,
    }
}

/// Decides on a new entry from what validation said of the form.
pub fn plan_post(
    verdict: Result<(), ValidationError>,
    id: u128,
    now: i64,
    form: FormData,
) -> (decision: Result<Statement, ApiError>)
    ensures
        decision_view(decision) == post_plan(
            verdict,
            id,
            now,
            form.band_content@,
            form.album_content@,
            form.thoughts_content@,
        ),
{
    match verdict {
        Err(invalid) => Err(ApiError::ValidationError(invalid)),
        Ok(_) => {
            let FormData { band_content, album_content, thoughts_content } = form;
            Ok(
                Statement::Insert {
                    id,
                    created_at: now,
                    band: band_content,
                    album: album_content,
                    thoughts: thoughts_content,
                },
            )
        },
    }
}

/// The new-entry handler for a given identifier and time of creation:
/// validates the three texts and, where they pass, asks for the insert of an
/// entry that holds them and was never updated.
pub fn diary_post_at(form: FormData, id: u128, now: i64) -> (decision: Result<Statement, ApiError>)
    ensures
        decision_view(decision) == post_plan(
            form_verdict(form.band_content@, form.album_content@, form.thoughts_content@),
            id,
            now,
            form.band_content@,
            form.album_content@,
            form.thoughts_content@,
        ),
{
    let verdict = validate_entry(
        form.band_content.as_str(),
        form.album_content.as_str(),
        form.thoughts_content.as_str(),
    );
    plan_post(verdict, id, now, form)
}

/// The new-entry handler. The identifier is drawn afresh and the time of
/// creation is read from the clock; whatever the two come to, the decision
/// is that of `diary_post_at` for them, the identifier of an insert carries
/// the marks of a random UUID, so it is not the nil UUID, and the time is not
/// before the epoch.
pub fn diary_post(form: FormData) -> (decision: Result<Statement, ApiError>)
    ensures
        decision_view(decision) == post_plan(
            form_verdict(form.band_content@, form.album_content@, form.thoughts_content@),
            decided_id(decision),
            decided_stamp(decision),
            form.band_content@,
            form.album_content@,
            form.thoughts_content@,
        ),
        0 <= decided_stamp(decision),
        decision is Ok ==> random_marks(decided_id(decision)) && decided_id(decision) != 0,
{
    let id = random_uuid();
    let now = utc_now_micros();
    proof {
        marked_is_not_nil(id);
    }
    diary_post_at(form, id, now)
}

/// What an update handler decides, given what became of the identifier and
/// what validation said of the new text: the identifier's error first, then
/// the text's, else the update of that entry at time `now`.
pub open spec fn update_plan(
    parsed: Result<u128, ValidationError>,
    verdict: Result<(), ValidationError>,
    patch: PatchView,
    now: i64,
) -> Result<StatementView, ApiErrorView> {
    match parsed {
        Err(invalid) => Err(ApiErrorView::ValidationError(invalid)),
        Ok(id) => match verdict {
            Err(invalid) => Err(ApiErrorView::ValidationError(invalid)),
            Ok(_) => Ok(StatementView::Update { id, patch, at: now }),
        },
    }
}

/// Decides on an update from what became of the identifier and of the text.
pub fn plan_update(
    parsed: Result<u128, ValidationError>,
    verdict: Result<(), ValidationError>,
    patch: Patch,
    now: i64,
) -> (decision: Result<Statement, ApiError>)
    ensures
        decision_view(decision) == update_plan(parsed, verdict, patch@, now),
{
    match parsed {
        Err(invalid) => Err(ApiError::ValidationError(invalid)),
        Ok(id) => match verdict {
            Err(invalid) => Err(ApiError::ValidationError(invalid)),
            Ok(_) => Ok(Statement::Update { id, patch, at: now }),
        },
    }
}

/// The album handler for a given time: reads the identifier from the path
/// segment, validates the new album and asks for the update.
pub fn diary_album_put_at(
    item_id: &str,
    updated_album_content: UpdatedAlbumFormData,
    now: i64,
) -> (decision: Result<Statement, ApiError>)
    ensures
        decision_view(decision) == update_plan(
            id_verdict(uuid_of_text(item_id@)),
            text_rule(Field::Album, updated_album_content.album_content@),
            PatchView::Album(updated_album_content.album_content@),
            now,
        ),
{
    let parsed = parse_id(item_id);
    let verdict = validate_text(Field::Album, updated_album_content.album_content.as_str());
    plan_update(parsed, verdict, Patch::Album(updated_album_content.album_content), now)
}

/// The album handler. The time of the update is read from the clock;
/// whatever it comes to, it is not before the epoch and the decision is that
/// of `diary_album_put_at` for it.
pub fn diary_album_put(
    item_id: &str,
    updated_album_content: UpdatedAlbumFormData,
) -> (decision: Result<Statement, ApiError>)
    ensures
        decision_view(decision) == update_plan(
            id_verdict(uuid_of_text(item_id@)),
            text_rule(Field::Album, updated_album_content.album_content@),
            PatchView::Album(updated_album_content.album_content@),
            decided_stamp(decision),
        ),
        0 <= decided_stamp(decision),
{
    let now = utc_now_micros();
    diary_album_put_at(item_id, updated_album_content, now)
}

/// The thoughts handler for a given time: reads the identifier from the
/// path segment, validates the new thoughts and asks for the update.
pub fn diary_thoughts_put_at(
    item_id: &str,
    updated_thoughts_content: UpdatedThoughtsFormData,
    now: i64,
) -> (decision: Result<Statement, ApiError>)
    ensures
        decision_view(decision) == update_plan(
            id_verdict(uuid_of_text(item_id@)),
            text_rule(Field::Thoughts, updated_thoughts_content.thoughts_content@),
            PatchView::Thoughts(updated_thoughts_content.thoughts_content@),
            now,
        ),
{
    let parsed = parse_id(item_id);
    let verdict = validate_text(
        Field::Thoughts,
        updated_thoughts_content.thoughts_content.as_str(),
    );
    plan_update(parsed, verdict, Patch::Thoughts(updated_thoughts_content.thoughts_content), now)
}

/// The thoughts handler. The time of the update is read from the clock;
/// whatever it comes to, it is not before the epoch and the decision is that
/// of `diary_thoughts_put_at` for it.
pub fn diary_thoughts_put(
    item_id: &str,
    updated_thoughts_content: UpdatedThoughtsFormData,
) -> (decision: Result<Statement, ApiError>)
    ensures
        decision_view(decision) == update_plan(
            id_verdict(uuid_of_text(item_id@)),
            text_rule(Field::Thoughts, updated_thoughts_content.thoughts_content@),
            PatchView::Thoughts(updated_thoughts_content.thoughts_content@),
            decided_stamp(decision),
        ),
        0 <= decided_stamp(decision),
{
    let now = utc_now_micros();
    diary_thoughts_put_at(item_id, updated_thoughts_content, now)
}

/// What the delete handler decides, given what became of the identifier.
pub open spec fn delete_plan(
    parsed: Result<u128, ValidationError>,
) -> Result<StatementView, ApiErrorView> {
    match parsed {
        Err(invalid) => Err(ApiErrorView::ValidationError(invalid)),
        Ok(id) => Ok(StatementView::Delete { id }),
    }
}

/// Decides on a delete from what became of the identifier.
pub fn plan_delete(parsed: Result<u128, ValidationError>) -> (decision: Result<Statement, ApiError>)
    ensures
        decision_view(decision) == delete_plan(parsed),
{
    match parsed {
        Err(invalid) => Err(ApiError::ValidationError(invalid)),
        Ok(id) => Ok(Statement::Delete { id }),
    }
}

/// The delete handler: reads the identifier from the path segment and asks
/// for the delete. A segment that is no UUID is a validation error.
pub fn diary_delete(item_id: &str) -> (decision: Result<Statement, ApiError>)
    ensures
        decision_view(decision) == delete_plan(id_verdict(uuid_of_text(item_id@))),
{
    plan_delete(parse_id(item_id))
}

/// What the store reported of a write, as a mathematical value.
pub open spec fn report_view(report: Result<u64, Failure>) -> Result<u64, FailureView> {
    match report {
        Ok(rows) => Ok(rows),
        Err(failure) => Err(failure@),
    }
}

/// What a write came to, given the number of rows the store says it
/// touched, or its failure. An update that touched no row named an entry
/// that does not exist; a delete that touched none is still done.
pub open spec fn settled(
    operation: Operation,
    report: Result<u64, FailureView>,
) -> Result<(), ApiErrorView> {
    match report {
        Err(failure) => Err(ApiErrorView::PersistenceError(failure)),
        Ok(rows) => if rows == 0 && (operation == Operation::UpdateAlbum || operation
            == Operation::UpdateThoughts) {
            Err(ApiErrorView::NotFound)
        } else {
            Ok(())
        },
    }
}

/// The confirmation sent after a write.
pub open spec fn confirmation(operation: Operation) -> Seq<char> {
    match operation {
        Operation::Create => "New diary item added..."@,
        Operation::UpdateAlbum => "Diary item album content updated..."@,
        Operation::UpdateThoughts => "Diary item thoughts content updated..."@,
        Operation::Delete => "Diary item removed..."@,
    }
}

/// The response to a write, for a client who must not learn `secrets`:
/// the confirmation or the answer to the failure, with a line in which one
/// of the secrets stands taken out.
pub open spec fn write_reply(
    operation: Operation,
    report: Result<u64, FailureView>,
    secrets: Seq<Seq<char>>,
) -> ResponseView {
    (match settled(operation, report) {
        Ok(_) => ResponseView::ok(confirmation(operation)),
        Err(error) => ResponseView::failure(error),
    }).withheld(secrets)
}

/// Says what a write came to.
pub fn settle(operation: Operation, report: Result<u64, Failure>) -> (outcome: Result<(), ApiError>)
    ensures
        match outcome {
            Ok(_) => settled(operation, report_view(report)) == Ok::<(), ApiErrorView>(()),
            Err(error) => settled(operation, report_view(report)) == Err::<(), ApiErrorView>(
                error@,
            ),
        },
{
    match report {
        Err(failure) => Err(ApiError::PersistenceError(failure)),
        Ok(rows) => {
            let is_update = match operation {
                Operation::UpdateAlbum => true,
                Operation::UpdateThoughts => true,
                _ => false,
            };
            if rows == 0 && is_update {
                Err(ApiError::NotFound)
            } else {
                Ok(())
            }
        },
    }
}

/// The second half of every writing handler: turns what the store reported
/// into the response. Success is confirmed with the operation's own line;
/// a failure of the store, and an update of an entry that does not exist,
/// are answered with status 500 and a message that tells them apart. What
/// the backing store put in its report is not sent, and no line goes out in
/// which one of `secrets` stands: the API key, the connection string and
/// whatever else the caller names.
pub fn acknowledge(
    operation: Operation,
    report: Result<u64, Failure>,
    secrets: &Vec<String>,
) -> (response: Response)
    ensures
        response@ == write_reply(operation, report_view(report), texts_of(secrets@)),
        !response@.body.discloses(texts_of(secrets@)),
{
    let reply = match settle(operation, report) {
        Ok(_) => match operation {
            Operation::Create => Response::ok("New diary item added..."),
            Operation::UpdateAlbum => Response::ok("Diary item album content updated..."),
            Operation::UpdateThoughts => Response::ok("Diary item thoughts content updated..."),
            Operation::Delete => Response::ok("Diary item removed..."),
        },
        Err(error) => Response::failure(&error),
    };
    reply.withhold(secrets)
}

/// The response to a listing, for a client who must not learn `secrets`.
pub open spec fn listing_reply(
    listing: Result<Seq<DiaryRecord>, FailureView>,
    secrets: Seq<Seq<char>>,
) -> ResponseView {
    match listing {
        Ok(entries) => ResponseView { status: 200, body: BodyView::Entries(views_of(entries)) },
        Err(failure) => ResponseView::failure(ApiErrorView::PersistenceError(failure)).withheld(
            secrets,
        ),
    }
}

/// The listing handler: given every entry as the store returned them, or
/// the store's failure, answers with the entries or with status 500. An
/// empty store gives an empty list, not an error. What the backing store
/// put in its report is not sent, and no line goes out in which one of
/// `secrets` stands.
pub fn diary_get(
    listing: Result<Vec<DiaryRecord>, Failure>,
    secrets: &Vec<String>,
) -> (response: Response)
    ensures
        response@ == listing_reply(
            match listing {
                Ok(entries) => Ok(entries@),
                Err(failure) => Err(failure@),
            },
            texts_of(secrets@),
        ),
        !response@.body.discloses(texts_of(secrets@)),
{
    match listing {
        Ok(diary_entries) => Response { status: 200, body: Body::Entries(diary_entries) },
        Err(failure) => Response::failure(&ApiError::PersistenceError(failure)).withhold(secrets),
    }
}

/// A failed write tells no secret: whatever the store failed with and
/// whatever it put in its report, the answer is status 500, and no secret
/// that is not empty stands in its body; two failures of the backing store
/// that differ in their report only are answered alike.
pub proof fn failed_write_tells_no_secret(
    operation: Operation,
    failure: FailureView,
    secrets: Seq<Seq<char>>,
)
    ensures
        write_reply(operation, Err(failure), secrets).status == 500,
        !write_reply(operation, Err(failure), secrets).body.discloses(secrets),
        forall|i: int|
            0 <= i < secrets.len() && (#[trigger] secrets[i]).len() > 0 ==> !(write_reply(
                operation,
                Err(failure),
                secrets,
            ).body matches BodyView::Message(text) && occurs_in(secrets[i], text)),
        forall|first: Seq<char>, second: Seq<char>|
            write_reply(operation, Err(FailureView::Backend(first)), secrets) == write_reply(
                operation,
                Err(FailureView::Backend(second)),
                secrets,
            ),
{
    withheld_discloses_nothing(
        ResponseView::failure(ApiErrorView::PersistenceError(failure)),
        secrets,
    );
}

} // verus!
