//! The resource store: a table of diary entries under a unique key, and the
//! four operations the handlers run against it.
//!
//! `DiaryStore` holds the table in memory and keeps two rules on top of the
//! unique key: no entry is updated with a stamp before its last write, and
//! the identifier of a deleted entry is never given out again. Both are
//! proved of `DiaryStore` and of `executed`, its model, and of nothing else.
//! The SQL texts of the statements carry neither rule: a database that is
//! sent them keeps its own constraints only, which are the unique key among
//! the rows it still has. There, a stamp that goes back and an identifier
//! that returns after a delete are written as they come.

use vstd::prelude::*;
use crate::domain::diary_record::{
    marked_is_not_nil, random_marks, views_of, DiaryRecord, Patch, PatchView, RecordView,
};
use crate::errors::{ApiError, ApiErrorView, Failure, FailureView};
use crate::statement::{Statement, StatementView};
use crate::trusted::{random_uuid, utc_now_micros};

verus! {

/// Whether `table` holds an entry with identifier `id`.
pub open spec fn holds(table: Seq<RecordView>, id: u128) -> bool {
    exists|i: int| 0 <= i < table.len() && (#[trigger] table[i]).id == id
}

/// A place in `table` where the entry with identifier `id` stands.
pub open spec fn place_of(table: Seq<RecordView>, id: u128) -> int {
    choose|i: int| 0 <= i < table.len() && (#[trigger] table[i]).id == id
}

/// No two entries of `table` share an identifier.
pub open spec fn distinct_ids(table: Seq<RecordView>) -> bool {
    forall|i: int, j: int|
        0 <= i < table.len() && 0 <= j < table.len() && i != j ==> (#[trigger] table[i]).id != (
        #[trigger] table[j]).id
}

/// No entry of `table` was updated before it was created.
pub open spec fn well_stamped(table: Seq<RecordView>) -> bool {
    forall|i: int| 0 <= i < table.len() ==> (#[trigger] table[i]).well_stamped()
}

/// Whether a table and its retired identifiers are as the store keeps
/// them: the key is unique, no entry was updated before it was created, and
/// no live entry has a retired identifier.
pub open spec fn sound(table: Seq<RecordView>, retired: Set<u128>) -> bool {
    &&& distinct_ids(table)
    &&& well_stamped(table)
    &&& forall|id: u128| retired.contains(id) ==> !holds(table, id)
}

/// `table` after the entry `id` took `patch` at time `at`.
pub open spec fn after_update(
    table: Seq<RecordView>,
    id: u128,
    patch: PatchView,
    at: i64,
) -> Seq<RecordView> {
    let place = place_of(table, id);
    table.update(place, table[place].patched(patch, at))
}

/// `table` without the entry `id`.
pub open spec fn after_delete(table: Seq<RecordView>, id: u128) -> Seq<RecordView> {
    table.remove(place_of(table, id))
}

/// A table, the identifiers it has retired, and what the store reports of
/// the statement that led there.
pub struct Effect {
    pub table: Seq<RecordView>,
    pub retired: Set<u128>,
    pub report: Result<u64, FailureView>,
}

/// What one statement does to the table of a `DiaryStore` and what that
/// store reports of it: the number of rows it touched, or why it was
/// refused. An insert under an identifier that was given out before breaks
/// the unique key; an update stamped before the entry's last write is
/// refused; an update or a delete of an entry that is not there touches no
/// row and is no failure. The refusal of a stale stamp and of a retired
/// identifier are this store's own: the statement's SQL text says nothing of
/// them, so this is no model of a database that is sent that text.
pub open spec fn executed(table: Seq<RecordView>, retired: Set<u128>, statement: StatementView) -> Effect {
    match statement {
        StatementView::Insert { id, created_at, band, album, thoughts } => if holds(table, id)
            || retired.contains(id) {
            Effect { table, retired, report: Err(FailureView::DuplicateId) }
        } else {
            Effect {
                table: table.push(RecordView::fresh(id, created_at, band, album, thoughts)),
                retired,
                report: Ok(1),
            }
        },
        StatementView::Update { id, patch, at } => if !holds(table, id) {
            Effect { table, retired, report: Ok(0) }
        } else if at < table[place_of(table, id)].last_stamp() {
            Effect { table, retired, report: Err(FailureView::StaleTimestamp) }
        } else {
            Effect { table: after_update(table, id, patch, at), retired, report: Ok(1) }
        },
        StatementView::Delete { id } => if holds(table, id) {
            Effect { table: after_delete(table, id), retired: retired.insert(id), report: Ok(1) }
        } else {
            Effect { table, retired, report: Ok(0) }
        },
    }
}

/// Under a unique key an identifier stands at one place only.
pub proof fn place_is_unique(table: Seq<RecordView>, id: u128, at: int)
    requires
        distinct_ids(table),
        0 <= at < table.len(),
        table[at].id == id,
    ensures
        holds(table, id),
        place_of(table, id) == at,
{
    assert(holds(table, id));
}

/// The entries of the service, in the order they were created, together
/// with the identifiers of the entries that were deleted: an identifier is
/// given out once and never again.
#[derive(Clone, Debug)]
pub struct DiaryStore {
    records: Vec<DiaryRecord>,
    retired: Vec<u128>,
}

impl View for DiaryStore {
    type V = Seq<RecordView>;

    closed spec fn view(&self) -> Seq<RecordView> {
        views_of(self.records@)
    }
}

impl DiaryStore {
    /// The identifiers of the entries that were deleted.
    pub closed spec fn retired(&self) -> Set<u128> {
        self.retired@.to_set()
    }

    /// Whether `id` was ever given to an entry of this store.
    pub open spec fn issued(&self, id: u128) -> bool {
        holds(self@, id) || self.retired().contains(id)
    }

    /// The store's invariant: identifiers are unique among the entries and
    /// none of them is a retired one, and no entry was updated before it was
    /// created.
    pub open spec fn wf(&self) -> bool {
        sound(self@, self.retired())
    }

    /// An empty store that has given out no identifier.
    pub fn new() -> (store: DiaryStore)
        ensures
            store.wf(),
            store@ == Seq::<RecordView>::empty(),
            store.retired() == Set::<u128>::empty(),
    {
        let store = DiaryStore { records: Vec::new(), retired: Vec::new() };
        assert(store@ =~= Seq::<RecordView>::empty());
        assert(store.retired() =~= Set::<u128>::empty());
        store
    }

    /// The number of entries.
    pub fn len(&self) -> (count: usize)
        ensures
            count == self@.len(),
    {
        self.records.len()
    }

    fn find(&self, id: u128) -> (at: Option<usize>)
        ensures
            match at {
                Some(i) => i < self@.len() && self@[i as int].id == id && holds(self@, id),
                None => !holds(self@, id),
            },
    {
        let mut i: usize = 0;
        while i < self.records.len()
            invariant
                i <= self.records.len(),
                forall|j: int| 0 <= j < i ==> (#[trigger] self@[j]).id != id,
            decreases self.records.len() - i,
        {
            if self.records[i].id == id {
                assert(self@[i as int].id == id);
                return Some(i);
            }
            i += 1;
        }
        None
    }

    fn was_retired(&self, id: u128) -> (yes: bool)
        ensures
            yes == self.retired().contains(id),
    {
        let mut i: usize = 0;
        while i < self.retired.len()
            invariant
                i <= self.retired.len(),
                forall|j: int| 0 <= j < i ==> self.retired@[j] != id,
            decreases self.retired.len() - i,
        {
            if self.retired[i] == id {
                assert(self.retired@.contains(id));
                return true;
            }
            i += 1;
        }
        false
    }

    /// Whether the store holds an entry with identifier `id`.
    pub fn contains(&self, id: u128) -> (yes: bool)
        ensures
            yes == holds(self@, id),
    {
        self.find(id).is_some()
    }

    /// The entry with identifier `id`, where there is one.
    pub fn get(&self, id: u128) -> (found: Option<DiaryRecord>)
        requires
            self.wf(),
        ensures
            match found {
                Some(record) => holds(self@, id) && record@ == self@[place_of(self@, id)]
                    && record@.id == id,
                None => !holds(self@, id),
            },
    {
        match self.find(id) {
            Some(i) => {
                proof {
                    place_is_unique(self@, id, i as int);
                }
                Some(self.records[i].clone())
            },
            None => None,
        }
    }

    /// Stores a new entry under `id`, created at `now` and never updated,
    /// and returns it. An identifier that was given out before, to a live
    /// or a deleted entry, breaks the unique key: the store is then left as
    /// it was.
    pub fn create_with(
        &mut self,
        id: u128,
        now: i64,
        band: String,
        album: String,
        thoughts: String,
    ) -> (outcome: Result<DiaryRecord, ApiError>)
        requires
            old(self).wf(),
        ensures
            final(self).wf(),
            final(self).retired() == old(self).retired(),
            match outcome {
                Ok(record) => {
                    &&& !old(self).issued(id)
                    &&& record@ == RecordView::fresh(id, now, band@, album@, thoughts@)
                    &&& final(self)@ == old(self)@.push(record@)
                },
                Err(error) => {
                    &&& old(self).issued(id)
                    &&& error@ == ApiErrorView::PersistenceError(FailureView::DuplicateId)
                    &&& final(self)@ == old(self)@
                },
            },
    {
        if self.find(id).is_some() || self.was_retired(id) {
            return Err(ApiError::PersistenceError(Failure::DuplicateId));
        }
        let record = DiaryRecord::new(id, now, band, album, thoughts);
        let copy = record.clone();
        let ghost before = self@;
        self.records.push(record);
        proof {
            let after = self@;
            assert(after =~= before.push(copy@));
            assert forall|other: u128| holds(after, other) implies holds(before, other) || other
                == id by {
                let i = choose|i: int| 0 <= i < after.len() && (#[trigger] after[i]).id == other;
                if i < before.len() {
                    assert(before[i].id == other);
                }
            }
        }
        Ok(copy)
    }

    /// Creates an entry from the three texts: the store draws a fresh
    /// identifier and reads the clock itself. Whatever those two came to, the
    /// entry that is returned was never updated, holds the three texts and
    /// stands last in the store, and its identifier carries the marks of a
    /// random UUID, so it is not the nil UUID; a collision of the identifier leaves the
    /// store as it was, and there is none in a store that never gave out
    /// an identifier.
    pub fn create(
        &mut self,
        band: String,
        album: String,
        thoughts: String,
    ) -> (outcome: Result<DiaryRecord, ApiError>)
        requires
            old(self).wf(),
        ensures
            final(self).wf(),
            final(self).retired() == old(self).retired(),
            match outcome {
                Ok(record) => {
                    &&& !old(self).issued(record@.id)
                    &&& record@ == RecordView::fresh(
                        record@.id,
                        record@.created_at,
                        band@,
                        album@,
                        thoughts@,
                    )
                    &&& 0 <= record@.created_at
                    &&& random_marks(record@.id)
                    &&& record@.id != 0
                    &&& final(self)@ == old(self)@.push(record@)
                },
                Err(error) => {
                    &&& error@ == ApiErrorView::PersistenceError(FailureView::DuplicateId)
                    &&& final(self)@ == old(self)@
                    &&& exists|id: u128| #[trigger] old(self).issued(id)
                },
            },
    {
        let id = random_uuid();
        let now = utc_now_micros();
        proof {
            marked_is_not_nil(id);
        }
        self.create_with(id, now, band, album, thoughts)
    }

    /// Every entry, in the order of creation.
    pub fn list_all(&self) -> (entries: Vec<DiaryRecord>)
        ensures
            views_of(entries@) == self@,
            entries@.len() == self@.len(),
            forall|i: int| 0 <= i < entries@.len() ==> (#[trigger] entries@[i])@ == self@[i],
    {
        let mut entries: Vec<DiaryRecord> = Vec::new();
        let mut i: usize = 0;
        while i < self.records.len()
            invariant
                i <= self.records.len(),
                entries@.len() == i,
                forall|j: int| 0 <= j < i ==> (#[trigger] entries@[j])@ == self@[j],
            decreases self.records.len() - i,
        {
            let copy = self.records[i].clone();
            assert(copy@ == self@[i as int]);
            entries.push(copy);
            i += 1;
        }
        assert(views_of(entries@) =~= self@);
        entries
    }

    /// Applies `patch` to the entry `id` at time `now`. Without such an
    /// entry the answer is `NotFound`; a `now` before the entry's last write
    /// would put an update before the creation or before an earlier update,
    /// and is refused. Either way nothing is changed.
    pub fn update_field_at(
        &mut self,
        id: u128,
        patch: Patch,
        now: i64,
    ) -> (outcome: Result<(), ApiError>)
        requires
            old(self).wf(),
        ensures
            final(self).wf(),
            final(self).retired() == old(self).retired(),
            !holds(old(self)@, id) ==> {
                &&& outcome is Err
                &&& outcome->Err_0@ == ApiErrorView::NotFound
                &&& final(self)@ == old(self)@
            },
            holds(old(self)@, id) && now < old(self)@[place_of(old(self)@, id)].last_stamp() ==> {
                &&& outcome is Err
                &&& outcome->Err_0@ == ApiErrorView::PersistenceError(FailureView::StaleTimestamp)
                &&& final(self)@ == old(self)@
            },
            holds(old(self)@, id) && now >= old(self)@[place_of(old(self)@, id)].last_stamp() ==> {
                &&& outcome is Ok
                &&& final(self)@ == after_update(old(self)@, id, patch@, now)
            },
    {
        let at = match self.find(id) {
            Some(at) => at,
            None => {
                return Err(ApiError::NotFound);
            },
        };
        proof {
            place_is_unique(self@, id, at as int);
        }
        if now < self.records[at].last_stamp() {
            return Err(ApiError::PersistenceError(Failure::StaleTimestamp));
        }
        let ghost before = self@;
        let mut record = self.records[at].clone();
        record.apply(patch, now);
        self.records.set(at, record);
        proof {
            let after = self@;
            assert(after =~= after_update(before, id, patch@, now));
            assert forall|other: u128| holds(after, other) implies holds(before, other) by {
                let i = choose|i: int| 0 <= i < after.len() && (#[trigger] after[i]).id == other;
                assert(before[i].id == other);
            }
            assert forall|i: int, j: int|
                0 <= i < after.len() && 0 <= j < after.len() && i != j implies (
            #[trigger] after[i]).id != (#[trigger] after[j]).id by {
                assert(before[i].id == after[i].id);
                assert(before[j].id == after[j].id);
            }
            assert forall|i: int| 0 <= i < after.len() implies (
            #[trigger] after[i]).well_stamped() by {
                assert(before[i].well_stamped());
            }
        }
        Ok(())
    }

    /// Applies `patch` to the entry `id`, stamped with the clock as the
    /// store reads it. Without such an entry the answer is `NotFound` and
    /// nothing is changed. Where the entry exists, either it took the patch
    /// and the new stamp, which is not before its last write, or the clock
    /// stood before that write and nothing is changed; the clock never
    /// stands before the epoch, so an entry last written then or earlier
    /// always takes the patch.
    pub fn update_field(&mut self, id: u128, patch: Patch) -> (outcome: Result<(), ApiError>)
        requires
            old(self).wf(),
        ensures
            final(self).wf(),
            final(self).retired() == old(self).retired(),
            !holds(old(self)@, id) ==> {
                &&& outcome is Err
                &&& outcome->Err_0@ == ApiErrorView::NotFound
                &&& final(self)@ == old(self)@
            },
            holds(old(self)@, id) ==> match outcome {
                Ok(_) => {
                    let place = place_of(old(self)@, id);
                    &&& final(self)@.len() == old(self)@.len()
                    &&& final(self)@[place].updated_at is Some
                    &&& final(self)@[place].updated_at->Some_0 >= old(self)@[place].last_stamp()
                    &&& final(self)@ == after_update(
                        old(self)@,
                        id,
                        patch@,
                        final(self)@[place].updated_at->Some_0,
                    )
                },
                Err(error) => {
                    &&& error@ == ApiErrorView::PersistenceError(FailureView::StaleTimestamp)
                    &&& final(self)@ == old(self)@
                    &&& old(self)@[place_of(old(self)@, id)].last_stamp() > 0
                },
            },
    {
        let now = utc_now_micros();
        proof {
            if holds(self@, id) {
                let place = place_of(self@, id);
                assert(0 <= place < self@.len());
            }
        }
        self.update_field_at(id, patch, now)
    }

    /// Removes the entry `id` and retires its identifier. Where there is no
    /// such entry nothing is changed, and that is no error: `removed` only
    /// tells the two cases apart.
    pub fn delete(&mut self, id: u128) -> (removed: bool)
        requires
            old(self).wf(),
        ensures
            final(self).wf(),
            removed == holds(old(self)@, id),
            removed ==> final(self)@ == after_delete(old(self)@, id) && final(self).retired()
                == old(self).retired().insert(id),
            !removed ==> final(self)@ == old(self)@ && final(self).retired() == old(
                self,
            ).retired(),
    {
        let at = match self.find(id) {
            Some(at) => at,
            None => {
                return false;
            },
        };
        proof {
            place_is_unique(self@, id, at as int);
        }
        let ghost before = self@;
        let ghost gone = self.retired@;
        self.records.remove(at);
        self.retired.push(id);
        proof {
            let after = self@;
            assert(after =~= after_delete(before, id));
            assert forall|a: u128| self.retired@.contains(a) <==> gone.contains(a) || a == id by {
                if gone.contains(a) {
                    let k = choose|k: int| 0 <= k < gone.len() && gone[k] == a;
                    assert(self.retired@[k] == a);
                }
                if a == id {
                    assert(self.retired@[gone.len() as int] == a);
                }
            }
            assert(self.retired() =~= gone.to_set().insert(id));
            delete_removes(before, id);
            assert forall|other: u128| holds(after, other) implies holds(before, other) && other
                != id by {
                let i = choose|i: int| 0 <= i < after.len() && (#[trigger] after[i]).id == other;
                if i < at {
                    assert(before[i].id == other);
                } else {
                    assert(before[i + 1].id == other);
                }
            }
        }
        true
    }

    /// Carries out one statement and reports the number of rows it touched,
    /// or why it was refused.
    pub fn execute(&mut self, statement: Statement) -> (report: Result<u64, Failure>)
        requires
            old(self).wf(),
        ensures
            final(self).wf(),
            final(self)@ == executed(old(self)@, old(self).retired(), statement@).table,
            final(self).retired() == executed(old(self)@, old(self).retired(), statement@).retired,
            match report {
                Ok(rows) => executed(old(self)@, old(self).retired(), statement@).report == Ok::<
                    u64,
                    FailureView,
                >(rows),
                Err(failure) => executed(old(self)@, old(self).retired(), statement@).report
                    == Err::<u64, FailureView>(failure@),
            },
    {
        match statement {
            Statement::Insert { id, created_at, band, album, thoughts } => {
                match self.create_with(id, created_at, band, album, thoughts) {
                    Ok(_) => Ok(1),
                    Err(_) => Err(Failure::DuplicateId),
                }
            },
            Statement::Update { id, patch, at } => {
                proof {
                    if holds(self@, id) {
                        assert(0 <= place_of(self@, id) < self@.len());
                    }
                }
                match self.update_field_at(id, patch, at) {
                    Ok(_) => Ok(1),
                    Err(ApiError::NotFound) => Ok(0),
                    Err(_) => Err(Failure::StaleTimestamp),
                }
            },
            Statement::Delete { id } => {
                if self.delete(id) {
                    Ok(1)
                } else {
                    Ok(0)
                }
            },
        }
    }
}

/// Deleting an entry that exists takes exactly that entry away: its
/// identifier is no longer held, every other entry is still there, in the
/// same order, and the key stays unique.
pub proof fn delete_removes(table: Seq<RecordView>, id: u128)
    requires
        distinct_ids(table),
        holds(table, id),
    ensures
        !holds(after_delete(table, id), id),
        after_delete(table, id).len() == table.len() - 1,
        forall|other: u128| other != id ==> (holds(after_delete(table, id), other) <==> holds(
            table,
            other,
        )),
        distinct_ids(after_delete(table, id)),
        well_stamped(table) ==> well_stamped(after_delete(table, id)),
{
    let place = place_of(table, id);
    let after = after_delete(table, id);
    assert forall|i: int| 0 <= i < after.len() implies (#[trigger] after[i]) == table[if i
        < place {
        i
    } else {
        i + 1
    }] by {}
    assert forall|i: int| 0 <= i < after.len() implies (#[trigger] after[i]).id != id by {
        let k = if i < place { i } else { i + 1 };
        assert(table[k].id != table[place].id);
    }
    assert forall|other: u128| other != id implies (holds(after, other) <==> holds(
        table,
        other,
    )) by {
        if holds(after, other) {
            let i = choose|i: int| 0 <= i < after.len() && (#[trigger] after[i]).id == other;
            let k = if i < place { i } else { i + 1 };
            assert(table[k].id == other);
        }
        if holds(table, other) {
            let k = choose|k: int| 0 <= k < table.len() && (#[trigger] table[k]).id == other;
            let i = if k < place { k } else { k - 1 };
            assert(after[i].id == other);
        }
    }
    assert forall|i: int, j: int|
        0 <= i < after.len() && 0 <= j < after.len() && i != j implies (#[trigger] after[i]).id
        != (#[trigger] after[j]).id by {
        let ki = if i < place { i } else { i + 1 };
        let kj = if j < place { j } else { j + 1 };
        assert(table[ki].id != table[kj].id);
    }
    if well_stamped(table) {
        assert forall|i: int| 0 <= i < after.len() implies (#[trigger] after[i]).well_stamped() by {
            let k = if i < place { i } else { i + 1 };
            assert(table[k].well_stamped());
        }
    }
}

/// An update of an entry that exists changes exactly one field of exactly
/// that entry: the patched text is the new one, `updated_at` is the time of
/// the update, and the identifier, the time of creation and the other texts
/// are as before; all other entries are untouched. Where the update is not
/// stamped before the entry's last write, `updated_at` does not go back, and
/// the table keeps its unique key and its stamps in order.
pub proof fn update_touches_one_field(table: Seq<RecordView>, id: u128, patch: PatchView, at: i64)
    requires
        distinct_ids(table),
        holds(table, id),
    ensures
        ({
            let place = place_of(table, id);
            let before = table[place];
            let after = after_update(table, id, patch, at);
            &&& 0 <= place < table.len()
            &&& after.len() == table.len()
            &&& forall|i: int| 0 <= i < table.len() && i != place ==> after[i] == table[i]
            &&& after[place].id == id
            &&& after[place].created_at == before.created_at
            &&& after[place].band == before.band
            &&& after[place].updated_at == Some(at)
            &&& match patch {
                PatchView::Album(text) => after[place].album == text && after[place].thoughts
                    == before.thoughts,
                PatchView::Thoughts(text) => after[place].thoughts == text && after[place].album
                    == before.album,
            }
            &&& distinct_ids(after)
            &&& holds(after, id)
            &&& at >= before.last_stamp() && well_stamped(table) ==> {
                &&& after[place].last_stamp() >= before.last_stamp()
                &&& after[place].last_stamp() >= before.created_at
                &&& well_stamped(after)
            }
        }),
{
    let place = place_of(table, id);
    let after = after_update(table, id, patch, at);
    assert(after[place].id == id);
    assert forall|i: int, j: int|
        0 <= i < after.len() && 0 <= j < after.len() && i != j implies (#[trigger] after[i]).id
        != (#[trigger] after[j]).id by {
        assert(table[i].id == after[i].id);
        assert(table[j].id == after[j].id);
    }
    if at >= table[place].last_stamp() && well_stamped(table) {
        assert(table[place].well_stamped());
        assert forall|i: int| 0 <= i < after.len() implies (#[trigger] after[i]).well_stamped() by {
            assert(table[i].well_stamped());
        }
    }
}

/// A statement against an entry that does not exist changes nothing: the
/// update reports that it touched no row, and so does the delete, which is
/// no failure.
pub proof fn missing_entry_is_left_alone(
    table: Seq<RecordView>,
    retired: Set<u128>,
    id: u128,
    patch: PatchView,
    at: i64,
)
    requires
        !holds(table, id),
    ensures
        executed(table, retired, StatementView::Update { id, patch, at }) == (Effect {
            table,
            retired,
            report: Ok(0),
        }),
        executed(table, retired, StatementView::Delete { id }) == (Effect {
            table,
            retired,
            report: Ok(0),
        }),
{
}

/// Deleting twice is deleting once: after the delete of an entry that
/// exists, a second delete of the same identifier touches no row and leaves
/// the table and the retired identifiers as they are.
pub proof fn delete_is_idempotent(table: Seq<RecordView>, retired: Set<u128>, id: u128)
    requires
        distinct_ids(table),
    ensures
        ({
            let once = executed(table, retired, StatementView::Delete { id });
            let twice = executed(once.table, once.retired, StatementView::Delete { id });
            &&& once.report is Ok
            &&& twice.report == Ok::<u64, FailureView>(0)
            &&& twice.table == once.table
            &&& twice.retired == once.retired
        }),
{
    if holds(table, id) {
        delete_removes(table, id);
    }
}

/// A new entry gets an identifier of its own: where the insert is carried
/// out, no live and no deleted entry had the identifier, the entry stands
/// last in the table with `created_at` set and `updated_at` unset, and the
/// key is still unique.
pub proof fn new_entry_is_unique(
    table: Seq<RecordView>,
    retired: Set<u128>,
    id: u128,
    now: i64,
    band: Seq<char>,
    album: Seq<char>,
    thoughts: Seq<char>,
)
    requires
        distinct_ids(table),
        well_stamped(table),
    ensures
        ({
            let effect = executed(
                table,
                retired,
                StatementView::Insert { id, created_at: now, band, album, thoughts },
            );
            &&& effect.report is Ok <==> !holds(table, id) && !retired.contains(id)
            &&& effect.report is Ok ==> {
                &&& effect.table.len() == table.len() + 1
                &&& effect.table.last() == RecordView::fresh(id, now, band, album, thoughts)
                &&& effect.table.last().created_at == now
                &&& effect.table.last().updated_at is None
                &&& forall|i: int| 0 <= i < table.len() ==> (#[trigger] effect.table[i]).id != id
                &&& distinct_ids(effect.table)
                &&& well_stamped(effect.table)
            }
            &&& effect.report is Err ==> effect.table == table
        }),
{
    if !holds(table, id) && !retired.contains(id) {
        let after = table.push(RecordView::fresh(id, now, band, album, thoughts));
        assert forall|i: int| 0 <= i < table.len() implies (#[trigger] after[i]).id != id by {
            assert(table[i].id != id);
        }
        assert forall|i: int, j: int|
            0 <= i < after.len() && 0 <= j < after.len() && i != j implies (
        #[trigger] after[i]).id != (#[trigger] after[j]).id by {
            if i < table.len() && j < table.len() {
                assert(table[i].id != table[j].id);
            }
        }
        assert forall|i: int| 0 <= i < after.len() implies (#[trigger] after[i]).well_stamped() by {
            if i < table.len() {
                assert(table[i].well_stamped());
            }
        }
    }
}

/// Two creations never end up under one identifier, in whatever order the
/// store takes them and whatever was deleted in between: an insert that is
/// carried out after another one has an identifier different from it.
pub proof fn creates_never_collide(
    table: Seq<RecordView>,
    retired: Set<u128>,
    first: StatementView,
    between: Seq<u128>,
    second: StatementView,
)
    requires
        first is Insert,
        second is Insert,
        executed(table, retired, first).report is Ok,
        executed(
            deleted_all(executed(table, retired, first), between).table,
            deleted_all(executed(table, retired, first), between).retired,
            second,
        ).report is Ok,
    ensures
        first.id() != second.id(),
{
    let start = executed(table, retired, first);
    assert(start.table.last().id == first.id());
    assert(holds(start.table, first.id()));
    deleted_all_keeps_issued(start, between, first.id());
}

/// The table and the retired identifiers after the entries named in
/// `doomed` were deleted one after the other.
pub open spec fn deleted_all(start: Effect, doomed: Seq<u128>) -> Effect
    decreases doomed.len(),
{
    if doomed.len() == 0 {
        start
    } else {
        let earlier = deleted_all(start, doomed.drop_last());
        executed(earlier.table, earlier.retired, StatementView::Delete { id: doomed.last() })
    }
}

/// An identifier that was given out stays given out through any deletes:
/// it is held by a live entry or retired, and is never free again.
pub proof fn deleted_all_keeps_issued(start: Effect, doomed: Seq<u128>, id: u128)
    requires
        holds(start.table, id) || start.retired.contains(id),
    ensures
        holds(deleted_all(start, doomed).table, id) || deleted_all(start, doomed).retired.contains(
            id,
        ),
    decreases doomed.len(),
{
    if doomed.len() > 0 {
        deleted_all_keeps_issued(start, doomed.drop_last(), id);
        let earlier = deleted_all(start, doomed.drop_last());
        let gone = doomed.last();
        if holds(earlier.table, gone) && gone != id && holds(earlier.table, id) {
            let place = place_of(earlier.table, gone);
            let k = choose|k: int| 0 <= k < earlier.table.len() && (#[trigger] earlier.table[k]).id
                == id;
            let after = after_delete(earlier.table, gone);
            let i = if k < place { k } else { k - 1 };
            assert(after[i].id == id);
        }
    }
}

/// No statement breaks the table: whatever is executed, the key stays
/// unique, the stamps stay in order, retired identifiers stay retired and out
/// of the table, and a statement that is refused changes nothing.
pub proof fn execution_keeps_the_table_sound(
    table: Seq<RecordView>,
    retired: Set<u128>,
    statement: StatementView,
)
    requires
        sound(table, retired),
    ensures
        sound(executed(table, retired, statement).table, executed(table, retired, statement).retired),
        retired.subset_of(executed(table, retired, statement).retired),
        executed(table, retired, statement).report is Err ==> executed(
            table,
            retired,
            statement,
        ).table == table && executed(table, retired, statement).retired == retired,
{
    let effect = executed(table, retired, statement);
    match statement {
        StatementView::Insert { id, created_at, band, album, thoughts } => {
            new_entry_is_unique(table, retired, id, created_at, band, album, thoughts);
            if effect.report is Ok {
                assert forall|other: u128| retired.contains(other) implies !holds(
                    effect.table,
                    other,
                ) by {
                    if holds(effect.table, other) {
                        let i = choose|i: int|
                            0 <= i < effect.table.len() && (#[trigger] effect.table[i]).id == other;
                        if i < table.len() {
                            assert(table[i].id == other);
                        }
                    }
                }
            }
        },
        StatementView::Update { id, patch, at } => {
            if holds(table, id) && at >= table[place_of(table, id)].last_stamp() {
                update_touches_one_field(table, id, patch, at);
                assert forall|other: u128| retired.contains(other) implies !holds(
                    effect.table,
                    other,
                ) by {
                    if holds(effect.table, other) {
                        let i = choose|i: int|
                            0 <= i < effect.table.len() && (#[trigger] effect.table[i]).id == other;
                        assert(table[i].id == other);
                    }
                }
            }
        },
        StatementView::Delete { id } => {
            if holds(table, id) {
                delete_removes(table, id);
            }
        },
    }
}

/// An entry without `updated_at` was never written to since it was
/// created: after any statement, such an entry either stood in the table
/// before, exactly as it is, or is the entry that the statement inserted.
pub proof fn an_unstamped_entry_was_never_changed(
    table: Seq<RecordView>,
    retired: Set<u128>,
    statement: StatementView,
    entry: RecordView,
)
    requires
        distinct_ids(table),
        executed(table, retired, statement).table.contains(entry),
        entry.updated_at is None,
    ensures
        table.contains(entry) || (statement matches StatementView::Insert {
            id,
            created_at,
            band,
            album,
            thoughts,
        } && entry == RecordView::fresh(id, created_at, band, album, thoughts)),
{
    let after = executed(table, retired, statement).table;
    let i = choose|i: int| 0 <= i < after.len() && after[i] == entry;
    match statement {
        StatementView::Insert { id, created_at, band, album, thoughts } => {
            if i < table.len() {
                assert(table[i] == entry);
            }
        },
        StatementView::Update { id, patch, at } => {
            if holds(table, id) && at >= table[place_of(table, id)].last_stamp() {
                update_touches_one_field(table, id, patch, at);
            }
            assert(table[i] == entry);
        },
        StatementView::Delete { id } => {
            if holds(table, id) {
                let place = place_of(table, id);
                let k = if i < place {
                    i
                } else {
                    i + 1
                };
                assert(table[k] == entry);
            } else {
                assert(table[i] == entry);
            }
        },
    }
}

} // verus!
