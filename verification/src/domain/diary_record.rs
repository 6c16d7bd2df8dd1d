//! The diary entry: the one resource the service persists.

use vstd::prelude::*;

verus! {

/// One diary entry. `id` is the 128-bit value of the entry's UUID; the two
/// stamps count microseconds since the Unix epoch, UTC.
#[derive(Debug, PartialEq, Eq)]
pub struct DiaryRecord {
    pub id: u128,
    pub created_at: i64,
    pub updated_at: Option<i64>,
    pub band: String,
    pub album: String,
    pub thoughts: String,
}

/// Whether `id` carries the marks of a randomly drawn UUID: version 4 in
/// bits 79 to 76 and the variant `10` in bits 63 and 62.
pub open spec fn random_marks(id: u128) -> bool {
    id & 0x0000_0000_0000_f000_c000_0000_0000_0000 == 0x0000_0000_0000_4000_8000_0000_0000_0000
}

/// An identifier with the marks of a random UUID is not the nil UUID.
pub proof fn marked_is_not_nil(id: u128)
    requires
        random_marks(id),
    ensures
        id != 0,
{
    assert(id != 0) by (bit_vector)
        requires
            id & 0x0000_0000_0000_f000_c000_0000_0000_0000
                == 0x0000_0000_0000_4000_8000_0000_0000_0000u128,
    ;
}

/// A diary entry as a mathematical value: the texts are character sequences.
pub struct RecordView {
    pub id: u128,
    pub created_at: i64,
    pub updated_at: Option<i64>,
    pub band: Seq<char>,
    pub album: Seq<char>,
    pub thoughts: Seq<char>,
}

/// One field-scoped change to an entry, with the new text.
#[derive(Debug, PartialEq, Eq)]
pub enum Patch {
    Album(String),
    Thoughts(String),
}

/// A `Patch` as a mathematical value.
pub enum PatchView {
    Album(Seq<char>),
    Thoughts(Seq<char>),
}

impl View for Patch {
    type V = PatchView;

    open spec fn view(&self) -> PatchView {
        match *self {
            Patch::Album(text) => PatchView::Album(text@),
            Patch::Thoughts(text) => PatchView::Thoughts(text@),
        }
    }
}

impl Clone for Patch {
    fn clone(&self) -> (copy: Patch)
        ensures
            copy@ == self@,
    {
        match self {
            Patch::Album(text) => Patch::Album(text.clone()),
            Patch::Thoughts(text) => Patch::Thoughts(text.clone()),
        }
    }
}

impl RecordView {
    /// The entry as it is right after creation: never updated.
    pub open spec fn fresh(
        id: u128,
        created_at: i64,
        band: Seq<char>,
        album: Seq<char>,
        thoughts: Seq<char>,
    ) -> RecordView {
        RecordView { id, created_at, updated_at: None, band, album, thoughts }
    }

    /// The time of the last write to the entry: its latest update, or its
    /// creation where it was never updated.
    pub open spec fn last_stamp(self) -> i64 {
        match self.updated_at {
            Some(at) => at,
            None => self.created_at,
        }
    }

    /// An update, where there was one, is not older than the creation.
    pub open spec fn well_stamped(self) -> bool {
        self.updated_at matches Some(at) ==> self.created_at <= at
    }

    /// The entry after `patch` was applied at time `at`: the named field holds
    /// the new text, `updated_at` is `at`, everything else is as before.
    pub open spec fn patched(self, patch: PatchView, at: i64) -> RecordView {
        match patch {
            PatchView::Album(text) => RecordView { album: text, updated_at: Some(at), ..self },
            PatchView::Thoughts(text) => RecordView {
                thoughts: text,
                updated_at: Some(at),
                ..self
            },
        }
    }
}

impl View for DiaryRecord {
    type V = RecordView;

    open spec fn view(&self) -> RecordView {
        RecordView {
            id: self.id,
            created_at: self.created_at,
            updated_at: self.updated_at,
            band: self.band@,
            album: self.album@,
            thoughts: self.thoughts@,
        }
    }
}

/// The entries of `records` as mathematical values, in the same order.
pub open spec fn views_of(records: Seq<DiaryRecord>) -> Seq<RecordView> {
    records.map_values(|record: DiaryRecord| record@)
}

impl DiaryRecord {
    /// A new entry: created at `created_at` and never updated.
    pub fn new(
        id: u128,
        created_at: i64,
        band: String,
        album: String,
        thoughts: String,
    ) -> (record: DiaryRecord)
        ensures
            record@ == RecordView::fresh(id, created_at, band@, album@, thoughts@),
    {
        DiaryRecord { id, created_at, updated_at: None, band, album, thoughts }
    }

    /// The time of the last write to the entry.
    pub fn last_stamp(&self) -> (at: i64)
        ensures
            at == self@.last_stamp(),
    {
        match self.updated_at {
            Some(at) => at,
            None => self.created_at,
        }
    }

    /// Applies `patch` at time `at`.
    pub fn apply(&mut self, patch: Patch, at: i64)
        ensures
            final(self)@ == old(self)@.patched(patch@, at),
    {
        match patch {
            Patch::Album(text) => {
                self.album = text;
            },
            Patch::Thoughts(text) => {
                self.thoughts = text;
            },
        }
        self.updated_at = Some(at);
    }
}

impl Clone for DiaryRecord {
    fn clone(&self) -> (copy: DiaryRecord)
        ensures
            copy@ == self@,
    {
        DiaryRecord {
            id: self.id,
            created_at: self.created_at,
            updated_at: self.updated_at,
            band: self.band.clone(),
            album: self.album.clone(),
            thoughts: self.thoughts.clone(),
        }
    }
}

impl Default for DiaryRecord {
    /// The nil identifier, the epoch, no update and empty texts.
    fn default() -> (record: DiaryRecord)
        ensures
            record@ == RecordView::fresh(0, 0, Seq::empty(), Seq::empty(), Seq::empty()),
    {
        DiaryRecord {
            id: 0,
            created_at: 0,
            updated_at: None,
            band: String::new(),
            album: String::new(),
            thoughts: String::new(),
        }
    }
}

} // verus!
