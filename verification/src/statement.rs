//! The writes the handlers ask of the backing store, as plain values.

use vstd::prelude::*;
use crate::domain::diary_record::{Patch, PatchView};

verus! {

/// One write against the table of diary entries. Each touches one row at most.
#[derive(Clone, Debug, PartialEq, Eq)]
pub enum Statement {
    /// Insert a row that was never updated.
    Insert { id: u128, created_at: i64, band: String, album: String, thoughts: String },
    /// Set one field and `updated_at` of the row `id`.
    Update { id: u128, patch: Patch, at: i64 },
    /// Delete the row `id`.
    Delete { id: u128 },
}

/// A `Statement` as a mathematical value.
pub enum StatementView {
    Insert { id: u128, created_at: i64, band: Seq<char>, album: Seq<char>, thoughts: Seq<char> },
    Update { id: u128, patch: PatchView, at: i64 },
    Delete { id: u128 },
}

impl View for Statement {
    type V = StatementView;

    open spec fn view(&self) -> StatementView {
        match *self {
            Statement::Insert { id, created_at, band, album, thoughts } => StatementView::Insert {
                id,
                created_at,
                band: band@,
                album: album@,
                thoughts: thoughts@,
            },
            Statement::Update { id, patch, at } => StatementView::Update { id, patch: patch@, at },
            Statement::Delete { id } => StatementView::Delete { id },
        }
    }
}

/// What a write is for.
#[derive(Clone, Copy, Debug, PartialEq, Eq, Structural)]
pub enum Operation {
    Create,
    UpdateAlbum,
    UpdateThoughts,
    Delete,
}

impl StatementView {
    /// What the statement is for.
    pub open spec fn operation(self) -> Operation {
        match self {
            StatementView::Insert { .. } => Operation::Create,
            StatementView::Update { patch, .. } => match patch {
                PatchView::Album(_) => Operation::UpdateAlbum,
                PatchView::Thoughts(_) => Operation::UpdateThoughts,
            },
            StatementView::Delete { .. } => Operation::Delete,
        }
    }

    /// The SQL text of the statement, with its values left as parameters.
    /// It writes what the statement says and tests nothing but the
    /// identifier: that a stamp does not go back, and that a deleted
    /// identifier does not return, is kept by `DiaryStore` and not by this
    /// text.
    pub open spec fn sql(self) -> Seq<char> {
        match self.operation() {
            Operation::Create => "INSERT INTO diary (id, created_at, updated_at, band, album, thoughts) VALUES ($1, $2, $3, $4, $5, $6)"@,
            Operation::UpdateAlbum => "UPDATE diary SET updated_at = $1, album = $2 WHERE id = $3"@,
            Operation::UpdateThoughts => "UPDATE diary SET updated_at = $1, thoughts = $2 WHERE id = $3"@,
            Operation::Delete => "DELETE FROM diary WHERE id = $1"@,
        }
    }
}

/// The SQL text that reads every row.
pub open spec fn select_all_sql() -> Seq<char> {
    "SELECT * FROM diary"@
}

/// The SQL text that reads every row.
pub fn select_all() -> (sql: &'static str)
    ensures
        sql@ == select_all_sql(),
{
    "SELECT * FROM diary"
}

impl Statement {
    /// What the statement is for.
    pub fn operation(&self) -> (operation: Operation)
        ensures
            operation == self@.operation(),
    {
        match self {
            Statement::Insert { .. } => Operation::Create,
            Statement::Update { patch, .. } => match patch {
                Patch::Album(_) => Operation::UpdateAlbum,
                Patch::Thoughts(_) => Operation::UpdateThoughts,
            },
            Statement::Delete { .. } => Operation::Delete,
        }
    }

    /// The SQL text of the statement.
    pub fn sql(&self) -> (sql: &'static str)
        ensures
            sql@ == self@.sql(),
    {
        match self.operation() {
            Operation::Create => "INSERT INTO diary (id, created_at, updated_at, band, album, thoughts) VALUES ($1, $2, $3, $4, $5, $6)",
            Operation::UpdateAlbum => "UPDATE diary SET updated_at = $1, album = $2 WHERE id = $3",
            Operation::UpdateThoughts => "UPDATE diary SET updated_at = $1, thoughts = $2 WHERE id = $3",
            Operation::Delete => "DELETE FROM diary WHERE id = $1",
        }
    }
}

impl StatementView {
    /// The identifier of the row the statement is about.
    pub open spec fn id(self) -> u128 {
        match self {
            StatementView::Insert { id, .. } => id,
            StatementView::Update { id, .. } => id,
            StatementView::Delete { id } => id,
        }
    }

    /// The time the statement stamps its row with; zero for a delete, which
    /// stamps nothing.
    pub open spec fn stamp(self) -> i64 {
        match self {
            StatementView::Insert { created_at, .. } => created_at,
            StatementView::Update { at, .. } => at,
            StatementView::Delete { .. } => 0,
        }
    }
}

} // verus!
