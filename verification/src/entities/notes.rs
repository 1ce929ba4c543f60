//! Notes and the requests that create, change and list them.

use vstd::prelude::*;

use super::users::User;

verus! {

/// A note as stored, with the id of the user who owns it and, where a query
/// joins it, that user.
#[derive(Debug, Clone, PartialEq)]
pub struct NoteSchema {
    pub id: i64,
    pub title: String,
    pub description: String,
    pub created_at: Option<chrono::NaiveDateTime>,
    pub user: Option<User>,
    pub user_id: i64,
}

/// A note as the service hands it out.
#[derive(Debug, Clone, PartialEq)]
pub struct Note {
    pub id: i64,
    pub title: String,
    pub description: String,
    pub created_at: Option<chrono::NaiveDateTime>,
    pub user: Option<User>,
}

/// A note to be stored for its owner.
#[derive(Debug, Clone)]
pub struct CreateNote {
    pub title: String,
    pub description: String,
    pub user_id: i64,
}

/// The body of a request that creates a note.
#[derive(Debug, Clone)]
pub struct CreateNoteRequest {
    pub title: String,
    pub description: String,
}

/// The body of a request that changes a note.
#[derive(Debug, Clone)]
pub struct UpdateNote {
    pub title: String,
    pub description: String,
}

/// A change to a note, on behalf of its owner.
#[derive(Debug, Clone)]
pub struct UpdateNoteSchema {
    pub title: String,
    pub description: String,
    pub user_id: i64,
}

/// The page of notes a request asks for.
#[derive(Debug, Clone, Copy)]
pub struct Filter {
    pub page: i64,
    pub limit: i64,
}

/// The page of a user's notes to read.
#[derive(Debug, Clone, Copy)]
pub struct FilterSchema {
    pub page: i64,
    pub limit: i64,
    pub user_id: i64,
}

/// One row of the query that joins a note with its owner.
#[derive(Debug, Clone)]
pub struct NoteRow {
    pub id: i64,
    pub title: String,
    pub description: String,
    pub created_at: Option<chrono::NaiveDateTime>,
    pub user_id: i64,
    pub full_name: String,
    pub email: String,
    pub role: String,
}

} // verus!
