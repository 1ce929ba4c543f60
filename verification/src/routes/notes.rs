//! The note endpoints. Every note is read, stored and changed on behalf of
//! the user whose token came with the request.

use vstd::prelude::*;

use crate::entities::notes::{
    CreateNote, CreateNoteRequest, Filter, FilterSchema, Note, UpdateNote, UpdateNoteSchema,
};

use super::{found_or_not_found, is_error, or_bad_request, AppError, BAD_REQUEST, NOT_FOUND};

verus! {

/// The note to store for a request to create one: it belongs to the user
/// `sub` who sent it.
pub fn create_note_request(sub: i64, request: CreateNoteRequest) -> (n: CreateNote)
    ensures
        n.user_id == sub,
        n.title == request.title,
        n.description == request.description,
{
    CreateNote { user_id: sub, title: request.title, description: request.description }
}

/// The answer to a stored note: the id the store gave it, its title and
/// description, without owner or creation time.
pub fn created_note(note: CreateNote, outcome: Result<i64, String>) -> (r: Result<Note, AppError>)
    ensures
        match outcome {
            Ok(id) => r matches Ok(n) && {
                &&& n.id == id
                &&& n.title == note.title
                &&& n.description == note.description
                &&& n.created_at is None
                &&& n.user is None
            },
            Err(e) => r matches Err(a) && is_error(a, BAD_REQUEST, e@),
        },
{
    match or_bad_request(outcome) {
        Ok(id) => Ok(
            Note {
                id,
                title: note.title,
                description: note.description,
                created_at: None,
                user: None,
            },
        ),
        Err(a) => Err(a),
    }
}

/// The answer to a lookup of one note.
pub fn note_found(outcome: Result<Option<Note>, String>) -> (r: Result<Note, AppError>)
    ensures
        match outcome {
            Ok(Some(n)) => r == Ok::<Note, AppError>(n),
            Ok(None) => r matches Err(a) && is_error(a, NOT_FOUND, "note not found"@),
            Err(e) => r matches Err(a) && is_error(a, BAD_REQUEST, e@),
        },
{
    found_or_not_found(outcome, "note not found")
}

/// The page of notes to read for a listing: the caller's own.
pub fn notes_filter(sub: i64, filter: Filter) -> (f: FilterSchema)
    ensures
        f.user_id == sub,
        f.page == filter.page,
        f.limit == filter.limit,
{
    FilterSchema { page: filter.page, limit: filter.limit, user_id: sub }
}

/// The change to store for a request to change a note: made on behalf of the
/// user `sub` who sent it.
pub fn update_note_payload(sub: i64, request: UpdateNote) -> (p: UpdateNoteSchema)
    ensures
        p.user_id == sub,
        p.title == request.title,
        p.description == request.description,
{
    UpdateNoteSchema { title: request.title, description: request.description, user_id: sub }
}

/// The answer to a stored change: the id the store gave back, the new title
/// and description, without owner or creation time. When the caller owns no
/// note with that id, `404 note not found`.
pub fn updated_note(payload: UpdateNoteSchema, outcome: Result<Option<i64>, String>) -> (r: Result<
    Note,
    AppError,
>)
    ensures
        match outcome {
            Ok(Some(id)) => r matches Ok(n) && {
                &&& n.id == id
                &&& n.title == payload.title
                &&& n.description == payload.description
                &&& n.created_at is None
                &&& n.user is None
            },
            Ok(None) => r matches Err(a) && is_error(a, NOT_FOUND, "note not found"@),
            Err(e) => r matches Err(a) && is_error(a, BAD_REQUEST, e@),
        },
{
    match found_or_not_found(outcome, "note not found") {
        Ok(id) => Ok(
            Note {
                id,
                title: payload.title,
                description: payload.description,
                created_at: None,
                user: None,
            },
        ),
        Err(a) => Err(a),
    }
}

/// The answer to a deletion of a note: the id of the note removed.
pub fn note_deleted(outcome: Result<Option<i64>, String>) -> (r: Result<i64, AppError>)
    ensures
        match outcome {
            Ok(Some(id)) => r == Ok::<i64, AppError>(id),
            Ok(None) => r matches Err(a) && is_error(a, NOT_FOUND, "note not found"@),
            Err(e) => r matches Err(a) && is_error(a, BAD_REQUEST, e@),
        },
{
    found_or_not_found(outcome, "note not found")
}

} // verus!
