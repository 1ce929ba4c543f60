//! The notes repository.

use vstd::prelude::*;

use crate::entities::notes::{FilterSchema, Note, NoteRow};
use crate::entities::users::User;

verus! {

/// The repository of notes.
pub struct NoteRepo;

/// How many of a user's notes come before page `page` when each page holds
/// `limit` of them (pages count from 1).
pub open spec fn page_offset_of(page: int, limit: int) -> int {
    (page - 1) * limit
}

/// The first page starts at the first note.
pub proof fn first_page_starts_at_zero(limit: int)
    ensures
        page_offset_of(1, limit) == 0,
{
}

/// Each page starts where the one before it ends: pages neither overlap nor
/// leave notes out.
pub proof fn next_page_follows(page: int, limit: int)
    ensures
        page_offset_of(page + 1, limit) == page_offset_of(page, limit) + limit,
{
    assert((page + 1 - 1) * limit == (page - 1) * limit + limit) by (nonlinear_arith);
}

impl NoteRepo {
    /// The number of notes to skip to reach the page that `filter` asks for.
    pub fn page_offset(filter: &FilterSchema) -> (r: i64)
        requires
            filter.page > i64::MIN,
            i64::MIN <= page_offset_of(filter.page as int, filter.limit as int) <= i64::MAX,
        ensures
            r == page_offset_of(filter.page as int, filter.limit as int),
    {
        (filter.page - 1) * filter.limit
    }

    /// A note read by id, kept only when it belongs to `owner`.
    pub fn owned_by(note: Option<Note>, owner: i64) -> (r: Option<Note>)
        ensures
            r == (if note matches Some(n) && n.user matches Some(u) && u.id == owner {
                note
            } else {
                None
            }),
    {
        match note {
            Some(n) => {
                let owned = match &n.user {
                    Some(u) => u.id == owner,
                    None => false,
                };
                if owned {
                    Some(n)
                } else {
                    None
                }
            },
            None => None,
        }
    }

    /// The note that a row of the join of notes with their owners describes:
    /// the owner comes along, without a password or a creation time.
    pub fn note_from_row(row: NoteRow) -> (n: Note)
        ensures
            n.id == row.id,
            n.title == row.title,
            n.description == row.description,
            n.created_at == row.created_at,
            n.user matches Some(u) && {
                &&& u.id == row.user_id
                &&& u.full_name == row.full_name
                &&& u.email == row.email
                &&& u.role == row.role
                &&& u.password is None
                &&& u.created_at is None
            },
    {
        Note {
            id: row.id,
            title: row.title,
            description: row.description,
            created_at: row.created_at,
            user: Some(
                User {
                    id: row.user_id,
                    full_name: row.full_name,
                    email: row.email,
                    password: None,
                    created_at: None,
                    role: row.role,
                },
            ),
        }
    }
}

} // verus!
