//! What the repositories compute on the values they send to and read from
//! the database.

pub mod notes;
pub mod users;
