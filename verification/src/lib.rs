//! Users, notes and access rules of a small notes service, with their
//! contracts proved by Verus.

pub mod config;
pub mod db;
pub mod decimal;
pub mod entities;
pub mod password;
pub mod policies;
pub mod routes;
pub mod text;
