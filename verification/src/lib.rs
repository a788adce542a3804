//! A verified core for a small HTTP CRUD service over a `users` table.
//!
//! The library holds the service's logic: the record model, the JSON
//! rendering of every response body, the SQL commands each operation
//! issues, and the mapping from database outcomes to HTTP replies.
//! The surrounding binary does the actual HTTP and database I/O and
//! hands this crate plain values: text arrives and leaves as UTF-8
//! bytes, times as seconds since the Unix epoch.

pub mod handlers;
pub mod json;
pub mod user;
