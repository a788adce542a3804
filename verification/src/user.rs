//! The user record and its construction.
//!
//! Text is held as UTF-8 bytes throughout the library, so the
//! contracts can speak of exact byte sequences.  A record carries the
//! four columns the service actually reads and writes: `id`,
//! `username`, `email`, `created_at` (Unix seconds).

use vstd::prelude::*;

verus! {

/// One row of the `users` table, as the service projects it.
pub struct User {
    /// Canonical hyphenated UUID text, as UTF-8 bytes.
    pub id: Vec<u8>,
    /// Caller-supplied name, as UTF-8 bytes.
    pub username: Vec<u8>,
    /// Caller-supplied address, as UTF-8 bytes.
    pub email: Vec<u8>,
    /// Creation time, seconds since the Unix epoch.
    pub created_at: i64,
}

/// The body of a create request: the two caller-supplied fields.
pub struct UserRequest {
    pub username: Vec<u8>,
    pub email: Vec<u8>,
}

/// `b` is an ASCII lower-case hex digit.
pub open spec fn is_hex_lower(b: u8) -> bool {
    (48 <= b && b <= 57) || (97 <= b && b <= 102)
}

/// `s` is the canonical hyphenated text of a version-4 UUID:
/// 36 bytes, lower-case hex in five groups of 8-4-4-4-12 separated
/// by hyphens, version nibble `4` and an RFC variant nibble.
pub open spec fn is_uuid_text(s: Seq<u8>) -> bool {
    &&& s.len() == 36
    &&& forall|i: int|
        0 <= i < 36 ==> if i == 8 || i == 13 || i == 18 || i == 23 {
            s[i] == 45
        } else {
            is_hex_lower(s[i])
        }
    &&& s[14] == 52
    &&& (s[19] == 56 || s[19] == 57 || s[19] == 97 || s[19] == 98)
}

/// Relies on uuid::Uuid::new_v4 and the hyphenated lower-case text
/// its Display form writes: 36 bytes of lower-case hex in groups of
/// 8-4-4-4-12, with the version nibble forced to 4 and the variant
/// nibble to one of 8, 9, a, b.
#[verifier::external_body]
fn fresh_id() -> (r: Vec<u8>)
    ensures
        is_uuid_text(r@),
{
    uuid::Uuid::new_v4().to_string().into_bytes()
}

/// Relies on chrono::Utc::now and DateTime::timestamp: the current
/// wall-clock time as whole seconds since the Unix epoch.  Nothing
/// is promised of the value: it is a clock reading.
#[verifier::external_body]
fn unix_now() -> (r: i64) {
    chrono::Utc::now().timestamp()
}

impl User {
    /// Assembles a record from its four parts, unchanged.
    pub fn from_parts(id: Vec<u8>, username: Vec<u8>, email: Vec<u8>, created_at: i64) -> (u: User)
        ensures
            u.id == id,
            u.username == username,
            u.email == email,
            u.created_at == created_at,
    {
        User { id, username, email, created_at }
    }

    /// A fresh record for the given caller-supplied fields: the id is
    /// a newly generated version-4 UUID in canonical text form, the
    /// creation time is the current clock reading.
    pub fn new(username: Vec<u8>, email: Vec<u8>) -> (u: User)
        ensures
            is_uuid_text(u.id@),
            u.username == username,
            u.email == email,
    {
        let id = fresh_id();
        let created_at = unix_now();
        User::from_parts(id, username, email, created_at)
    }
}

} // verus!
