//! The four operations of the user resource.
//!
//! Each operation is split into the command it issues against
//! storage and the reply it makes from the storage outcome.  The
//! surrounding binary executes the command over its database client
//! and hands the outcome back as plain values; the contracts here pin
//! the SQL text, the bound parameters, the HTTP status and the exact
//! response body of every path.
//!
//! The error mapping reproduces the service's conventions: list and
//! fetch collapse every database error to 404 with a fixed message,
//! create answers 500 with the error text embedded, and delete is a
//! stub that never touches storage and always answers 204.

use vstd::prelude::*;
use crate::json::{
    append_dec_i64, append_json_string, append_user_json, spec_dec_int, spec_json_string,
    spec_user_json, spec_users_json, users_json,
};
use crate::user::{is_uuid_text, User, UserRequest};

verus! {

/// One value bound to a placeholder of a SQL statement.
pub enum Param {
    /// A text parameter, as UTF-8 bytes.
    Text(Vec<u8>),
    /// A timestamp parameter, seconds since the Unix epoch.
    Time(i64),
}

/// How many rows the statement is expected to yield.
pub enum Fetch {
    /// Fetch every matching row.
    All,
    /// Fetch exactly one row.
    One,
}

/// A parameterized SQL statement for the storage layer to execute.
pub struct DbCommand {
    pub sql: &'static str,
    pub params: Vec<Param>,
    pub fetch: Fetch,
}

/// What the library learns of a failed storage call: its message
/// text, as UTF-8 bytes.  Every cause is folded into this one shape.
pub struct DbError {
    pub message: Vec<u8>,
}

/// An HTTP reply: status code, content type, body bytes.
pub struct Reply {
    pub status: u16,
    pub content_type: &'static str,
    pub body: Vec<u8>,
}

/// `No users found`
pub open spec fn msg_no_users() -> Seq<u8> {
    seq![
        78u8, 111u8, 32u8, 117u8, 115u8, 101u8, 114u8, 115u8, 32u8, 102u8, 111u8, 117u8, 110u8,
        100u8,
    ]
}

/// `No user found`
pub open spec fn msg_no_user() -> Seq<u8> {
    seq![78u8, 111u8, 32u8, 117u8, 115u8, 101u8, 114u8, 32u8, 102u8, 111u8, 117u8, 110u8, 100u8]
}

/// `Failed to create user: `
pub open spec fn msg_create_failed() -> Seq<u8> {
    seq![
        70u8, 97u8, 105u8, 108u8, 101u8, 100u8, 32u8, 116u8, 111u8, 32u8, 99u8, 114u8, 101u8,
        97u8, 116u8, 101u8, 32u8, 117u8, 115u8, 101u8, 114u8, 58u8, 32u8,
    ]
}

/// The diagnostic line the create path logs before it writes:
/// the generated id and time with the caller-supplied fields.
pub open spec fn spec_log_line(
    id: Seq<u8>,
    username: Seq<u8>,
    email: Seq<u8>,
    created_at: int,
) -> Seq<u8> {
    seq![105u8, 100u8, 58u8, 32u8] + id + seq![
        44u8, 32u8, 117u8, 115u8, 101u8, 114u8, 110u8, 97u8, 109u8, 101u8, 58u8, 32u8,
    ] + username + seq![44u8, 32u8, 101u8, 109u8, 97u8, 105u8, 108u8, 58u8, 32u8] + email + seq![
        44u8, 32u8, 99u8, 114u8, 101u8, 97u8, 116u8, 101u8, 100u8, 95u8, 97u8, 116u8, 58u8, 32u8,
    ] + spec_dec_int(created_at)
}

/// The listing query: every row, the four projected columns, no
/// filter and no order.
pub fn list_command() -> (c: DbCommand)
    ensures
        c.sql@ == "SELECT id, username, email, created_at FROM users"@,
        c.params@.len() == 0,
        c.fetch is All,
{
    DbCommand { sql: "SELECT id, username, email, created_at FROM users", params: Vec::new(), fetch: Fetch::All }
}

/// The reply of the listing: 200 with the JSON array of the rows on
/// success, 404 with the fixed message on any storage error.
pub fn list(outcome: Result<Vec<User>, DbError>) -> (r: Reply)
    ensures
        r.content_type@ == "application/json"@,
        match outcome {
            Result::Ok(rows) => r.status == 200 && r.body@ == spec_users_json(rows@),
            Result::Err(_) => r.status == 404 && r.body@ == spec_json_string(msg_no_users()),
        },
{
    match outcome {
        Result::Ok(rows) => Reply {
            status: 200,
            content_type: "application/json",
            body: users_json(&rows),
        },
        Result::Err(_) => {
            let lit: [u8; 14] = [
                78u8, 111u8, 32u8, 117u8, 115u8, 101u8, 114u8, 115u8, 32u8, 102u8, 111u8, 117u8,
                110u8, 100u8,
            ];
            let mut text: Vec<u8> = Vec::new();
            text.extend_from_slice(lit.as_slice());
            assert(text@ =~= msg_no_users());
            let mut body: Vec<u8> = Vec::new();
            append_json_string(&mut body, &text);
            Reply { status: 404, content_type: "application/json", body }
        },
    }
}

/// The insert for a create request, binding the generated id and
/// time with the caller-supplied fields, and expecting the row back.
pub fn create_command(req: &UserRequest, id: &Vec<u8>, created_at: i64) -> (c: DbCommand)
    ensures
        c.sql@ == "INSERT INTO users (id, username, email, created_at) VALUES ($1, $2, $3, $4) RETURNING id, username, email, created_at"@,
        c.params@.len() == 4,
        c.params@[0] matches Param::Text(t) && t@ == id@,
        c.params@[1] matches Param::Text(t) && t@ == req.username@,
        c.params@[2] matches Param::Text(t) && t@ == req.email@,
        c.params@[3] matches Param::Time(t) && t == created_at,
        c.fetch is One,
{
    let mut params: Vec<Param> = Vec::new();
    params.push(Param::Text(id.clone()));
    params.push(Param::Text(req.username.clone()));
    params.push(Param::Text(req.email.clone()));
    params.push(Param::Time(created_at));
    DbCommand {
        sql: "INSERT INTO users (id, username, email, created_at) VALUES ($1, $2, $3, $4) RETURNING id, username, email, created_at",
        params,
        fetch: Fetch::One,
    }
}

/// Everything the create path decides before storage is involved:
/// the freshly generated id and time, the diagnostic line to log,
/// and the insert to run.
pub struct CreatePlan {
    pub id: Vec<u8>,
    pub created_at: i64,
    pub log_line: Vec<u8>,
    pub command: DbCommand,
}

/// Starts a create: generates the id and the creation time, and
/// builds the diagnostic line and the insert command from them.
pub fn create_begin(req: &UserRequest) -> (p: CreatePlan)
    ensures
        is_uuid_text(p.id@),
        p.log_line@ == spec_log_line(p.id@, req.username@, req.email@, p.created_at as int),
        p.command.sql@ == "INSERT INTO users (id, username, email, created_at) VALUES ($1, $2, $3, $4) RETURNING id, username, email, created_at"@,
        p.command.params@.len() == 4,
        p.command.params@[0] matches Param::Text(t) && t@ == p.id@,
        p.command.params@[1] matches Param::Text(t) && t@ == req.username@,
        p.command.params@[2] matches Param::Text(t) && t@ == req.email@,
        p.command.params@[3] matches Param::Time(t) && t == p.created_at,
        p.command.fetch is One,
{
    let user = User::new(req.username.clone(), req.email.clone());
    let id = user.id;
    let created_at = user.created_at;
    let log_line = build_log_line(&id, &req.username, &req.email, created_at);
    let command = create_command(req, &id, created_at);
    CreatePlan { id, created_at, log_line, command }
}

/// Builds the diagnostic line of the create path.
pub fn build_log_line(id: &Vec<u8>, username: &Vec<u8>, email: &Vec<u8>, created_at: i64) -> (r:
    Vec<u8>)
    ensures
        r@ == spec_log_line(id@, username@, email@, created_at as int),
{
    let mut out: Vec<u8> = Vec::new();
    let lit_id: [u8; 4] = [105u8, 100u8, 58u8, 32u8];
    out.extend_from_slice(lit_id.as_slice());
    out.extend_from_slice(id.as_slice());
    let lit_username: [u8; 12] = [
        44u8, 32u8, 117u8, 115u8, 101u8, 114u8, 110u8, 97u8, 109u8, 101u8, 58u8, 32u8,
    ];
    out.extend_from_slice(lit_username.as_slice());
    out.extend_from_slice(username.as_slice());
    let lit_email: [u8; 9] = [44u8, 32u8, 101u8, 109u8, 97u8, 105u8, 108u8, 58u8, 32u8];
    out.extend_from_slice(lit_email.as_slice());
    out.extend_from_slice(email.as_slice());
    let lit_created: [u8; 14] = [
        44u8, 32u8, 99u8, 114u8, 101u8, 97u8, 116u8, 101u8, 100u8, 95u8, 97u8, 116u8, 58u8, 32u8,
    ];
    out.extend_from_slice(lit_created.as_slice());
    append_dec_i64(&mut out, created_at);
    assert(out@ =~= spec_log_line(id@, username@, email@, created_at as int));
    out
}

/// The reply of a create: 200 with the stored record as JSON on
/// success, 500 with the error text embedded in a JSON string on any
/// storage error.
pub fn create(outcome: Result<User, DbError>) -> (r: Reply)
    ensures
        r.content_type@ == "application/json"@,
        match outcome {
            Result::Ok(u) => r.status == 200 && r.body@ == spec_user_json(u),
            Result::Err(e) => r.status == 500 && r.body@ == spec_json_string(
                msg_create_failed() + e.message@,
            ),
        },
{
    match outcome {
        Result::Ok(u) => {
            let mut body: Vec<u8> = Vec::new();
            append_user_json(&mut body, &u);
            Reply { status: 200, content_type: "application/json", body }
        },
        Result::Err(e) => {
            let lit: [u8; 23] = [
                70u8, 97u8, 105u8, 108u8, 101u8, 100u8, 32u8, 116u8, 111u8, 32u8, 99u8, 114u8,
                101u8, 97u8, 116u8, 101u8, 32u8, 117u8, 115u8, 101u8, 114u8, 58u8, 32u8,
            ];
            let mut text: Vec<u8> = Vec::new();
            text.extend_from_slice(lit.as_slice());
            let mut msg = e.message;
            text.append(&mut msg);
            assert(text@ =~= msg_create_failed() + e.message@);
            let mut body: Vec<u8> = Vec::new();
            append_json_string(&mut body, &text);
            Reply { status: 500, content_type: "application/json", body }
        },
    }
}

/// The by-id query: the same four columns, filtered on the id, still
/// fetched as a row set (the service answers an array even here).
pub fn get_command(user_id: Vec<u8>) -> (c: DbCommand)
    ensures
        c.sql@ == "SELECT id, username, email, created_at FROM users WHERE id = $1"@,
        c.params@.len() == 1,
        c.params@[0] matches Param::Text(t) && t@ == user_id@,
        c.fetch is All,
{
    let mut params: Vec<Param> = Vec::new();
    params.push(Param::Text(user_id));
    DbCommand {
        sql: "SELECT id, username, email, created_at FROM users WHERE id = $1",
        params,
        fetch: Fetch::All,
    }
}

/// The reply of a by-id fetch: 200 with the JSON array of the rows
/// on success (0 or more rows), 404 with the fixed message on any
/// storage error — a malformed id that fails in the driver lands
/// here, never on a 500.
pub fn get(outcome: Result<Vec<User>, DbError>) -> (r: Reply)
    ensures
        r.content_type@ == "application/json"@,
        match outcome {
            Result::Ok(rows) => r.status == 200 && r.body@ == spec_users_json(rows@),
            Result::Err(_) => r.status == 404 && r.body@ == spec_json_string(msg_no_user()),
        },
{
    match outcome {
        Result::Ok(rows) => Reply {
            status: 200,
            content_type: "application/json",
            body: users_json(&rows),
        },
        Result::Err(_) => {
            let lit: [u8; 13] = [
                78u8, 111u8, 32u8, 117u8, 115u8, 101u8, 114u8, 32u8, 102u8, 111u8, 117u8, 110u8,
                100u8,
            ];
            let mut text: Vec<u8> = Vec::new();
            text.extend_from_slice(lit.as_slice());
            assert(text@ =~= msg_no_user());
            let mut body: Vec<u8> = Vec::new();
            append_json_string(&mut body, &text);
            Reply { status: 404, content_type: "application/json", body }
        },
    }
}

/// The one shape of reply the delete path ever makes: 204, an empty
/// body, a declared JSON content type.
pub open spec fn spec_delete_reply(r: Reply) -> bool {
    r.status == 204 && r.body@ == Seq::<u8>::empty() && r.content_type@ == "application/json"@
}

/// The delete path is a stub: it issues no storage command at all,
/// whatever the id, so no row is ever removed by it.
pub fn delete_command(_user_id: &Vec<u8>) -> (c: Option<DbCommand>)
    ensures
        c is None,
{
    None
}

/// The reply a delete makes: whatever the id, 204 with an empty
/// body and a declared JSON content type.
pub fn delete(_user_id: &Vec<u8>) -> (r: Reply)
    ensures
        spec_delete_reply(r),
        r.status == 204,
        r.body@ == Seq::<u8>::empty(),
        r.content_type@ == "application/json"@,
{
    let body: Vec<u8> = Vec::new();
    Reply { status: 204, content_type: "application/json", body }
}

/// Deleting is observably idempotent: any two replies the delete
/// path makes — on the same id or different ones, on a first call or
/// a repeated one — agree in status, body and content type.
pub proof fn lemma_delete_idempotent(r1: Reply, r2: Reply)
    requires
        spec_delete_reply(r1),
        spec_delete_reply(r2),
    ensures
        r1.status == r2.status,
        r1.body@ == r2.body@,
        r1.content_type@ == r2.content_type@,
{
}

} // verus!
