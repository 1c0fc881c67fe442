//! The request handlers: one function per route, each mapping the state of
//! the database and the request's inputs to the HTTP response.
//!
//! Every data operation issues exactly one statement and is stateless across
//! requests. A storage failure of any kind — connection loss, constraint
//! violation, timeout — is surfaced unchanged as a server error whose body
//! carries the underlying message; success carries the rows or a fixed
//! confirmation. The handlers never distinguish "no such key" from an empty
//! result: that is the service's deliberate contract.

use vstd::prelude::*;
use vstd::string::StringExecFns;

use crate::record::MyTable;
use crate::record::MyTableInsert;
use crate::record::MyTableUpdate;
use crate::table::Table;
use crate::table::deleted_rows;
use crate::table::new_rec;
use crate::table::rows_view;
use crate::table::updated_rows;

verus! {

/// The health payload: a fixed status and message.
#[derive(Debug)]
pub struct HealthResponse {
    pub status: String,
    pub message: String,
}

/// A fixed confirmation payload.
#[derive(Debug)]
pub struct MsgResponse {
    pub msg: String,
}

/// The database as one request finds it: reachable, with the table in some
/// state, or unreachable, with the message the storage layer reports. Every
/// storage failure looks the same to the service, so one message stands for
/// them all.
#[derive(Debug)]
pub enum Db {
    Up(Table),
    Down(String),
}

impl Db {
    /// A reachable database holds a well-formed table.
    pub open spec fn wf(self) -> bool {
        match self {
            Db::Up(t) => t.wf(),
            Db::Down(_) => true,
        }
    }
}

/// The body of every storage-error response: the underlying message behind a
/// fixed prefix.
pub open spec fn error_body(err: Seq<char>) -> Seq<char> {
    "Error is: "@ + err
}

/// The server-error mapping: any storage failure is propagated unchanged as a
/// 500 whose body carries the underlying message. The fixed prefix keeps the
/// body non-empty even when the storage layer reports nothing.
pub fn error_response(err: String) -> (r: (u16, String))
    ensures
        r.0 == 500,
        r.1@ == error_body(err@),
        r.1@.len() > 0,
{
    proof {
        reveal_strlit("Error is: ");
    }
    let body = "Error is: ".to_string().concat(err.as_str());
    (500, body)
}

/// The fixed confirmation of a create.
pub fn insert_success() -> (r: MsgResponse)
    ensures
        r.msg@ == "Data inserted successfully"@,
{
    MsgResponse { msg: "Data inserted successfully".to_string() }
}

/// The fixed confirmation of an update.
pub fn update_success() -> (r: MsgResponse)
    ensures
        r.msg@ == "Data updated successfully"@,
{
    MsgResponse { msg: "Data updated successfully".to_string() }
}

/// The health check: no input, no database access, no side effects. It always
/// returns the same success payload, whatever state the database is in, and it
/// never fails.
pub fn health_checker_handler() -> (r: HealthResponse)
    ensures
        r.status@ == "success"@,
        r.message@ == "Simple CRUD API with Rust, SQLX, MySQL,and Axum"@,
{
    HealthResponse {
        status: "success".to_string(),
        message: "Simple CRUD API with Rust, SQLX, MySQL,and Axum".to_string(),
    }
}

/// The list route: on a reachable database, the full sequence of rows exactly
/// as the table holds them — an empty table yields an empty sequence, not an
/// error. On an unreachable database, a 500 carrying the storage message.
pub fn getall_mytable(db: &Db) -> (r: Result<Vec<MyTable>, (u16, String)>)
    requires
        db.wf(),
    ensures
        *db matches Db::Up(t) ==> (r matches Ok(rows) && rows_view(rows) == t@),
        *db matches Db::Down(m) ==> (r matches Err(e) && e.0 == 500 && e.1@ == error_body(m@)
            && e.1@.len() > 0),
{
    match db {
        Db::Up(table) => Ok(table.list()),
        Db::Down(msg) => Err(error_response(msg.clone())),
    }
}

/// The read-by-key route: on a reachable database, the rows whose key matches
/// — the empty sequence with success status when no row does, never a
/// not-found error. On an unreachable database, a 500 carrying the storage
/// message.
pub fn get_mytable(db: &Db, nomer: i64) -> (r: Result<Vec<MyTable>, (u16, String)>)
    requires
        db.wf(),
    ensures
        *db matches Db::Up(t) ==> (r matches Ok(rows) && {
            &&& (forall|i: int| 0 <= i < t@.len() ==> #[trigger] t@[i].nomer != nomer as int)
                ==> rows@.len() == 0
            &&& forall|i: int|
                0 <= i < t@.len() && #[trigger] t@[i].nomer == nomer as int ==> rows_view(rows)
                    == seq![t@[i]]
        }),
        *db matches Db::Down(m) ==> (r matches Err(e) && e.0 == 500 && e.1@ == error_body(m@)
            && e.1@.len() > 0),
{
    match db {
        Db::Up(table) => Ok(table.get(nomer)),
        Db::Down(msg) => Err(error_response(msg.clone())),
    }
}

/// The create route: on a reachable database, the insert appends one row — the
/// next identity value as its key, the payload's two fields, both timestamps
/// stamped with the current tick — and the response is the fixed confirmation;
/// the new key is not returned. On an unreachable database, the table state
/// stands and a 500 carries the storage message.
pub fn create_mytable(db: Db, my_table: MyTableInsert, now: i64) -> (r: (
    Db,
    Result<MsgResponse, (u16, String)>,
))
    requires
        db.wf(),
        db matches Db::Up(t) ==> t.clock <= now && t.next_id < i64::MAX,
    ensures
        r.0.wf(),
        db matches Db::Up(t) ==> (r.0 matches Db::Up(t2) && {
            &&& t2@ == t@.push(new_rec(t.next_id as int, my_table.nama@, my_table.alamat@, now as int))
            &&& t2.next_id == t.next_id + 1
            &&& t2.clock == now
            &&& (r.1 matches Ok(m) && m.msg@ == "Data inserted successfully"@)
        }),
        db matches Db::Down(m) ==> (r.0 == db && (r.1 matches Err(e) && e.0 == 500 && e.1@
            == error_body(m@) && e.1@.len() > 0)),
{
    match db {
        Db::Up(mut table) => {
            let _nomer = table.insert(my_table, now);
            (Db::Up(table), Ok(insert_success()))
        },
        Db::Down(msg) => {
            let e = error_response(msg.clone());
            (Db::Down(msg), Err(e))
        },
    }
}

/// The update route: on a reachable database, both fields are set on the row
/// whose key matches and its latest-update timestamp is refreshed; zero rows
/// change silently when no key matches, and the response is the fixed
/// confirmation either way. On an unreachable database, the table state stands
/// and a 500 carries the storage message.
pub fn update_mytable(db: Db, nomer: i64, my_table: MyTableUpdate, now: i64) -> (r: (
    Db,
    Result<MsgResponse, (u16, String)>,
))
    requires
        db.wf(),
        db matches Db::Up(t) ==> t.clock <= now,
    ensures
        r.0.wf(),
        db matches Db::Up(t) ==> (r.0 matches Db::Up(t2) && {
            &&& updated_rows(t@, t2@, nomer as int, my_table.nama@, my_table.alamat@, now as int)
            &&& t2.next_id == t.next_id
            &&& t2.clock == now
            &&& (r.1 matches Ok(m) && m.msg@ == "Data updated successfully"@)
        }),
        db matches Db::Down(m) ==> (r.0 == db && (r.1 matches Err(e) && e.0 == 500 && e.1@
            == error_body(m@) && e.1@.len() > 0)),
{
    match db {
        Db::Up(mut table) => {
            let _updated = table.update(nomer, my_table, now);
            (Db::Up(table), Ok(update_success()))
        },
        Db::Down(msg) => {
            let e = error_response(msg.clone());
            (Db::Down(msg), Err(e))
        },
    }
}

/// The delete route: on a reachable database, the row whose key matches — at
/// most one, by the uniqueness invariant — is removed, silently when none
/// matches, and the success payload is the empty sequence the statement
/// reports. On an unreachable database, the table state stands and a 500
/// carries the storage message.
pub fn delete_mytable(db: Db, nomer: i64) -> (r: (Db, Result<Vec<MyTable>, (u16, String)>))
    requires
        db.wf(),
    ensures
        r.0.wf(),
        db matches Db::Up(t) ==> (r.0 matches Db::Up(t2) && {
            &&& deleted_rows(t@, t2@, nomer as int)
            &&& t2.next_id == t.next_id
            &&& t2.clock == t.clock
            &&& (r.1 matches Ok(rows) && rows@.len() == 0)
        }),
        db matches Db::Down(m) ==> (r.0 == db && (r.1 matches Err(e) && e.0 == 500 && e.1@
            == error_body(m@) && e.1@.len() > 0)),
{
    match db {
        Db::Up(mut table) => {
            let rows = table.delete(nomer);
            (Db::Up(table), Ok(rows))
        },
        Db::Down(msg) => {
            let e = error_response(msg.clone());
            (Db::Down(msg), Err(e))
        },
    }
}

} // verus!
