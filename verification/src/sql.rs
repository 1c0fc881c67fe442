//! The parameterized statement texts the service issues, one per operation.
//!
//! Every operation maps onto exactly one statement. Values are never spliced
//! into the text: the caller binds them positionally to the `?` placeholders,
//! the one placeholder style of the target driver.

use vstd::prelude::*;

verus! {

/// Statement of the list operation: the unfiltered select of all columns.
pub fn getall_query() -> (r: &'static str)
    ensures
        r@ == "SELECT * FROM mytable"@,
{
    "SELECT * FROM mytable"
}

/// Statement of the read by key: one placeholder, the identity value.
pub fn get_by_id_query() -> (r: &'static str)
    ensures
        r@ == "SELECT * FROM mytable WHERE nomer = ?"@,
{
    "SELECT * FROM mytable WHERE nomer = ?"
}

/// Statement of the create: two placeholders, name then address; the identity
/// value and the timestamps are assigned by the database.
pub fn insert_query() -> (r: &'static str)
    ensures
        r@ == "INSERT INTO mytable (nama,alamat) VALUES (?, ?)"@,
{
    "INSERT INTO mytable (nama,alamat) VALUES (?, ?)"
}

/// Statement of the update by key: three placeholders, name, address, then the
/// identity value.
pub fn update_query() -> (r: &'static str)
    ensures
        r@ == "UPDATE mytable SET nama = ?, alamat = ? WHERE nomer = ?"@,
{
    "UPDATE mytable SET nama = ?, alamat = ? WHERE nomer = ?"
}

/// Statement of the delete by key: one placeholder, the identity value.
pub fn delete_query() -> (r: &'static str)
    ensures
        r@ == "DELETE FROM mytable WHERE nomer = ?"@,
{
    "DELETE FROM mytable WHERE nomer = ?"
}

} // verus!
