//! The record type of the managed table and the request payload types.
//!
//! A record carries an integer identity key (`nomer`), two text fields
//! (`nama`, `alamat`), and two nullable timestamps that the database manages.
//! Timestamps are held as plain integer ticks: the service never interprets
//! them beyond ordering.

use vstd::prelude::*;

verus! {

/// One row of the managed table.
#[derive(Debug)]
pub struct MyTable {
    /// Identity key, assigned by the database, immutable once created.
    pub nomer: i64,
    /// Name field.
    pub nama: String,
    /// Address field.
    pub alamat: String,
    /// Set once at insertion, never modified thereafter.
    pub created_at: Option<i64>,
    /// Set at insertion and refreshed on every update.
    pub updated_at: Option<i64>,
}

/// Payload of a create request: both fields are required, the identity key is
/// assigned by the server.
#[derive(Debug)]
pub struct MyTableInsert {
    pub nama: String,
    pub alamat: String,
}

/// Payload of an update request: both fields are required and replace the
/// stored ones.
#[derive(Debug)]
pub struct MyTableUpdate {
    pub nama: String,
    pub alamat: String,
}

/// The mathematical value of a row: what the contracts speak of.
pub struct RecV {
    pub nomer: int,
    pub nama: Seq<char>,
    pub alamat: Seq<char>,
    pub created_at: Option<int>,
    pub updated_at: Option<int>,
}

/// An `Option` timestamp as a mathematical value.
pub open spec fn opt_time(o: Option<i64>) -> Option<int> {
    match o {
        Some(t) => Some(t as int),
        None => None,
    }
}

impl View for MyTable {
    type V = RecV;

    open spec fn view(&self) -> RecV {
        RecV {
            nomer: self.nomer as int,
            nama: self.nama@,
            alamat: self.alamat@,
            created_at: opt_time(self.created_at),
            updated_at: opt_time(self.updated_at),
        }
    }
}

impl RecV {
    /// Both timestamps, where present, are ordered: creation never comes after
    /// the latest update.
    pub open spec fn time_ordered(self) -> bool {
        match (self.created_at, self.updated_at) {
            (Some(c), Some(u)) => c <= u,
            _ => true,
        }
    }

    /// Every timestamp of the row is at or before `t`.
    pub open spec fn times_le(self, t: int) -> bool {
        &&& match self.created_at {
            Some(c) => c <= t,
            None => true,
        }
        &&& match self.updated_at {
            Some(u) => u <= t,
            None => true,
        }
    }
}

impl Clone for MyTable {
    /// A clone is the same row, field for field.
    fn clone(&self) -> (r: Self)
        ensures
            r@ == self@,
    {
        MyTable {
            nomer: self.nomer,
            nama: self.nama.clone(),
            alamat: self.alamat.clone(),
            created_at: self.created_at,
            updated_at: self.updated_at,
        }
    }
}

} // verus!
