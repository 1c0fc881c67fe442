//! A model of the managed table and of the single-statement operations the
//! service issues against it.
//!
//! The database engine itself is an external collaborator; this module states
//! what each statement does to the table, so that the handlers' contracts can
//! speak about it. The model keeps the table's invariants: the identity key
//! uniquely identifies a row, every row's creation time is at or before its
//! latest update, and the database's clock never runs backwards.

use vstd::prelude::*;

use crate::record::MyTable;
use crate::record::MyTableInsert;
use crate::record::MyTableUpdate;
use crate::record::RecV;

verus! {

/// The rows of a vector, as mathematical values.
pub open spec fn rows_view(v: Vec<MyTable>) -> Seq<RecV> {
    v@.map_values(|r: MyTable| r@)
}

/// The state of the managed table: its rows, the next identity value the
/// database will assign, and the database clock (the largest tick handed out
/// so far).
#[derive(Debug)]
pub struct Table {
    pub rows: Vec<MyTable>,
    pub next_id: i64,
    pub clock: i64,
}

impl View for Table {
    type V = Seq<RecV>;

    open spec fn view(&self) -> Seq<RecV> {
        rows_view(self.rows)
    }
}

impl Table {
    /// The table's invariants: identity keys are unique and below the next
    /// value to assign, timestamps are ordered within each row and bounded by
    /// the clock.
    pub open spec fn wf(self) -> bool {
        &&& 1 <= self.next_id
        &&& 0 <= self.clock
        &&& forall|i: int, j: int|
            0 <= i < self@.len() && 0 <= j < self@.len() && i != j ==> #[trigger] self@[i].nomer
                != #[trigger] self@[j].nomer
        &&& forall|i: int| 0 <= i < self@.len() ==> (#[trigger] self@[i]).time_ordered()
        &&& forall|i: int| 0 <= i < self@.len() ==> (#[trigger] self@[i]).times_le(self.clock as int)
        &&& forall|i: int| 0 <= i < self@.len() ==> #[trigger] self@[i].nomer < self.next_id
    }

    /// An empty table, as the database would create it: no rows, identity
    /// starting at one.
    pub fn new() -> (t: Table)
        ensures
            t.wf(),
            t@.len() == 0,
            t.next_id == 1,
            t.clock == 0,
    {
        Table { rows: Vec::new(), next_id: 1, clock: 0 }
    }

    /// The unfiltered select of all rows: returns the full sequence of rows in
    /// table order. An empty table yields an empty sequence, not an error.
    pub fn list(&self) -> (r: Vec<MyTable>)
        ensures
            rows_view(r) == self@,
    {
        let mut out: Vec<MyTable> = Vec::new();
        let mut i: usize = 0;
        while i < self.rows.len()
            invariant
                i <= self.rows.len(),
                out@.len() == i as int,
                rows_view(out) =~= self@.subrange(0, i as int),
            decreases self.rows.len() - i,
        {
            out.push(self.rows[i].clone());
            proof {
                assert(rows_view(out) =~= self@.subrange(0, i as int + 1));
            }
            i = i + 1;
        }
        proof {
            assert(rows_view(out) =~= self@);
        }
        out
    }

    /// The select filtered by the identity key: returns the matching rows.
    /// Zero matches yield an empty sequence with success status, not an
    /// error — the table's uniqueness invariant bounds the result at one row.
    pub fn get(&self, nomer: i64) -> (r: Vec<MyTable>)
        requires
            self.wf(),
        ensures
            (forall|i: int| 0 <= i < self@.len() ==> #[trigger] self@[i].nomer != nomer as int)
                ==> r@.len() == 0,
            forall|i: int|
                0 <= i < self@.len() && #[trigger] self@[i].nomer == nomer as int ==> rows_view(r)
                    == seq![self@[i]],
    {
        let mut i: usize = 0;
        while i < self.rows.len()
            invariant
                self.wf(),
                i <= self.rows.len(),
                forall|j: int| 0 <= j < i as int ==> #[trigger] self@[j].nomer != nomer as int,
            decreases self.rows.len() - i,
        {
            if self.rows[i].nomer == nomer {
                let mut out: Vec<MyTable> = Vec::new();
                out.push(self.rows[i].clone());
                proof {
                    assert(self@[i as int].nomer == nomer as int);
                    assert(rows_view(out) =~= seq![self@[i as int]]);
                    assert forall|k: int|
                        0 <= k < self@.len() && #[trigger] self@[k].nomer
                            == nomer as int implies rows_view(out) == seq![self@[k]] by {
                        assert(k == i as int);
                    }
                }
                return out;
            }
            i = i + 1;
        }
        Vec::new()
    }

    /// The insert of both payload fields: the database assigns the next
    /// identity value as the new row's key and stamps both timestamps with the
    /// current tick.
    pub fn insert(&mut self, data: MyTableInsert, now: i64) -> (id: i64)
        requires
            old(self).wf(),
            old(self).clock <= now,
            old(self).next_id < i64::MAX,
        ensures
            final(self).wf(),
            id == old(self).next_id,
            final(self)@ == old(self)@.push(
                new_rec(id as int, data.nama@, data.alamat@, now as int),
            ),
            final(self).next_id == old(self).next_id + 1,
            final(self).clock == now,
            forall|i: int| 0 <= i < old(self)@.len() ==> #[trigger] old(self)@[i].nomer != id as int,
    {
        let id = self.next_id;
        let row = MyTable {
            nomer: id,
            nama: data.nama.clone(),
            alamat: data.alamat.clone(),
            created_at: Some(now),
            updated_at: Some(now),
        };
        self.rows.push(row);
        self.next_id = id + 1;
        self.clock = now;
        proof {
            assert(self@ =~= old(self)@.push(
                new_rec(id as int, data.nama@, data.alamat@, now as int),
            ));
        }
        id
    }

    /// The update setting both fields where the identity key matches: zero
    /// rows are changed silently when no record has that key. A matched row
    /// keeps its key and creation time; its latest-update timestamp is
    /// refreshed to the current tick.
    pub fn update(&mut self, nomer: i64, data: MyTableUpdate, now: i64) -> (updated: bool)
        requires
            old(self).wf(),
            old(self).clock <= now,
        ensures
            final(self).wf(),
            updated_rows(old(self)@, final(self)@, nomer as int, data.nama@, data.alamat@, now as int),
            final(self).next_id == old(self).next_id,
            final(self).clock == now,
            updated == exists|i: int|
                0 <= i < old(self)@.len() && #[trigger] old(self)@[i].nomer == nomer as int,
    {
        let mut i: usize = 0;
        let mut updated = false;
        while i < self.rows.len()
            invariant
                old(self).wf(),
                self.next_id == old(self).next_id,
                self.clock == old(self).clock,
                i <= self.rows.len(),
                self@.len() == old(self)@.len(),
                forall|j: int|
                    i as int <= j < old(self)@.len() ==> #[trigger] self@[j] == old(self)@[j],
                forall|j: int|
                    0 <= j < i as int && #[trigger] old(self)@[j].nomer != nomer as int ==> self@[j]
                        == old(self)@[j],
                forall|j: int|
                    0 <= j < i as int && #[trigger] old(self)@[j].nomer == nomer as int ==> self@[j]
                        == (RecV {
                        nomer: nomer as int,
                        nama: data.nama@,
                        alamat: data.alamat@,
                        created_at: old(self)@[j].created_at,
                        updated_at: Some(now as int),
                    }),
                updated == exists|j: int|
                    0 <= j < i as int && #[trigger] old(self)@[j].nomer == nomer as int,
            decreases self.rows.len() - i,
        {
            let ghost pre = self@;
            proof {
                assert(self@[i as int] == old(self)@[i as int]);
            }
            if self.rows[i].nomer == nomer {
                proof {
                    assert(old(self)@[i as int].nomer == nomer as int);
                }
                let row = MyTable {
                    nomer: nomer,
                    nama: data.nama.clone(),
                    alamat: data.alamat.clone(),
                    created_at: self.rows[i].created_at,
                    updated_at: Some(now),
                };
                let ghost rv = row@;
                self.rows[i] = row;
                updated = true;
                proof {
                    assert(self@ =~= pre.update(i as int, rv));
                }
            } else {
                proof {
                    assert(old(self)@[i as int].nomer != nomer as int);
                }
            }
            i = i + 1;
        }
        self.clock = now;
        proof {
            assert forall|j: int| 0 <= j < self@.len() implies (#[trigger] self@[j]).times_le(
                now as int,
            ) && self@[j].time_ordered() && self@[j].nomer < self.next_id by {
                if old(self)@[j].nomer == nomer as int {
                } else {
                    assert(self@[j] == old(self)@[j]);
                }
            }
            assert forall|a: int, b: int|
                0 <= a < self@.len() && 0 <= b < self@.len() && a != b implies #[trigger] self@[a].nomer
                != #[trigger] self@[b].nomer by {
                assert(old(self)@[a].nomer != old(self)@[b].nomer);
            }
        }
        updated
    }

    /// The delete where the identity key matches: by the uniqueness invariant
    /// at most one row is removed, and removing zero rows is not an error. The
    /// statement reports no rows, so the success payload is the empty
    /// sequence.
    pub fn delete(&mut self, nomer: i64) -> (r: Vec<MyTable>)
        requires
            old(self).wf(),
        ensures
            final(self).wf(),
            r@.len() == 0,
            final(self).next_id == old(self).next_id,
            final(self).clock == old(self).clock,
            deleted_rows(old(self)@, final(self)@, nomer as int),
    {
        let mut i: usize = 0;
        while i < self.rows.len()
            invariant
                self.wf(),
                self == old(self),
                i <= self.rows.len(),
                forall|j: int| 0 <= j < i as int ==> #[trigger] self@[j].nomer != nomer as int,
            decreases self.rows.len() - i,
        {
            if self.rows[i].nomer == nomer {
                proof {
                    assert(old(self)@[i as int].nomer == nomer as int);
                    old(self)@.remove_ensures(i as int);
                }
                self.rows.remove(i);
                proof {
                    assert(self@ =~= old(self)@.remove(i as int));
                    lemma_delete_removes_the_only_match(old(self)@, i as int, nomer as int);
                    assert forall|k: int|
                        0 <= k < old(self)@.len() && #[trigger] old(self)@[k].nomer
                            == nomer as int implies self@ == old(self)@.remove(k) by {
                        assert(k == i as int);
                    }
                }
                return Vec::new();
            }
            i = i + 1;
        }
        Vec::new()
    }
}

/// After a create, a list shows exactly the rows that were there before plus
/// one additional row whose name and address match the payload and whose
/// creation and latest-update timestamps are both present and ordered.
pub proof fn lemma_create_then_list(pre: Table, post: Table, data: MyTableInsert, now: i64)
    requires
        pre.wf(),
        post@ == pre@.push(new_rec(pre.next_id as int, data.nama@, data.alamat@, now as int)),
    ensures
        post@.len() == pre@.len() + 1,
        post@.subrange(0, pre@.len() as int) == pre@,
        post@[pre@.len() as int].nama == data.nama@,
        post@[pre@.len() as int].alamat == data.alamat@,
        post@[pre@.len() as int].created_at == Some(now as int),
        post@[pre@.len() as int].updated_at == Some(now as int),
        post@[pre@.len() as int].time_ordered(),
{
    assert(post@.subrange(0, pre@.len() as int) =~= pre@);
}

/// Server-assigned identity values never collide: an insert hands out the
/// table's next identity value, which no existing row carries, and the next
/// value then moves strictly up — so any two inserts, however interleaved
/// their requests were, receive distinct identity values.
pub proof fn lemma_insert_ids_fresh_and_distinct(t0: Table, id1: i64, t1: Table, id2: i64)
    requires
        t0.wf(),
        id1 == t0.next_id,
        t1.next_id == t0.next_id + 1,
        id2 == t1.next_id,
    ensures
        id1 != id2,
        forall|i: int| 0 <= i < t0@.len() ==> #[trigger] t0@[i].nomer != id1 as int,
{
}

/// An update of an existing key changes that row's name and address to the new
/// values and advances its latest-update timestamp to a tick at or after the
/// one it carried before — the clock never runs backwards, and every stored
/// timestamp is at or before the clock — while its creation timestamp is
/// unchanged.
pub proof fn lemma_update_advances_updated_at(
    pre: Table,
    post: Seq<RecV>,
    nomer: int,
    nama: Seq<char>,
    alamat: Seq<char>,
    now: i64,
    i: int,
)
    requires
        pre.wf(),
        pre.clock <= now,
        updated_rows(pre@, post, nomer, nama, alamat, now as int),
        0 <= i < pre@.len(),
        pre@[i].nomer == nomer,
    ensures
        post[i].nama == nama,
        post[i].alamat == alamat,
        post[i].created_at == pre@[i].created_at,
        post[i].updated_at == Some(now as int),
        match pre@[i].updated_at {
            Some(u) => u <= now as int,
            None => true,
        },
{
}

/// Deletion by key removes at most one row: when the key occurs at one
/// position of a table whose keys are unique, removing that row leaves a table
/// one row shorter in which no row carries the key any more — so a subsequent
/// select by that key finds nothing.
pub proof fn lemma_delete_removes_the_only_match(s: Seq<RecV>, i: int, nomer: int)
    requires
        0 <= i < s.len(),
        s[i].nomer == nomer,
        forall|a: int, b: int|
            0 <= a < s.len() && 0 <= b < s.len() && a != b ==> #[trigger] s[a].nomer
                != #[trigger] s[b].nomer,
    ensures
        s.remove(i).len() == s.len() - 1,
        forall|j: int| 0 <= j < s.remove(i).len() ==> #[trigger] s.remove(i)[j].nomer != nomer,
{
    s.remove_ensures(i);
    assert forall|j: int| 0 <= j < s.remove(i).len() implies #[trigger] s.remove(i)[j].nomer
        != nomer by {
        if j < i {
            assert(s.remove(i)[j] == s[j]);
        } else {
            assert(s.remove(i)[j] == s[j + 1]);
        }
    }
}

/// The row that an insert adds: the given key and fields, both timestamps
/// stamped with the same tick.
pub open spec fn new_rec(id: int, nama: Seq<char>, alamat: Seq<char>, now: int) -> RecV {
    RecV { nomer: id, nama: nama, alamat: alamat, created_at: Some(now), updated_at: Some(now) }
}

/// What the update statement does to the rows: rows whose key differs are
/// untouched; a row whose key matches keeps its key and creation time, carries
/// the payload's fields, and has its latest-update timestamp refreshed.
pub open spec fn updated_rows(
    pre: Seq<RecV>,
    post: Seq<RecV>,
    nomer: int,
    nama: Seq<char>,
    alamat: Seq<char>,
    now: int,
) -> bool {
    &&& post.len() == pre.len()
    &&& forall|i: int|
        0 <= i < pre.len() && #[trigger] pre[i].nomer != nomer ==> post[i] == pre[i]
    &&& forall|i: int|
        0 <= i < pre.len() && #[trigger] pre[i].nomer == nomer ==> post[i] == (RecV {
            nomer: nomer,
            nama: nama,
            alamat: alamat,
            created_at: pre[i].created_at,
            updated_at: Some(now),
        })
}

/// What the delete statement does to the rows: with no matching key the rows
/// stay as they are; with a matching key exactly that one row goes, and no row
/// with the key remains.
pub open spec fn deleted_rows(pre: Seq<RecV>, post: Seq<RecV>, nomer: int) -> bool {
    &&& (forall|i: int| 0 <= i < pre.len() ==> #[trigger] pre[i].nomer != nomer) ==> post == pre
    &&& forall|i: int|
        0 <= i < pre.len() && #[trigger] pre[i].nomer == nomer ==> post == pre.remove(i)
    &&& pre.len() <= post.len() + 1
    &&& forall|j: int| 0 <= j < post.len() ==> #[trigger] post[j].nomer != nomer
}

} // verus!
