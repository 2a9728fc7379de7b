//! The todo table as a mathematical value, and how each operation changes it.

use vstd::prelude::*;
use crate::model::{Filter, TodoRow, filter_of};

verus! {

/// The whole table: its records in order of id, and the largest id it has
/// ever handed out (0 before the first).
pub struct TableModel {
    pub rows: Seq<TodoRow>,
    pub last_id: i64,
}

/// Ids rise strictly from each record to the next.
pub open spec fn ids_ascending(rows: Seq<TodoRow>) -> bool {
    forall|i: int, j: int| 0 <= i < j < rows.len() ==> rows[i].id < rows[j].id
}

/// Every record's id lies between 1 and the given bound.
pub open spec fn ids_within(rows: Seq<TodoRow>, bound: i64) -> bool {
    forall|i: int| 0 <= i < rows.len() ==> 1 <= #[trigger] rows[i].id <= bound
}

/// The table's invariant: ids ascending, and none above the last one handed out.
pub open spec fn table_wf(m: TableModel) -> bool {
    &&& m.last_id >= 0
    &&& ids_ascending(m.rows)
    &&& ids_within(m.rows, m.last_id)
}

/// Some record of the table carries this id.
pub open spec fn has_id(rows: Seq<TodoRow>, id: i64) -> bool {
    exists|i: int| 0 <= i < rows.len() && #[trigger] rows[i].id == id
}

/// The records that satisfy `keep`, in their order.
pub open spec fn retain(rows: Seq<TodoRow>, keep: spec_fn(TodoRow) -> bool) -> Seq<TodoRow>
    decreases rows.len(),
{
    if rows.len() == 0 {
        Seq::empty()
    } else {
        let prefix = retain(rows.drop_last(), keep);
        if keep(rows.last()) {
            prefix.push(rows.last())
        } else {
            prefix
        }
    }
}

/// The records that a listing under `f` shows, in order of id.
pub open spec fn select(rows: Seq<TodoRow>, f: Filter) -> Seq<TodoRow> {
    retain(rows, |r: TodoRow| f.admits(r.completed))
}

/// The records other than the one with this id.
pub open spec fn without(rows: Seq<TodoRow>, id: i64) -> Seq<TodoRow> {
    retain(rows, |r: TodoRow| r.id != id)
}

/// The records, with the one of this id marked completed.
pub open spec fn marked_done(rows: Seq<TodoRow>, id: i64) -> Seq<TodoRow> {
    Seq::new(
        rows.len(),
        |i: int|
            if rows[i].id == id {
                TodoRow { id: rows[i].id, description: rows[i].description, completed: true }
            } else {
                rows[i]
            },
    )
}

/// The records, with the one of this id given a new description.
pub open spec fn renamed(rows: Seq<TodoRow>, id: i64, d: Seq<char>) -> Seq<TodoRow> {
    Seq::new(
        rows.len(),
        |i: int|
            if rows[i].id == id {
                TodoRow { id: rows[i].id, description: d, completed: rows[i].completed }
            } else {
                rows[i]
            },
    )
}

/// An insertion is possible while the largest id has not been handed out.
pub open spec fn can_add(m: TableModel) -> bool {
    m.last_id < i64::MAX
}

/// The id that the next insertion receives.
pub open spec fn next_id(m: TableModel) -> i64 {
    (m.last_id + 1) as i64
}

/// The table after inserting a pending record with description `d`.
pub open spec fn table_add(m: TableModel, d: Seq<char>) -> TableModel {
    TableModel {
        rows: m.rows.push(TodoRow { id: next_id(m), description: d, completed: false }),
        last_id: next_id(m),
    }
}

/// The listing for the two flags of the list command.
pub open spec fn table_list(m: TableModel, completed: bool, pending: bool) -> Seq<TodoRow> {
    select(m.rows, filter_of(completed, pending))
}

/// The table after marking the record of this id completed.
pub open spec fn table_complete(m: TableModel, id: i64) -> TableModel {
    TableModel { rows: marked_done(m.rows, id), last_id: m.last_id }
}

/// The table after removing the record of this id.
pub open spec fn table_delete(m: TableModel, id: i64) -> TableModel {
    TableModel { rows: without(m.rows, id), last_id: m.last_id }
}

/// The table after giving the record of this id the description `d`.
pub open spec fn table_update(m: TableModel, id: i64, d: Seq<char>) -> TableModel {
    TableModel { rows: renamed(m.rows, id, d), last_id: m.last_id }
}

/// Every record that `retain` keeps is a record of the input satisfying
/// `keep`, and records it keeps stay in their order.
pub proof fn lemma_retain_sub(rows: Seq<TodoRow>, keep: spec_fn(TodoRow) -> bool)
    ensures
        retain(rows, keep).len() <= rows.len(),
        forall|j: int|
            0 <= j < retain(rows, keep).len() ==> rows.contains(#[trigger] retain(rows, keep)[j])
                && keep(retain(rows, keep)[j]),
        ids_ascending(rows) ==> ids_ascending(retain(rows, keep)),
    decreases rows.len(),
{
    if rows.len() > 0 {
        let prefix = rows.drop_last();
        lemma_retain_sub(prefix, keep);
        let r = retain(rows, keep);
        let rp = retain(prefix, keep);
        assert forall|j: int| 0 <= j < r.len() implies rows.contains(#[trigger] r[j]) && keep(
            r[j],
        ) by {
            if j < rp.len() {
                assert(prefix.contains(rp[j]));
                let i = choose|i: int| 0 <= i < prefix.len() && prefix[i] == rp[j];
                assert(rows[i] == r[j]);
            } else {
                assert(rows[rows.len() - 1] == r[j]);
            }
        }
        if ids_ascending(rows) {
            assert forall|a: int, b: int| 0 <= a < b < r.len() implies r[a].id < r[b].id by {
                if b < rp.len() {
                    assert(r[a] == rp[a] && r[b] == rp[b]);
                } else {
                    assert(prefix.contains(rp[a]));
                    let i = choose|i: int| 0 <= i < prefix.len() && prefix[i] == rp[a];
                    assert(r[a] == prefix[i]);
                    assert(rows[i] == prefix[i]);
                }
            }
        }
    }
}

/// A record that satisfies `keep` is kept.
pub proof fn lemma_retain_keeps(rows: Seq<TodoRow>, keep: spec_fn(TodoRow) -> bool, i: int)
    requires
        0 <= i < rows.len(),
        keep(rows[i]),
    ensures
        retain(rows, keep).contains(rows[i]),
    decreases rows.len(),
{
    let r = retain(rows, keep);
    if i == rows.len() - 1 {
        assert(r[r.len() - 1] == rows[i]);
    } else {
        lemma_retain_keeps(rows.drop_last(), keep, i);
        let rp = retain(rows.drop_last(), keep);
        let j = choose|j: int| 0 <= j < rp.len() && rp[j] == rows.drop_last()[i];
        assert(r[j] == rows[i]);
    }
}

/// Keeping every record keeps the sequence as it is.
pub proof fn lemma_retain_all(rows: Seq<TodoRow>, keep: spec_fn(TodoRow) -> bool)
    requires
        forall|i: int| 0 <= i < rows.len() ==> keep(#[trigger] rows[i]),
    ensures
        retain(rows, keep) == rows,
    decreases rows.len(),
{
    if rows.len() > 0 {
        let prefix = rows.drop_last();
        assert forall|i: int| 0 <= i < prefix.len() implies keep(#[trigger] prefix[i]) by {
            assert(prefix[i] == rows[i]);
        }
        lemma_retain_all(prefix, keep);
        assert(prefix.push(rows.last()) =~= rows);
    }
}

} // verus!
