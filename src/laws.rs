//! What holds across operations on the todo table, stated of the table
//! model that `TodoStore` keeps in memory. The SQLite-backed operations
//! send the statements that stand for these operations, but what SQLite does
//! with them lies outside the proofs, so these laws are not proved of that
//! path.

use vstd::prelude::*;
use crate::model::{Filter, TodoRow};
use crate::table::{
    TableModel, can_add, has_id, lemma_retain_all, lemma_retain_keeps, lemma_retain_sub,
    next_id, select, table_add, table_complete, table_delete, table_list,
    table_update, table_wf,
};

verus! {

/// An unfiltered listing shows every record of the table.
pub proof fn lemma_list_all_is_table(m: TableModel)
    ensures
        table_list(m, false, false) == m.rows,
        table_list(m, true, true) == m.rows,
{
    let f = Filter::All;
    lemma_retain_all(m.rows, |r: TodoRow| f.admits(r.completed));
}

/// Adding `d` and then listing without filters shows what was shown before
/// and one more record at the end: pending, with description `d`, under an
/// id that no record had before.
pub proof fn lemma_add_then_list(m: TableModel, d: Seq<char>)
    requires
        table_wf(m),
        can_add(m),
    ensures
        table_wf(table_add(m, d)),
        table_list(table_add(m, d), false, false) == table_list(m, false, false).push(
            TodoRow { id: next_id(m), description: d, completed: false },
        ),
        !has_id(m.rows, next_id(m)),
{
    lemma_list_all_is_table(m);
    lemma_list_all_is_table(table_add(m, d));
    let n = table_add(m, d);
    assert forall|i: int| 0 <= i < n.rows.len() implies 1 <= #[trigger] n.rows[i].id
        <= n.last_id by {
        if i < m.rows.len() {
            assert(n.rows[i] == m.rows[i]);
        }
    }
}

/// Two successive additions hand out strictly increasing ids.
pub proof fn lemma_ids_increase(m: TableModel, d1: Seq<char>)
    requires
        table_wf(m),
        can_add(m),
        can_add(table_add(m, d1)),
    ensures
        next_id(m) < next_id(table_add(m, d1)),
{
}

/// After a record is deleted, the id that the next addition hands out is
/// above the deleted one: ids are not reused.
pub proof fn lemma_no_reuse_after_delete(m: TableModel, id: i64)
    requires
        table_wf(m),
        has_id(m.rows, id),
    ensures
        can_add(table_delete(m, id)) == can_add(m),
        can_add(m) ==> id < next_id(table_delete(m, id)),
{
}

/// Completing an existing record twice finds it both times, leaves it
/// completed, and the second time changes nothing.
pub proof fn lemma_complete_idempotent(m: TableModel, id: i64)
    requires
        table_wf(m),
        has_id(m.rows, id),
    ensures
        has_id(table_complete(m, id).rows, id),
        table_complete(table_complete(m, id), id) == table_complete(m, id),
        forall|i: int|
            0 <= i < table_complete(m, id).rows.len() && #[trigger] table_complete(
                m,
                id,
            ).rows[i].id == id ==> table_complete(m, id).rows[i].completed,
{
    let once = table_complete(m, id);
    let i = choose|i: int| 0 <= i < m.rows.len() && #[trigger] m.rows[i].id == id;
    assert(once.rows[i].id == id);
    assert(table_complete(once, id).rows =~= once.rows);
}

/// Once a record is deleted its id is found no more, so completing,
/// deleting or updating it reports that it was not found.
pub proof fn lemma_gone_after_delete(m: TableModel, id: i64)
    requires
        table_wf(m),
    ensures
        !has_id(table_delete(m, id).rows, id),
{
    let keep = |r: TodoRow| r.id != id;
    lemma_retain_sub(m.rows, keep);
    let w = table_delete(m, id).rows;
    if has_id(w, id) {
        let j = choose|j: int| 0 <= j < w.len() && #[trigger] w[j].id == id;
        assert(keep(w[j]));
    }
}

/// The listing of completed records holds exactly the completed records of
/// the unfiltered listing, the listing of pending ones exactly its pending
/// records, each in order of id; both flags together list everything.
pub proof fn lemma_list_filters(m: TableModel)
    requires
        table_wf(m),
    ensures
        table_list(m, true, true) == table_list(m, false, false),
        forall|r: TodoRow| #[trigger]
            table_list(m, true, false).contains(r) <==> table_list(m, false, false).contains(r)
                && r.completed,
        forall|r: TodoRow| #[trigger]
            table_list(m, false, true).contains(r) <==> table_list(m, false, false).contains(r)
                && !r.completed,
        select(m.rows, Filter::Completed) == table_list(m, true, false),
        select(m.rows, Filter::Pending) == table_list(m, false, true),
{
    lemma_list_all_is_table(m);
    let fc = Filter::Completed;
    let fp = Filter::Pending;
    let kc = |r: TodoRow| fc.admits(r.completed);
    let kp = |r: TodoRow| fp.admits(r.completed);
    lemma_retain_sub(m.rows, kc);
    lemma_retain_sub(m.rows, kp);
    assert forall|r: TodoRow| #[trigger]
        table_list(m, true, false).contains(r) <==> m.rows.contains(r) && r.completed by {
        if m.rows.contains(r) && r.completed {
            let i = choose|i: int| 0 <= i < m.rows.len() && m.rows[i] == r;
            lemma_retain_keeps(m.rows, kc, i);
        }
    }
    assert forall|r: TodoRow| #[trigger]
        table_list(m, false, true).contains(r) <==> m.rows.contains(r) && !r.completed by {
        if m.rows.contains(r) && !r.completed {
            let i = choose|i: int| 0 <= i < m.rows.len() && m.rows[i] == r;
            lemma_retain_keeps(m.rows, kp, i);
        }
    }
}

/// Updating the record at position `i` and then listing without filters
/// shows, at the same position, the same id and completion state with the
/// new description.
pub proof fn lemma_update_then_list(m: TableModel, i: int, d: Seq<char>)
    requires
        table_wf(m),
        0 <= i < m.rows.len(),
    ensures
        table_list(table_update(m, m.rows[i].id, d), false, false).len() == m.rows.len(),
        table_list(table_update(m, m.rows[i].id, d), false, false)[i] == (TodoRow {
            id: m.rows[i].id,
            description: d,
            completed: m.rows[i].completed,
        }),
{
    lemma_list_all_is_table(table_update(m, m.rows[i].id, d));
}

} // verus!
