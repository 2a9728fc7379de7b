//! A todo table held in memory, with the same five operations as the
//! SQLite-backed one, each proved against the table model.

use vstd::prelude::*;
use crate::model::{Todo, TodoRow, list_filter, rows_of};
use crate::outcome::{Command, Outcome};
use crate::table::{
    TableModel, can_add, has_id, lemma_retain_sub, marked_done,
    next_id, renamed, select, table_add, table_complete, table_delete, table_list, table_update,
    table_wf, without,
};

verus! {

/// A todo table in memory: records in order of id, and the last id handed out.
pub struct TodoStore {
    rows: Vec<Todo>,
    last_id: i64,
}

impl View for TodoStore {
    type V = TableModel;

    closed spec fn view(&self) -> TableModel {
        TableModel { rows: rows_of(self.rows@), last_id: self.last_id }
    }
}

proof fn lemma_rows_of_push(v: Seq<Todo>, t: Todo)
    ensures
        rows_of(v.push(t)) == rows_of(v).push(t@),
{
    assert(rows_of(v.push(t)) =~= rows_of(v).push(t@));
}

proof fn lemma_take_step(s: Seq<TodoRow>, k: int)
    requires
        0 <= k < s.len(),
    ensures
        s.take(k + 1).drop_last() == s.take(k),
        s.take(k + 1).last() == s[k],
{
    assert(s.take(k + 1).drop_last() =~= s.take(k));
}

proof fn lemma_has_id_step(s: Seq<TodoRow>, k: int, id: i64)
    requires
        0 <= k < s.len(),
    ensures
        has_id(s.take(k + 1), id) == (has_id(s.take(k), id) || s[k].id == id),
{
    let a = s.take(k);
    let b = s.take(k + 1);
    if has_id(a, id) {
        let i = choose|i: int| 0 <= i < a.len() && #[trigger] a[i].id == id;
        assert(b[i].id == id);
    }
    if s[k].id == id {
        assert(b[k].id == id);
    }
    if has_id(b, id) {
        let i = choose|i: int| 0 <= i < b.len() && #[trigger] b[i].id == id;
        if i < k {
            assert(a[i].id == id);
        }
    }
}

impl TodoStore {
    /// The table's invariant holds.
    pub open spec fn wf(&self) -> bool {
        table_wf(self@)
    }

    /// An empty table that has handed out no id.
    pub fn new() -> (s: TodoStore)
        ensures
            s.wf(),
            s@.rows == Seq::<TodoRow>::empty(),
            s@.last_id == 0,
    {
        let s = TodoStore { rows: Vec::new(), last_id: 0 };
        assert(s@.rows =~= Seq::<TodoRow>::empty());
        s
    }

    /// Inserts a pending record and returns its id, the one after the last
    /// handed out; `None`, with the table unchanged, once the largest id has
    /// been handed out.
    pub fn add(&mut self, description: &str) -> (r: Option<i64>)
        requires
            old(self).wf(),
        ensures
            final(self).wf(),
            match r {
                Some(id) => can_add(old(self)@) && id == next_id(old(self)@) && final(self)@
                    == table_add(old(self)@, description@),
                None => !can_add(old(self)@) && final(self)@ == old(self)@,
            },
    {
        if self.last_id == i64::MAX {
            return None;
        }
        let id = self.last_id + 1;
        let t = Todo { id, description: String::from_str(description), completed: false };
        proof {
            lemma_rows_of_push(self.rows@, t);
        }
        self.rows.push(t);
        self.last_id = id;
        Some(id)
    }

    /// The records that the list command shows for its two flags, in order of id.
    pub fn list(&self, completed: bool, pending: bool) -> (r: Vec<Todo>)
        requires
            self.wf(),
        ensures
            rows_of(r@) == table_list(self@, completed, pending),
    {
        let f = list_filter(completed, pending);
        let ghost all = rows_of(self.rows@);
        let mut out: Vec<Todo> = Vec::new();
        let mut k: usize = 0;
        while k < self.rows.len()
            invariant
                k <= self.rows.len(),
                all == rows_of(self.rows@),
                rows_of(out@) == select(all.take(k as int), f),
            decreases self.rows.len() - k,
        {
            let t = &self.rows[k];
            proof {
                lemma_take_step(all, k as int);
            }
            if f.shows(t.completed) {
                let c = t.duplicate();
                proof {
                    lemma_rows_of_push(out@, c);
                }
                out.push(c);
            }
            k = k + 1;
        }
        assert(all.take(k as int) =~= all);
        out
    }

    /// Marks the record of this id completed; tells whether there was one.
    pub fn complete(&mut self, id: i64) -> (found: bool)
        requires
            old(self).wf(),
        ensures
            final(self).wf(),
            found == has_id(old(self)@.rows, id),
            final(self)@ == table_complete(old(self)@, id),
    {
        let ghost all = rows_of(self.rows@);
        let mut out: Vec<Todo> = Vec::new();
        let mut found = false;
        let mut k: usize = 0;
        while k < self.rows.len()
            invariant
                k <= self.rows.len(),
                all == rows_of(self.rows@),
                rows_of(out@) == marked_done(all, id).take(k as int),
                found == has_id(all.take(k as int), id),
            decreases self.rows.len() - k,
        {
            let t = &self.rows[k];
            let mut c = t.duplicate();
            if t.id == id {
                c.completed = true;
                found = true;
            }
            proof {
                lemma_rows_of_push(out@, c);
                lemma_has_id_step(all, k as int, id);
                assert(rows_of(out@).push(c@) =~= marked_done(all, id).take(k + 1));
            }
            out.push(c);
            k = k + 1;
        }
        assert(all.take(k as int) =~= all);
        assert(marked_done(all, id).take(k as int) =~= marked_done(all, id));
        self.rows = out;
        found
    }

    /// Gives the record of this id a new description; tells whether there was one.
    pub fn update(&mut self, id: i64, description: &str) -> (found: bool)
        requires
            old(self).wf(),
        ensures
            final(self).wf(),
            found == has_id(old(self)@.rows, id),
            final(self)@ == table_update(old(self)@, id, description@),
    {
        let ghost all = rows_of(self.rows@);
        let mut out: Vec<Todo> = Vec::new();
        let mut found = false;
        let mut k: usize = 0;
        while k < self.rows.len()
            invariant
                k <= self.rows.len(),
                all == rows_of(self.rows@),
                rows_of(out@) == renamed(all, id, description@).take(k as int),
                found == has_id(all.take(k as int), id),
            decreases self.rows.len() - k,
        {
            let t = &self.rows[k];
            let mut c = t.duplicate();
            if t.id == id {
                c.description = String::from_str(description);
                found = true;
            }
            proof {
                lemma_rows_of_push(out@, c);
                lemma_has_id_step(all, k as int, id);
                assert(rows_of(out@).push(c@) =~= renamed(all, id, description@).take(k + 1));
            }
            out.push(c);
            k = k + 1;
        }
        assert(all.take(k as int) =~= all);
        assert(renamed(all, id, description@).take(k as int) =~= renamed(all, id, description@));
        self.rows = out;
        found
    }

    /// Removes the record of this id; tells whether there was one.
    pub fn delete(&mut self, id: i64) -> (found: bool)
        requires
            old(self).wf(),
        ensures
            final(self).wf(),
            found == has_id(old(self)@.rows, id),
            final(self)@ == table_delete(old(self)@, id),
    {
        let ghost all = rows_of(self.rows@);
        let mut out: Vec<Todo> = Vec::new();
        let mut found = false;
        let mut k: usize = 0;
        while k < self.rows.len()
            invariant
                k <= self.rows.len(),
                all == rows_of(self.rows@),
                rows_of(out@) == without(all.take(k as int), id),
                found == has_id(all.take(k as int), id),
            decreases self.rows.len() - k,
        {
            let t = &self.rows[k];
            proof {
                lemma_take_step(all, k as int);
                lemma_has_id_step(all, k as int, id);
            }
            if t.id == id {
                found = true;
            } else {
                let c = t.duplicate();
                proof {
                    lemma_rows_of_push(out@, c);
                }
                out.push(c);
            }
            k = k + 1;
        }
        assert(all.take(k as int) =~= all);
        proof {
            let keep = |r: TodoRow| r.id != id;
            lemma_retain_sub(all, keep);
            let w = without(all, id);
            assert forall|j: int| 0 <= j < w.len() implies 1 <= #[trigger] w[j].id
                <= self.last_id by {
                assert(all.contains(w[j]));
            }
        }
        self.rows = out;
        found
    }

    /// Runs one command against the table and says what it came to; `None`,
    /// with the table unchanged, only for an addition once the largest id
    /// has been handed out.
    pub fn run(&mut self, cmd: &Command) -> (r: Option<Outcome>)
        requires
            old(self).wf(),
        ensures
            final(self).wf(),
            match cmd {
                Command::Add { description } => match r {
                    Some(o) => can_add(old(self)@) && final(self)@ == table_add(
                        old(self)@,
                        description@,
                    ) && (o matches Outcome::Added { id, description: d } && id == next_id(
                        old(self)@,
                    ) && d@ == description@),
                    None => !can_add(old(self)@) && final(self)@ == old(self)@,
                },
                Command::List { completed, pending } => final(self)@ == old(self)@ && (r matches Some(
                    Outcome::Listed { todos },
                ) && rows_of(todos@) == table_list(old(self)@, *completed, *pending)),
                Command::Complete { id } => final(self)@ == table_complete(old(self)@, *id) && r
                    == Some(
                    if has_id(old(self)@.rows, *id) {
                        Outcome::Completed { id: *id }
                    } else {
                        Outcome::NotFound { id: *id }
                    },
                ),
                Command::Delete { id } => final(self)@ == table_delete(old(self)@, *id) && r
                    == Some(
                    if has_id(old(self)@.rows, *id) {
                        Outcome::Deleted { id: *id }
                    } else {
                        Outcome::NotFound { id: *id }
                    },
                ),
                Command::Update { id, description } => final(self)@ == table_update(
                    old(self)@,
                    *id,
                    description@,
                ) && (if has_id(old(self)@.rows, *id) {
                    r matches Some(Outcome::Updated { id: i, description: d }) && i == *id && d@
                        == description@
                } else {
                    r == Some(Outcome::NotFound { id: *id })
                }),
            },
    {
        match cmd {
            Command::Add { description } => match self.add(description.as_str()) {
                Some(id) => Some(
                    Outcome::Added { id, description: String::from_str(description.as_str()) },
                ),
                None => None,
            },
            Command::List { completed, pending } => Some(
                Outcome::Listed { todos: self.list(*completed, *pending) },
            ),
            Command::Complete { id } => {
                if self.complete(*id) {
                    Some(Outcome::Completed { id: *id })
                } else {
                    Some(Outcome::NotFound { id: *id })
                }
            },
            Command::Delete { id } => {
                if self.delete(*id) {
                    Some(Outcome::Deleted { id: *id })
                } else {
                    Some(Outcome::NotFound { id: *id })
                }
            },
            Command::Update { id, description } => {
                if self.update(*id, description.as_str()) {
                    Some(
                        Outcome::Updated { id: *id, description: String::from_str(description.as_str()) },
                    )
                } else {
                    Some(Outcome::NotFound { id: *id })
                }
            },
        }
    }
}

} // verus!
