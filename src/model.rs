//! The todo record, the table that holds the records, and the selection
//! that a listing applies.

use vstd::prelude::*;

verus! {

/// One record as the contracts see it.
pub struct TodoRow {
    pub id: i64,
    pub description: Seq<char>,
    pub completed: bool,
}

/// One todo item.
#[derive(Debug)]
pub struct Todo {
    pub id: i64,
    pub description: String,
    pub completed: bool,
}

impl View for Todo {
    type V = TodoRow;

    open spec fn view(&self) -> TodoRow {
        TodoRow { id: self.id, description: self.description@, completed: self.completed }
    }
}

impl Todo {
    /// A fresh copy of the record.
    pub fn duplicate(&self) -> (r: Todo)
        ensures
            r@ == self@,
    {
        Todo { id: self.id, description: self.description.clone(), completed: self.completed }
    }
}

/// The records of a sequence of todos, in the same order.
pub open spec fn rows_of(v: Seq<Todo>) -> Seq<TodoRow> {
    v.map_values(|t: Todo| t@)
}

/// Which records a listing shows.
#[derive(PartialEq, Eq, Structural, Clone, Copy, Debug)]
pub enum Filter {
    All,
    Completed,
    Pending,
}

impl Filter {
    /// Whether a record with this completion state is shown.
    pub open spec fn admits(self, completed: bool) -> bool {
        match self {
            Filter::All => true,
            Filter::Completed => completed,
            Filter::Pending => !completed,
        }
    }
}

impl Filter {
    /// Whether a record with this completion state is shown.
    pub fn shows(&self, completed: bool) -> (r: bool)
        ensures
            r == self.admits(completed),
    {
        match self {
            Filter::All => true,
            Filter::Completed => completed,
            Filter::Pending => !completed,
        }
    }
}

/// The selection named by the two flags of a listing: one flag alone picks
/// its side, no flag or both flags show everything.
pub open spec fn filter_of(completed: bool, pending: bool) -> Filter {
    if completed && !pending {
        Filter::Completed
    } else if pending && !completed {
        Filter::Pending
    } else {
        Filter::All
    }
}

/// The selection that the list command applies for its two flags.
pub fn list_filter(completed: bool, pending: bool) -> (f: Filter)
    ensures
        f == filter_of(completed, pending),
{
    match (completed, pending) {
        (true, false) => Filter::Completed,
        (false, true) => Filter::Pending,
        _ => Filter::All,
    }
}

} // verus!
