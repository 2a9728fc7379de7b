//! The five commands, what each one comes to, and the lines that report it.

use vstd::prelude::*;
use crate::model::{Todo, rows_of};
use crate::text::{
    added_line, added_line_text, completed_line, completed_line_text, deleted_line,
    deleted_line_text, heading, item_line, item_line_text, listing, not_found_line,
    not_found_line_text, rule, rule_text, texts, total_line_text, updated_line, updated_line_text,
};

verus! {

/// One invocation's operation.
#[derive(Debug)]
pub enum Command {
    Add { description: String },
    List { completed: bool, pending: bool },
    Complete { id: i64 },
    Delete { id: i64 },
    Update { id: i64, description: String },
}

/// What an operation came to.
#[derive(Debug)]
pub enum Outcome {
    Added { id: i64, description: String },
    Listed { todos: Vec<Todo> },
    Completed { id: i64 },
    Deleted { id: i64 },
    Updated { id: i64, description: String },
    NotFound { id: i64 },
}

/// The lines that report an outcome, in order.
pub open spec fn report(o: &Outcome) -> Seq<Seq<char>> {
    match o {
        Outcome::Added { id, description } => seq![added_line(*id, description@)],
        Outcome::Listed { todos } => listing(rows_of(todos@)),
        Outcome::Completed { id } => seq![completed_line(*id)],
        Outcome::Deleted { id } => seq![deleted_line(*id)],
        Outcome::Updated { id, description } => seq![updated_line(*id, description@)],
        Outcome::NotFound { id } => seq![not_found_line(*id)],
    }
}

/// The outcome of marking `id` completed when `affected` records changed.
pub fn completion_outcome(id: i64, affected: usize) -> (o: Outcome)
    ensures
        o == (if affected > 0 {
            Outcome::Completed { id }
        } else {
            Outcome::NotFound { id }
        }),
{
    if affected > 0 {
        Outcome::Completed { id }
    } else {
        Outcome::NotFound { id }
    }
}

/// The outcome of deleting `id` when `affected` records went.
pub fn deletion_outcome(id: i64, affected: usize) -> (o: Outcome)
    ensures
        o == (if affected > 0 {
            Outcome::Deleted { id }
        } else {
            Outcome::NotFound { id }
        }),
{
    if affected > 0 {
        Outcome::Deleted { id }
    } else {
        Outcome::NotFound { id }
    }
}

/// The outcome of giving `id` the description `description` when
/// `affected` records changed.
pub fn update_outcome(id: i64, description: &str, affected: usize) -> (o: Outcome)
    ensures
        affected > 0 ==> (o matches Outcome::Updated { id: i, description: d } && i == id && d@
            == description@),
        affected == 0 ==> o == (Outcome::NotFound { id }),
{
    if affected > 0 {
        Outcome::Updated { id, description: String::from_str(description) }
    } else {
        Outcome::NotFound { id }
    }
}

/// The lines that report a listing of these records.
pub fn listing_text(todos: &Vec<Todo>) -> (r: Vec<String>)
    ensures
        texts(r@) == listing(rows_of(todos@)),
{
    let ghost rows = rows_of(todos@);
    let mut out: Vec<String> = Vec::new();
    out.push(String::from_str("\n📋 Todo List:"));
    out.push(rule_text());
    let mut k: usize = 0;
    while k < todos.len()
        invariant
            k <= todos.len(),
            rows == rows_of(todos@),
            texts(out@) == seq![heading(), rule()] + rows.take(k as int).map_values(
                |r| item_line(r),
            ),
        decreases todos.len() - k,
    {
        let line = item_line_text(&todos[k]);
        let ghost before = out@;
        out.push(line);
        assert(texts(out@) =~= texts(before).push(line@));
        assert(rows[k as int] == todos@[k as int]@);
        assert(rows.take(k + 1).map_values(|r| item_line(r)) =~= rows.take(k as int).map_values(
            |r| item_line(r),
        ).push(item_line(rows[k as int])));
        assert(texts(out@) =~= seq![heading(), rule()] + rows.take(k + 1).map_values(
            |r| item_line(r),
        ));
        k = k + 1;
    }
    out.push(rule_text());
    out.push(total_line_text(todos.len()));
    assert(rows.take(k as int) =~= rows);
    assert(texts(out@) =~= listing(rows));
    out
}

/// The lines that report an outcome.
pub fn render(o: &Outcome) -> (r: Vec<String>)
    ensures
        texts(r@) == report(o),
{
    let line = match o {
        Outcome::Added { id, description } => added_line_text(*id, description.as_str()),
        Outcome::Listed { todos } => {
            return listing_text(todos);
        },
        Outcome::Completed { id } => completed_line_text(*id),
        Outcome::Deleted { id } => deleted_line_text(*id),
        Outcome::Updated { id, description } => updated_line_text(*id, description.as_str()),
        Outcome::NotFound { id } => not_found_line_text(*id),
    };
    let mut r: Vec<String> = Vec::new();
    r.push(line);
    assert(texts(r@) =~= report(o));
    r
}

} // verus!
