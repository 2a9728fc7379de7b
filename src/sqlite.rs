//! The five operations run against an SQLite database through rusqlite.
//! What the database holds lies outside the proofs. Two ghost logs record
//! what this library sent to the database and what the database answered
//! each time. Each operation states the statement and arguments that it
//! sent, and what it returns for the answer that came back: the count of
//! changed rows, the id of the inserted row, the rows of a query, or the
//! error, which is handed on unchanged.

use vstd::prelude::*;
use rusqlite::Connection;
use crate::model::{Filter, Todo, TodoRow, list_filter, filter_of, rows_of};
use crate::outcome::{
    Command, Outcome, completion_outcome, deletion_outcome, update_outcome,
};

verus! {

#[verifier::external_type_specification]
#[verifier::external_body]
pub struct ExConnection(rusqlite::Connection);

#[verifier::external_type_specification]
#[verifier::external_body]
pub struct ExSqliteError(rusqlite::Error);

/// A failure of the database, as rusqlite reported it.
#[derive(Debug)]
pub struct StoreError {
    pub source: rusqlite::Error,
}

/// An argument bound to a statement's parameter.
pub enum SqlArg {
    Int(i64),
    Text(Seq<char>),
}

/// One statement handed to the database, with its arguments in order.
pub struct Sent {
    pub sql: Seq<char>,
    pub args: Seq<SqlArg>,
}

/// What the database answered to one operation.
pub enum Answer {
    /// The statement ran and changed this many rows.
    Changed(usize),
    /// The insertion ran and the new row got this id.
    Inserted(i64),
    /// The query ran and returned these rows, in order.
    Rows(Seq<TodoRow>),
    /// The statement failed with this error.
    Failed(rusqlite::Error),
}

/// The answer of a statement that reports a count of changed rows.
pub open spec fn count_answer(r: Result<usize, rusqlite::Error>) -> Answer {
    match r {
        Ok(n) => Answer::Changed(n),
        Err(e) => Answer::Failed(e),
    }
}

/// The answer of an insertion that reports the new row's id.
pub open spec fn insert_answer(r: Result<i64, rusqlite::Error>) -> Answer {
    match r {
        Ok(k) => Answer::Inserted(k),
        Err(e) => Answer::Failed(e),
    }
}

/// The answer of a query that returns records.
pub open spec fn rows_answer(r: Result<Vec<Todo>, rusqlite::Error>) -> Answer {
    match r {
        Ok(v) => Answer::Rows(rows_of(v@)),
        Err(e) => Answer::Failed(e),
    }
}

/// A failed answer comes back as the library's error holding the same
/// rusqlite error.
pub open spec fn hands_on_failure<T>(a: Answer, r: Result<T, StoreError>) -> bool {
    a matches Answer::Failed(e) ==> (r matches Err(x) && x.source == e)
}

/// What creating the table returns for the answer `a`.
pub open spec fn schema_reports(a: Answer, r: Result<(), StoreError>) -> bool {
    &&& hands_on_failure(a, r)
    &&& a is Changed ==> r is Ok
    &&& (a is Changed || a is Failed)
}

/// What an addition of `d` returns for the answer `a`: the id that the
/// database gave the new row.
pub open spec fn add_reports(d: Seq<char>, a: Answer, r: Result<Outcome, StoreError>) -> bool {
    &&& hands_on_failure(a, r)
    &&& a matches Answer::Inserted(k) ==> (r matches Ok(Outcome::Added { id, description })
        && id == k && description@ == d)
    &&& (a is Inserted || a is Failed)
}

/// What a listing returns for the answer `a`: exactly the rows returned.
pub open spec fn list_reports(a: Answer, r: Result<Outcome, StoreError>) -> bool {
    &&& hands_on_failure(a, r)
    &&& a matches Answer::Rows(rows) ==> (r matches Ok(Outcome::Listed { todos }) && rows_of(
        todos@,
    ) == rows)
    &&& (a is Rows || a is Failed)
}

/// What marking `id` completed returns for the answer `a`.
pub open spec fn complete_reports(id: i64, a: Answer, r: Result<Outcome, StoreError>) -> bool {
    &&& hands_on_failure(a, r)
    &&& a matches Answer::Changed(n) ==> r == Ok::<Outcome, StoreError>(
        if n > 0 {
            Outcome::Completed { id }
        } else {
            Outcome::NotFound { id }
        },
    )
    &&& (a is Changed || a is Failed)
}

/// What deleting `id` returns for the answer `a`.
pub open spec fn delete_reports(id: i64, a: Answer, r: Result<Outcome, StoreError>) -> bool {
    &&& hands_on_failure(a, r)
    &&& a matches Answer::Changed(n) ==> r == Ok::<Outcome, StoreError>(
        if n > 0 {
            Outcome::Deleted { id }
        } else {
            Outcome::NotFound { id }
        },
    )
    &&& (a is Changed || a is Failed)
}

/// What renaming `id` to `d` returns for the answer `a`.
pub open spec fn update_reports(id: i64, d: Seq<char>, a: Answer, r: Result<Outcome, StoreError>) -> bool {
    &&& hands_on_failure(a, r)
    &&& a matches Answer::Changed(n) ==> (if n > 0 {
        r matches Ok(Outcome::Updated { id: i, description }) && i == id && description@ == d
    } else {
        r == Ok::<Outcome, StoreError>(Outcome::NotFound { id })
    })
    &&& (a is Changed || a is Failed)
}

/// What a command returns for the answer `a`.
pub open spec fn command_reports(cmd: &Command, a: Answer, r: Result<Outcome, StoreError>) -> bool {
    match cmd {
        Command::Add { description } => add_reports(description@, a, r),
        Command::List { .. } => list_reports(a, r),
        Command::Complete { id } => complete_reports(*id, a, r),
        Command::Delete { id } => delete_reports(*id, a, r),
        Command::Update { id, description } => update_reports(*id, description@, a, r),
    }
}

/// A connection to the todo database, with the log of the statements that
/// this library sent to it and the log of the answers it gave, one answer
/// for each operation.
pub struct Database {
    conn: Connection,
    log: Ghost<Seq<Sent>>,
    answers: Ghost<Seq<Answer>>,
}

/// Relies on rusqlite's `Connection::execute` with no parameters; the
/// result is the number of rows changed, which depends on the database.
#[verifier::external_body]
fn execute_unbound(conn: &Connection, sql: &str) -> (r: Result<usize, rusqlite::Error>) {
    conn.execute(sql, ())
}

/// Relies on rusqlite's `Connection::execute` with one integer parameter.
#[verifier::external_body]
fn execute_with_id(conn: &Connection, sql: &str, id: i64) -> (r: Result<usize, rusqlite::Error>) {
    conn.execute(sql, (id,))
}

/// Relies on rusqlite's `Connection::execute` with one text parameter.
#[verifier::external_body]
fn execute_with_text(conn: &Connection, sql: &str, text: &str) -> (r: Result<
    usize,
    rusqlite::Error,
>) {
    conn.execute(sql, (text,))
}

/// Relies on rusqlite's `Connection::execute` with a text parameter then an
/// integer one.
#[verifier::external_body]
fn execute_with_text_and_id(conn: &Connection, sql: &str, text: &str, id: i64) -> (r: Result<
    usize,
    rusqlite::Error,
>) {
    conn.execute(sql, (text, id))
}

/// Relies on rusqlite's `Connection::last_insert_rowid`: the rowid of the
/// most recent successful insertion on this connection.
#[verifier::external_body]
fn last_insert_rowid(conn: &Connection) -> (r: i64) {
    conn.last_insert_rowid()
}

/// Relies on rusqlite's `Connection::prepare`, `Statement::query_map` and
/// `Row::get`: runs a query without parameters whose columns are id,
/// description and completed, and collects its rows in the order returned.
#[verifier::external_body]
fn query_todos(conn: &Connection, sql: &str) -> (r: Result<Vec<Todo>, rusqlite::Error>) {
    let mut stmt = conn.prepare(sql)?;
    let rows = stmt.query_map((), |row| {
        Ok(Todo { id: row.get(0)?, description: row.get(1)?, completed: row.get(2)? })
    })?;
    rows.collect()
}

/// The statement that creates the todo table unless it exists: an id that
/// the database assigns and never hands out again (AUTOINCREMENT), a
/// required description, a completion flag that starts false, and the time
/// of creation. With IF NOT EXISTS, running it again leaves the table as it is.
pub open spec fn schema_sql() -> Seq<char> {
    "CREATE TABLE IF NOT EXISTS todos (
            id INTEGER PRIMARY KEY AUTOINCREMENT,
            description TEXT NOT NULL,
            completed BOOLEAN NOT NULL DEFAULT 0,
            created_at DATETIME DEFAULT CURRENT_TIMESTAMP
        )"@
}

/// The statement that inserts a pending record; its one parameter is the
/// description.
pub open spec fn insert_sql() -> Seq<char> {
    "INSERT INTO todos (description, completed) VALUES (?1, 0)"@
}

/// The statement that sets the completion flag of the record whose id is its
/// one parameter.
pub open spec fn complete_sql() -> Seq<char> {
    "UPDATE todos SET completed = 1 WHERE id = ?1"@
}

/// The statement that removes the record whose id is its one parameter.
pub open spec fn delete_sql() -> Seq<char> {
    "DELETE FROM todos WHERE id = ?1"@
}

/// The statement that gives the record whose id is its second parameter the
/// description that is its first.
pub open spec fn update_sql() -> Seq<char> {
    "UPDATE todos SET description = ?1 WHERE id = ?2"@
}

/// The statement that creates the todo table.
pub fn schema_statement() -> (q: &'static str)
    ensures
        q@ == schema_sql(),
{
    "CREATE TABLE IF NOT EXISTS todos (
            id INTEGER PRIMARY KEY AUTOINCREMENT,
            description TEXT NOT NULL,
            completed BOOLEAN NOT NULL DEFAULT 0,
            created_at DATETIME DEFAULT CURRENT_TIMESTAMP
        )"
}

/// The statement that inserts a pending record.
pub fn insert_statement() -> (q: &'static str)
    ensures
        q@ == insert_sql(),
{
    "INSERT INTO todos (description, completed) VALUES (?1, 0)"
}

/// The statement that marks a record completed.
pub fn complete_statement() -> (q: &'static str)
    ensures
        q@ == complete_sql(),
{
    "UPDATE todos SET completed = 1 WHERE id = ?1"
}

/// The statement that removes a record.
pub fn delete_statement() -> (q: &'static str)
    ensures
        q@ == delete_sql(),
{
    "DELETE FROM todos WHERE id = ?1"
}

/// The statement that renames a record.
pub fn update_statement() -> (q: &'static str)
    ensures
        q@ == update_sql(),
{
    "UPDATE todos SET description = ?1 WHERE id = ?2"
}

/// The query that lists the records that `f` admits, in order of id.
pub open spec fn list_sql(f: Filter) -> Seq<char> {
    match f {
        Filter::Completed => "SELECT id, description, completed FROM todos WHERE completed = 1 ORDER BY id"@,
        Filter::Pending => "SELECT id, description, completed FROM todos WHERE completed = 0 ORDER BY id"@,
        Filter::All => "SELECT id, description, completed FROM todos ORDER BY id"@,
    }
}

/// The query that the list command runs for its two flags.
pub fn list_query(completed: bool, pending: bool) -> (q: &'static str)
    ensures
        q@ == list_sql(filter_of(completed, pending)),
{
    match list_filter(completed, pending) {
        Filter::Completed => "SELECT id, description, completed FROM todos WHERE completed = 1 ORDER BY id",
        Filter::Pending => "SELECT id, description, completed FROM todos WHERE completed = 0 ORDER BY id",
        Filter::All => "SELECT id, description, completed FROM todos ORDER BY id",
    }
}

fn store_error(e: rusqlite::Error) -> (r: StoreError)
    ensures
        r.source == e,
{
    StoreError { source: e }
}

/// The statement, and its arguments, that each command hands to the database.
pub open spec fn command_sent(cmd: &Command) -> Sent {
    match cmd {
        Command::Add { description } => Sent {
            sql: insert_sql(),
            args: seq![SqlArg::Text(description@)],
        },
        Command::List { completed, pending } => Sent {
            sql: list_sql(filter_of(*completed, *pending)),
            args: seq![],
        },
        Command::Complete { id } => Sent { sql: complete_sql(), args: seq![SqlArg::Int(*id)] },
        Command::Delete { id } => Sent { sql: delete_sql(), args: seq![SqlArg::Int(*id)] },
        Command::Update { id, description } => Sent {
            sql: update_sql(),
            args: seq![SqlArg::Text(description@), SqlArg::Int(*id)],
        },
    }
}

impl Database {
    /// Every statement that this library sent through this value, in order.
    pub closed spec fn sent(&self) -> Seq<Sent> {
        self.log@
    }

    /// What the database answered to each operation, in order.
    pub closed spec fn answers(&self) -> Seq<Answer> {
        self.answers@
    }

    /// Takes an open connection; nothing has been sent through it yet.
    pub fn new(conn: Connection) -> (db: Database)
        ensures
            db.sent() == Seq::<Sent>::empty(),
            db.answers() == Seq::<Answer>::empty(),
    {
        Database { conn, log: Ghost(Seq::empty()), answers: Ghost(Seq::empty()) }
    }

    fn send_unbound(&mut self, sql: &str) -> (r: Result<usize, rusqlite::Error>)
        ensures
            final(self).sent() == old(self).sent().push(Sent { sql: sql@, args: seq![] }),
            final(self).answers() == old(self).answers().push(count_answer(r)),
    {
        self.log = Ghost(self.log@.push(Sent { sql: sql@, args: seq![] }));
        let r = execute_unbound(&self.conn, sql);
        self.answers = Ghost(self.answers@.push(count_answer(r)));
        r
    }

    fn send_with_id(&mut self, sql: &str, id: i64) -> (r: Result<usize, rusqlite::Error>)
        ensures
            final(self).sent() == old(self).sent().push(
                Sent { sql: sql@, args: seq![SqlArg::Int(id)] },
            ),
            final(self).answers() == old(self).answers().push(count_answer(r)),
    {
        self.log = Ghost(self.log@.push(Sent { sql: sql@, args: seq![SqlArg::Int(id)] }));
        let r = execute_with_id(&self.conn, sql, id);
        self.answers = Ghost(self.answers@.push(count_answer(r)));
        r
    }

    /// Sends an insertion with one text argument; its answer is the id of
    /// the row inserted, read from the connection right after.
    fn send_insert(&mut self, sql: &str, text: &str) -> (r: Result<i64, rusqlite::Error>)
        ensures
            final(self).sent() == old(self).sent().push(
                Sent { sql: sql@, args: seq![SqlArg::Text(text@)] },
            ),
            final(self).answers() == old(self).answers().push(insert_answer(r)),
    {
        self.log = Ghost(self.log@.push(Sent { sql: sql@, args: seq![SqlArg::Text(text@)] }));
        let r = match execute_with_text(&self.conn, sql, text) {
            Ok(_) => Ok(last_insert_rowid(&self.conn)),
            Err(e) => Err(e),
        };
        self.answers = Ghost(self.answers@.push(insert_answer(r)));
        r
    }

    fn send_with_text_and_id(&mut self, sql: &str, text: &str, id: i64) -> (r: Result<
        usize,
        rusqlite::Error,
    >)
        ensures
            final(self).sent() == old(self).sent().push(
                Sent { sql: sql@, args: seq![SqlArg::Text(text@), SqlArg::Int(id)] },
            ),
            final(self).answers() == old(self).answers().push(count_answer(r)),
    {
        self.log = Ghost(
            self.log@.push(Sent { sql: sql@, args: seq![SqlArg::Text(text@), SqlArg::Int(id)] }),
        );
        let r = execute_with_text_and_id(&self.conn, sql, text, id);
        self.answers = Ghost(self.answers@.push(count_answer(r)));
        r
    }

    fn send_query(&mut self, sql: &str) -> (r: Result<Vec<Todo>, rusqlite::Error>)
        ensures
            final(self).sent() == old(self).sent().push(Sent { sql: sql@, args: seq![] }),
            final(self).answers() == old(self).answers().push(rows_answer(r)),
    {
        self.log = Ghost(self.log@.push(Sent { sql: sql@, args: seq![] }));
        let r = query_todos(&self.conn, sql);
        self.answers = Ghost(self.answers@.push(rows_answer(r)));
        r
    }
}

/// One more answer was recorded after the earlier ones, which are kept.
pub open spec fn one_more_answer(before: Seq<Answer>, after: Seq<Answer>) -> bool {
    &&& after.len() == before.len() + 1
    &&& forall|i: int| 0 <= i < before.len() ==> #[trigger] after[i] == before[i]
}

/// Creates the todo table unless it exists, by sending the schema statement
/// alone; safe to run on every start. Succeeds exactly when the statement
/// ran, and hands on its error otherwise.
pub fn init_database(db: &mut Database) -> (r: Result<(), StoreError>)
    ensures
        final(db).sent() == old(db).sent().push(Sent { sql: schema_sql(), args: seq![] }),
        one_more_answer(old(db).answers(), final(db).answers()),
        schema_reports(final(db).answers().last(), r),
{
    match db.send_unbound(schema_statement()) {
        Ok(_) => Ok(()),
        Err(e) => Err(store_error(e)),
    }
}

/// Inserts a pending record with this description; reports the id that the
/// database gave the new row.
pub fn add_todo(db: &mut Database, description: &str) -> (r: Result<Outcome, StoreError>)
    ensures
        final(db).sent() == old(db).sent().push(
            Sent { sql: insert_sql(), args: seq![SqlArg::Text(description@)] },
        ),
        one_more_answer(old(db).answers(), final(db).answers()),
        add_reports(description@, final(db).answers().last(), r),
{
    match db.send_insert(insert_statement(), description) {
        Ok(id) => Ok(Outcome::Added { id, description: String::from_str(description) }),
        Err(e) => Err(store_error(e)),
    }
}

/// Lists the records that the two flags select, in order of id, by sending
/// the query for those flags; the listing holds exactly the rows returned.
pub fn list_todos(db: &mut Database, completed: bool, pending: bool) -> (r: Result<
    Outcome,
    StoreError,
>)
    ensures
        final(db).sent() == old(db).sent().push(
            Sent { sql: list_sql(filter_of(completed, pending)), args: seq![] },
        ),
        one_more_answer(old(db).answers(), final(db).answers()),
        list_reports(final(db).answers().last(), r),
{
    match db.send_query(list_query(completed, pending)) {
        Ok(todos) => Ok(Outcome::Listed { todos }),
        Err(e) => Err(store_error(e)),
    }
}

/// Marks the record of this id completed; reports it when a row changed,
/// else that no record has the id.
pub fn complete_todo(db: &mut Database, id: i64) -> (r: Result<Outcome, StoreError>)
    ensures
        final(db).sent() == old(db).sent().push(
            Sent { sql: complete_sql(), args: seq![SqlArg::Int(id)] },
        ),
        one_more_answer(old(db).answers(), final(db).answers()),
        complete_reports(id, final(db).answers().last(), r),
{
    match db.send_with_id(complete_statement(), id) {
        Ok(n) => Ok(completion_outcome(id, n)),
        Err(e) => Err(store_error(e)),
    }
}

/// Removes the record of this id; reports it when a row went, else that no
/// record has the id.
pub fn delete_todo(db: &mut Database, id: i64) -> (r: Result<Outcome, StoreError>)
    ensures
        final(db).sent() == old(db).sent().push(
            Sent { sql: delete_sql(), args: seq![SqlArg::Int(id)] },
        ),
        one_more_answer(old(db).answers(), final(db).answers()),
        delete_reports(id, final(db).answers().last(), r),
{
    match db.send_with_id(delete_statement(), id) {
        Ok(n) => Ok(deletion_outcome(id, n)),
        Err(e) => Err(store_error(e)),
    }
}

/// Gives the record of this id a new description; reports it when a row
/// changed, else that no record has the id.
pub fn update_todo(db: &mut Database, id: i64, description: &str) -> (r: Result<
    Outcome,
    StoreError,
>)
    ensures
        final(db).sent() == old(db).sent().push(
            Sent { sql: update_sql(), args: seq![SqlArg::Text(description@), SqlArg::Int(id)] },
        ),
        one_more_answer(old(db).answers(), final(db).answers()),
        update_reports(id, description@, final(db).answers().last(), r),
{
    match db.send_with_text_and_id(update_statement(), description, id) {
        Ok(n) => Ok(update_outcome(id, description, n)),
        Err(e) => Err(store_error(e)),
    }
}

/// Runs one command against the database: sends exactly the statement of
/// that command, and returns what that command reports for the answer.
pub fn run_command(db: &mut Database, cmd: &Command) -> (r: Result<Outcome, StoreError>)
    ensures
        final(db).sent() == old(db).sent().push(command_sent(cmd)),
        one_more_answer(old(db).answers(), final(db).answers()),
        command_reports(cmd, final(db).answers().last(), r),
{
    match cmd {
        Command::Add { description } => add_todo(db, description.as_str()),
        Command::List { completed, pending } => list_todos(db, *completed, *pending),
        Command::Complete { id } => complete_todo(db, *id),
        Command::Delete { id } => delete_todo(db, *id),
        Command::Update { id, description } => update_todo(db, *id, description.as_str()),
    }
}

} // verus!
