use rusqlite::Connection;
use todo_cli::outcome::{Command, Outcome, render};
use todo_cli::sqlite::{
    Database, add_todo, complete_statement, delete_statement, init_database, insert_statement,
    list_query, list_todos, run_command, schema_statement, update_statement, complete_todo,
    delete_todo, update_todo,
};

fn fresh() -> Database {
    let mut db = Database::new(Connection::open_in_memory().unwrap());
    init_database(&mut db).unwrap();
    db
}

fn listed(o: Outcome) -> Vec<(i64, String, bool)> {
    match o {
        Outcome::Listed { todos } => {
            todos.into_iter().map(|t| (t.id, t.description, t.completed)).collect()
        }
        other => panic!("unexpected {:?}", other),
    }
}

#[test]
fn schema_creation_is_idempotent() {
    let mut db = fresh();
    init_database(&mut db).unwrap();
    init_database(&mut db).unwrap();
    assert!(listed(list_todos(&mut db, false, false).unwrap()).is_empty());
}

#[test]
fn queries_for_flags() {
    assert_eq!(list_query(false, false), "SELECT id, description, completed FROM todos ORDER BY id");
    assert_eq!(list_query(true, true), "SELECT id, description, completed FROM todos ORDER BY id");
    assert_eq!(
        list_query(true, false),
        "SELECT id, description, completed FROM todos WHERE completed = 1 ORDER BY id"
    );
    assert_eq!(
        list_query(false, true),
        "SELECT id, description, completed FROM todos WHERE completed = 0 ORDER BY id"
    );
}

#[test]
fn database_add_reports_assigned_ids() {
    let mut db = fresh();
    let a = add_todo(&mut db, "a").unwrap();
    let b = add_todo(&mut db, "b").unwrap();
    assert!(matches!(a, Outcome::Added { id: 1, .. }));
    assert!(matches!(b, Outcome::Added { id: 2, .. }));
    assert_eq!(
        listed(list_todos(&mut db, false, false).unwrap()),
        vec![(1, "a".to_string(), false), (2, "b".to_string(), false)]
    );
}

#[test]
fn database_ids_not_reused_after_delete() {
    let mut db = fresh();
    add_todo(&mut db, "a").unwrap();
    add_todo(&mut db, "b").unwrap();
    assert!(matches!(delete_todo(&mut db, 2).unwrap(), Outcome::Deleted { id: 2 }));
    assert!(matches!(add_todo(&mut db, "c").unwrap(), Outcome::Added { id: 3, .. }));
}

#[test]
fn database_complete_is_idempotent() {
    let mut db = fresh();
    add_todo(&mut db, "a").unwrap();
    assert!(matches!(complete_todo(&mut db, 1).unwrap(), Outcome::Completed { id: 1 }));
    assert!(matches!(complete_todo(&mut db, 1).unwrap(), Outcome::Completed { id: 1 }));
    assert_eq!(listed(list_todos(&mut db, false, false).unwrap()), vec![(1, "a".to_string(), true)]);
}

#[test]
fn database_not_found_after_delete() {
    let mut db = fresh();
    add_todo(&mut db, "a").unwrap();
    assert!(matches!(delete_todo(&mut db, 1).unwrap(), Outcome::Deleted { id: 1 }));
    assert!(matches!(complete_todo(&mut db, 1).unwrap(), Outcome::NotFound { id: 1 }));
    assert!(matches!(delete_todo(&mut db, 1).unwrap(), Outcome::NotFound { id: 1 }));
    assert!(matches!(update_todo(&mut db, 1, "x").unwrap(), Outcome::NotFound { id: 1 }));
}

#[test]
fn database_filters() {
    let mut db = fresh();
    add_todo(&mut db, "a").unwrap();
    add_todo(&mut db, "b").unwrap();
    add_todo(&mut db, "c").unwrap();
    complete_todo(&mut db, 2).unwrap();
    let mut ids = |c: bool, p: bool| -> Vec<i64> {
        listed(list_todos(&mut db, c, p).unwrap()).into_iter().map(|r| r.0).collect()
    };
    assert_eq!(ids(false, false), vec![1, 2, 3]);
    assert_eq!(ids(true, false), vec![2]);
    assert_eq!(ids(false, true), vec![1, 3]);
    assert_eq!(ids(true, true), vec![1, 2, 3]);
}

#[test]
fn database_update_round_trip() {
    let mut db = fresh();
    add_todo(&mut db, "old").unwrap();
    complete_todo(&mut db, 1).unwrap();
    match update_todo(&mut db, 1, "new text").unwrap() {
        Outcome::Updated { id, description } => {
            assert_eq!(id, 1);
            assert_eq!(description, "new text");
        }
        other => panic!("unexpected {:?}", other),
    }
    assert_eq!(listed(list_todos(&mut db, false, false).unwrap()), vec![(1, "new text".to_string(), true)]);
}

#[test]
fn database_error_without_table() {
    let mut db = Database::new(Connection::open_in_memory().unwrap());
    let err = add_todo(&mut db, "a").unwrap_err();
    assert!(err.source.to_string().contains("no such table"));
    assert!(list_todos(&mut db, false, false).is_err());
}

#[test]
fn database_session_walkthrough() {
    let mut db = fresh();
    let mut show = |cmd: Command| render(&run_command(&mut db, &cmd).unwrap());
    let out = show(Command::List { completed: false, pending: false });
    assert_eq!(out.len(), 4);
    assert_eq!(out[0], "\n📋 Todo List:");
    assert_eq!(out[3], "Total: 0 items\n");
    assert_eq!(show(Command::Add { description: "buy milk".to_string() }), vec!["✓ Added todo #1: buy milk"]);
    assert_eq!(show(Command::Add { description: "walk dog".to_string() }), vec!["✓ Added todo #2: walk dog"]);
    assert_eq!(show(Command::Complete { id: 1 }), vec!["✓ Marked todo #1 as complete"]);
    let out = show(Command::List { completed: false, pending: true });
    assert_eq!(out.len(), 5);
    assert_eq!(out[2], "[ ] #2   walk dog");
    assert_eq!(out[4], "Total: 1 items\n");
    assert_eq!(show(Command::Delete { id: 1 }), vec!["✓ Deleted todo #1"]);
    assert_eq!(show(Command::Complete { id: 1 }), vec!["✗ Todo #1 not found"]);
}

#[test]
fn statements_sent() {
    assert!(schema_statement().starts_with("CREATE TABLE IF NOT EXISTS todos ("));
    assert!(schema_statement().contains("id INTEGER PRIMARY KEY AUTOINCREMENT"));
    assert_eq!(insert_statement(), "INSERT INTO todos (description, completed) VALUES (?1, 0)");
    assert_eq!(complete_statement(), "UPDATE todos SET completed = 1 WHERE id = ?1");
    assert_eq!(delete_statement(), "DELETE FROM todos WHERE id = ?1");
    assert_eq!(update_statement(), "UPDATE todos SET description = ?1 WHERE id = ?2");
}

#[test]
fn database_empty_description_is_stored() {
    let mut db = fresh();
    assert!(matches!(add_todo(&mut db, "").unwrap(), Outcome::Added { id: 1, .. }));
    assert_eq!(listed(list_todos(&mut db, false, false).unwrap()), vec![(1, String::new(), false)]);
}

#[test]
fn database_absent_id_changes_nothing() {
    let mut db = fresh();
    add_todo(&mut db, "a").unwrap();
    assert!(matches!(complete_todo(&mut db, 7).unwrap(), Outcome::NotFound { id: 7 }));
    assert!(matches!(update_todo(&mut db, 7, "z").unwrap(), Outcome::NotFound { id: 7 }));
    assert!(matches!(delete_todo(&mut db, 7).unwrap(), Outcome::NotFound { id: 7 }));
    assert_eq!(listed(list_todos(&mut db, false, false).unwrap()), vec![(1, "a".to_string(), false)]);
}
