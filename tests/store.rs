use todo_cli::model::{Filter, list_filter};
use todo_cli::outcome::{
    Command, Outcome, completion_outcome, deletion_outcome, listing_text, render, update_outcome,
};
use todo_cli::store::TodoStore;

fn lines(o: &Outcome) -> Vec<String> {
    render(o)
}

fn rule() -> String {
    "─".repeat(60)
}

#[test]
fn filter_selection() {
    assert_eq!(list_filter(false, false), Filter::All);
    assert_eq!(list_filter(true, false), Filter::Completed);
    assert_eq!(list_filter(false, true), Filter::Pending);
    assert_eq!(list_filter(true, true), Filter::All);
}

#[test]
fn empty_listing() {
    let s = TodoStore::new();
    let todos = s.list(false, false);
    assert!(todos.is_empty());
    let out = listing_text(&todos);
    assert_eq!(out, vec!["\n📋 Todo List:".to_string(), rule(), rule(), "Total: 0 items\n".to_string()]);
}

#[test]
fn add_then_list_shows_one_new_pending_row() {
    let mut s = TodoStore::new();
    s.add("a");
    let before = s.list(false, false).len();
    let id = s.add("fresh").unwrap();
    let after = s.list(false, false);
    assert_eq!(after.len(), before + 1);
    let new: Vec<_> = after.iter().filter(|t| t.id == id).collect();
    assert_eq!(new.len(), 1);
    assert_eq!(new[0].description, "fresh");
    assert!(!new[0].completed);
}

#[test]
fn ids_increase_and_are_not_reused() {
    let mut s = TodoStore::new();
    let a = s.add("a").unwrap();
    let b = s.add("b").unwrap();
    assert!(a < b);
    assert!(s.delete(b));
    let c = s.add("c").unwrap();
    assert!(c > b);
    assert_eq!((a, b, c), (1, 2, 3));
}

#[test]
fn complete_twice_succeeds_both_times() {
    let mut s = TodoStore::new();
    let id = s.add("x").unwrap();
    assert!(s.complete(id));
    assert!(s.complete(id));
    let all = s.list(false, false);
    assert_eq!(all.len(), 1);
    assert!(all[0].completed);
}

#[test]
fn operations_after_delete_report_not_found() {
    let mut s = TodoStore::new();
    let id = s.add("x").unwrap();
    assert!(s.delete(id));
    assert!(!s.complete(id));
    assert!(!s.delete(id));
    assert!(!s.update(id, "y"));
    let o = s.run(&Command::Update { id, description: "y".to_string() }).unwrap();
    assert!(matches!(o, Outcome::NotFound { id: 1 }));
}

#[test]
fn filtered_listings() {
    let mut s = TodoStore::new();
    s.add("a");
    s.add("b");
    s.add("c");
    s.complete(2);
    let all: Vec<i64> = s.list(false, false).iter().map(|t| t.id).collect();
    let done: Vec<i64> = s.list(true, false).iter().map(|t| t.id).collect();
    let open: Vec<i64> = s.list(false, true).iter().map(|t| t.id).collect();
    let both: Vec<i64> = s.list(true, true).iter().map(|t| t.id).collect();
    assert_eq!(all, vec![1, 2, 3]);
    assert_eq!(done, vec![2]);
    assert_eq!(open, vec![1, 3]);
    assert_eq!(both, all);
}

#[test]
fn update_then_list_keeps_id_and_state() {
    let mut s = TodoStore::new();
    s.add("a");
    s.add("b");
    s.complete(2);
    assert!(s.update(2, "new text"));
    let all = s.list(false, false);
    assert_eq!(all[1].id, 2);
    assert_eq!(all[1].description, "new text");
    assert!(all[1].completed);
    assert_eq!(all[0].description, "a");
}

#[test]
fn outcomes_from_counts() {
    assert!(matches!(completion_outcome(3, 1), Outcome::Completed { id: 3 }));
    assert!(matches!(completion_outcome(3, 0), Outcome::NotFound { id: 3 }));
    assert!(matches!(deletion_outcome(4, 1), Outcome::Deleted { id: 4 }));
    assert!(matches!(deletion_outcome(4, 0), Outcome::NotFound { id: 4 }));
    match update_outcome(5, "t", 1) {
        Outcome::Updated { id, description } => {
            assert_eq!(id, 5);
            assert_eq!(description, "t");
        }
        other => panic!("unexpected {:?}", other),
    }
    assert!(matches!(update_outcome(5, "t", 0), Outcome::NotFound { id: 5 }));
}

#[test]
fn memory_session_walkthrough() {
    let mut s = TodoStore::new();
    let o = s.run(&Command::List { completed: false, pending: false }).unwrap();
    let out = lines(&o);
    assert_eq!(out[0], "\n📋 Todo List:");
    assert_eq!(out[out.len() - 1], "Total: 0 items\n");
    assert_eq!(out.len(), 4);

    let o = s.run(&Command::Add { description: "buy milk".to_string() }).unwrap();
    assert_eq!(lines(&o), vec!["✓ Added todo #1: buy milk".to_string()]);
    let o = s.run(&Command::Add { description: "walk dog".to_string() }).unwrap();
    assert_eq!(lines(&o), vec!["✓ Added todo #2: walk dog".to_string()]);
    let o = s.run(&Command::Complete { id: 1 }).unwrap();
    assert_eq!(lines(&o), vec!["✓ Marked todo #1 as complete".to_string()]);
    let o = s.run(&Command::List { completed: false, pending: true }).unwrap();
    assert_eq!(
        lines(&o),
        vec![
            "\n📋 Todo List:".to_string(),
            rule(),
            "[ ] #2   walk dog".to_string(),
            rule(),
            "Total: 1 items\n".to_string(),
        ]
    );
    let o = s.run(&Command::Delete { id: 1 }).unwrap();
    assert_eq!(lines(&o), vec!["✓ Deleted todo #1".to_string()]);
    let o = s.run(&Command::Complete { id: 1 }).unwrap();
    assert_eq!(lines(&o), vec!["✗ Todo #1 not found".to_string()]);
}

#[test]
fn completed_row_renders_dimmed_in_listing() {
    let mut s = TodoStore::new();
    s.add("buy milk");
    s.complete(1);
    let o = s.run(&Command::List { completed: true, pending: false }).unwrap();
    assert_eq!(lines(&o)[2], "\x1b[90m[✓] #1   buy milk\x1b[0m");
}
