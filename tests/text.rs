use todo_cli::model::Todo;
use todo_cli::text::{
    added_line_text, completed_line_text, count_text, decimal_text, deleted_line_text,
    item_line_text, not_found_line_text, pad_right_text, rule_text, total_line_text,
    updated_line_text,
};

#[test]
fn decimal_of_zero_and_positive() {
    assert_eq!(decimal_text(0), "0");
    assert_eq!(decimal_text(7), "7");
    assert_eq!(decimal_text(42), "42");
    assert_eq!(decimal_text(1000), "1000");
}

#[test]
fn decimal_of_negative_and_extremes() {
    assert_eq!(decimal_text(-5), "-5");
    assert_eq!(decimal_text(i64::MAX), "9223372036854775807");
    assert_eq!(decimal_text(i64::MIN), "-9223372036854775808");
}

#[test]
fn count_in_decimal() {
    assert_eq!(count_text(0), "0");
    assert_eq!(count_text(123), "123");
}

#[test]
fn padding_to_width() {
    assert_eq!(pad_right_text("1".to_string(), 3), "1  ");
    assert_eq!(pad_right_text("12".to_string(), 3), "12 ");
    assert_eq!(pad_right_text("1234".to_string(), 3), "1234");
    assert_eq!(pad_right_text(String::new(), 2), "  ");
}

#[test]
fn rule_is_sixty_box_characters() {
    let r = rule_text();
    assert_eq!(r.chars().count(), 60);
    assert!(r.chars().all(|c| c == '─'));
}

#[test]
fn pending_item_line() {
    let t = Todo { id: 2, description: "walk dog".to_string(), completed: false };
    assert_eq!(item_line_text(&t), "[ ] #2   walk dog");
}

#[test]
fn completed_item_line_is_dimmed() {
    let t = Todo { id: 1, description: "buy milk".to_string(), completed: true };
    assert_eq!(item_line_text(&t), "\x1b[90m[✓] #1   buy milk\x1b[0m");
}

#[test]
fn wide_id_is_not_cut() {
    let t = Todo { id: 12345, description: "x".to_string(), completed: false };
    assert_eq!(item_line_text(&t), "[ ] #12345 x");
}

#[test]
fn footer_line() {
    assert_eq!(total_line_text(0), "Total: 0 items\n");
    assert_eq!(total_line_text(3), "Total: 3 items\n");
}

#[test]
fn message_lines() {
    assert_eq!(added_line_text(1, "buy milk"), "✓ Added todo #1: buy milk");
    assert_eq!(completed_line_text(3), "✓ Marked todo #3 as complete");
    assert_eq!(deleted_line_text(4), "✓ Deleted todo #4");
    assert_eq!(updated_line_text(5, "new text"), "✓ Updated todo #5: new text");
    assert_eq!(not_found_line_text(9), "✗ Todo #9 not found");
    assert_eq!(not_found_line_text(-1), "✗ Todo #-1 not found");
}

#[test]
fn empty_description_is_kept() {
    assert_eq!(added_line_text(1, ""), "✓ Added todo #1: ");
}
