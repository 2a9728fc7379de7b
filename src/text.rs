//! The text shown for numbers, records and listings.

use vstd::prelude::*;
use crate::model::{Todo, TodoRow};

verus! {

/// The character of a decimal digit.
pub open spec fn digit_char(d: nat) -> char {
    if d == 0 {
        '0'
    } else if d == 1 {
        '1'
    } else if d == 2 {
        '2'
    } else if d == 3 {
        '3'
    } else if d == 4 {
        '4'
    } else if d == 5 {
        '5'
    } else if d == 6 {
        '6'
    } else if d == 7 {
        '7'
    } else if d == 8 {
        '8'
    } else {
        '9'
    }
}

/// The decimal digits of `n`, most significant first, without leading zeros.
pub open spec fn digits(n: nat) -> Seq<char>
    decreases n,
{
    if n < 10 {
        seq![digit_char(n)]
    } else {
        digits(n / 10).push(digit_char(n % 10))
    }
}

/// `n` written in decimal, with a leading minus sign when negative.
pub open spec fn decimal(n: int) -> Seq<char> {
    if n < 0 {
        seq!['-'] + digits((-n) as nat)
    } else {
        digits(n as nat)
    }
}

/// `s` followed by spaces up to `width` characters; `s` itself when it is
/// that long already.
pub open spec fn pad_right(s: Seq<char>, width: nat) -> Seq<char> {
    if s.len() >= width {
        s
    } else {
        s + Seq::new((width - s.len()) as nat, |i: int| ' ')
    }
}

/// The width of the id column in a listing.
pub const ID_WIDTH: usize = 3;

/// The number of characters in the rules above and below a listing.
pub const RULE_WIDTH: usize = 60;

/// A horizontal rule of box-drawing characters.
pub open spec fn rule() -> Seq<char> {
    Seq::new(RULE_WIDTH as nat, |i: int| '─')
}

/// The line that shows one record: a check mark and grey text when it is
/// completed, a blank box otherwise.
pub open spec fn item_line(r: TodoRow) -> Seq<char> {
    if r.completed {
        "\x1b[90m[✓] #"@ + pad_right(decimal(r.id as int), ID_WIDTH as nat) + " "@
            + r.description + "\x1b[0m"@
    } else {
        "[ ] #"@ + pad_right(decimal(r.id as int), ID_WIDTH as nat) + " "@ + r.description
    }
}

/// The footer of a listing of `n` records.
pub open spec fn total_line(n: int) -> Seq<char> {
    "Total: "@ + decimal(n) + " items\n"@
}

/// The heading of a listing.
pub open spec fn heading() -> Seq<char> {
    "\n📋 Todo List:"@
}

/// The lines of a listing of these records, in order.
pub open spec fn listing(rows: Seq<TodoRow>) -> Seq<Seq<char>> {
    seq![heading(), rule()] + rows.map_values(|r: TodoRow| item_line(r)) + seq![
        rule(),
        total_line(rows.len() as int),
    ]
}

/// The line that reports an addition.
pub open spec fn added_line(id: i64, d: Seq<char>) -> Seq<char> {
    "✓ Added todo #"@ + decimal(id as int) + ": "@ + d
}

/// The line that reports a record marked completed.
pub open spec fn completed_line(id: i64) -> Seq<char> {
    "✓ Marked todo #"@ + decimal(id as int) + " as complete"@
}

/// The line that reports a deletion.
pub open spec fn deleted_line(id: i64) -> Seq<char> {
    "✓ Deleted todo #"@ + decimal(id as int)
}

/// The line that reports a new description.
pub open spec fn updated_line(id: i64, d: Seq<char>) -> Seq<char> {
    "✓ Updated todo #"@ + decimal(id as int) + ": "@ + d
}

/// The line that reports an id that no record carries.
pub open spec fn not_found_line(id: i64) -> Seq<char> {
    "✗ Todo #"@ + decimal(id as int) + " not found"@
}

/// The views of a sequence of strings.
pub open spec fn texts(v: Seq<String>) -> Seq<Seq<char>> {
    v.map_values(|s: String| s@)
}

fn digit_str(d: u64) -> (s: &'static str)
    requires
        d < 10,
    ensures
        s@ == seq![digit_char(d as nat)],
{
    proof {
        reveal_strlit("0");
        reveal_strlit("1");
        reveal_strlit("2");
        reveal_strlit("3");
        reveal_strlit("4");
        reveal_strlit("5");
        reveal_strlit("6");
        reveal_strlit("7");
        reveal_strlit("8");
        reveal_strlit("9");
    }
    if d == 0 {
        "0"
    } else if d == 1 {
        "1"
    } else if d == 2 {
        "2"
    } else if d == 3 {
        "3"
    } else if d == 4 {
        "4"
    } else if d == 5 {
        "5"
    } else if d == 6 {
        "6"
    } else if d == 7 {
        "7"
    } else if d == 8 {
        "8"
    } else {
        "9"
    }
}

fn digits_text(n: u64) -> (s: String)
    ensures
        s@ == digits(n as nat),
    decreases n,
{
    if n < 10 {
        String::from_str(digit_str(n))
    } else {
        let mut s = digits_text(n / 10);
        s.append(digit_str(n % 10));
        s
    }
}

/// `n` in decimal, as in `#-5` or `#42`.
pub fn decimal_text(n: i64) -> (s: String)
    ensures
        s@ == decimal(n as int),
{
    if n < 0 {
        let magnitude: u64 = if n == i64::MIN {
            9223372036854775808u64
        } else {
            (-n) as u64
        };
        let mut s = String::from_str("-");
        proof {
            reveal_strlit("-");
        }
        let tail = digits_text(magnitude);
        s.append(tail.as_str());
        s
    } else {
        digits_text(n as u64)
    }
}

/// `s` followed by spaces up to `width` characters.
pub fn pad_right_text(s: String, width: usize) -> (r: String)
    ensures
        r@ == pad_right(s@, width as nat),
{
    let len = s.as_str().unicode_len();
    if len >= width {
        return s;
    }
    let mut r = s;
    let mut k: usize = len;
    while k < width
        invariant
            len == s@.len(),
            len <= k <= width,
            r@ == s@ + Seq::new((k - len) as nat, |i: int| ' '),
        decreases width - k,
    {
        r.append(" ");
        proof {
            reveal_strlit(" ");
        }
        assert(r@ =~= s@ + Seq::new((k + 1 - len) as nat, |i: int| ' '));
        k = k + 1;
    }
    r
}

/// A horizontal rule.
pub fn rule_text() -> (r: String)
    ensures
        r@ == rule(),
{
    let mut r = String::new();
    let mut k: usize = 0;
    while k < RULE_WIDTH
        invariant
            k <= RULE_WIDTH,
            r@ == Seq::new(k as nat, |i: int| '─'),
        decreases RULE_WIDTH - k,
    {
        r.append("─");
        proof {
            reveal_strlit("─");
        }
        assert(r@ =~= Seq::new((k + 1) as nat, |i: int| '─'));
        k = k + 1;
    }
    r
}

/// A count in decimal.
pub fn count_text(n: usize) -> (s: String)
    ensures
        s@ == decimal(n as int),
{
    digits_text(n as u64)
}

/// The line that shows one record in a listing.
pub fn item_line_text(t: &Todo) -> (s: String)
    ensures
        s@ == item_line(t@),
{
    let id = pad_right_text(decimal_text(t.id), ID_WIDTH);
    let mut s = if t.completed {
        String::from_str("\x1b[90m[✓] #")
    } else {
        String::from_str("[ ] #")
    };
    s.append(id.as_str());
    s.append(" ");
    s.append(t.description.as_str());
    if t.completed {
        s.append("\x1b[0m");
    }
    assert(s@ =~= item_line(t@));
    s
}

/// The footer of a listing of `n` records.
pub fn total_line_text(n: usize) -> (s: String)
    ensures
        s@ == total_line(n as int),
{
    let mut s = String::from_str("Total: ");
    let count = count_text(n);
    s.append(count.as_str());
    s.append(" items\n");
    s
}

/// `head`, then the decimal text of `id`, then `tail`.
fn around_id(head: &str, id: i64, tail: &str) -> (s: String)
    ensures
        s@ == head@ + decimal(id as int) + tail@,
{
    let mut s = String::from_str(head);
    let n = decimal_text(id);
    s.append(n.as_str());
    s.append(tail);
    s
}

/// The line that reports an addition.
pub fn added_line_text(id: i64, d: &str) -> (s: String)
    ensures
        s@ == added_line(id, d@),
{
    let mut s = around_id("✓ Added todo #", id, ": ");
    s.append(d);
    s
}

/// The line that reports a record marked completed.
pub fn completed_line_text(id: i64) -> (s: String)
    ensures
        s@ == completed_line(id),
{
    around_id("✓ Marked todo #", id, " as complete")
}

/// The line that reports a deletion.
pub fn deleted_line_text(id: i64) -> (s: String)
    ensures
        s@ == deleted_line(id),
{
    let s = around_id("✓ Deleted todo #", id, "");
    proof {
        reveal_strlit("");
    }
    assert(s@ =~= deleted_line(id));
    s
}

/// The line that reports a new description.
pub fn updated_line_text(id: i64, d: &str) -> (s: String)
    ensures
        s@ == updated_line(id, d@),
{
    let mut s = around_id("✓ Updated todo #", id, ": ");
    s.append(d);
    s
}

/// The line that reports an id that no record carries.
pub fn not_found_line_text(id: i64) -> (s: String)
    ensures
        s@ == not_found_line(id),
{
    around_id("✗ Todo #", id, " not found")
}

} // verus!
