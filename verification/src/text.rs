//! Plain-text rendering: decimal numbers, the not-found message, and the
//! metric exposition body.

use vstd::prelude::*;
use vstd::string::StringExecFns;

verus! {

/// The decimal digit character for `d` (meaningful for `d < 10`).
pub open spec fn digit_char(d: nat) -> char {
    if d == 0 {
        '0'
    } else if d == 1 {
        '1'
    } else if d == 2 {
        '2'
    } else if d == 3 {
        '3'
    } else if d == 4 {
        '4'
    } else if d == 5 {
        '5'
    } else if d == 6 {
        '6'
    } else if d == 7 {
        '7'
    } else if d == 8 {
        '8'
    } else {
        '9'
    }
}

/// The decimal representation of `n`, without sign or leading zeros.
pub open spec fn dec_rep(n: nat) -> Seq<char>
    decreases n,
{
    if n < 10 {
        seq![digit_char(n)]
    } else {
        dec_rep(n / 10).push(digit_char(n % 10))
    }
}

/// The one-character string for the decimal digit `d`.
fn digit_str(d: usize) -> (r: &'static str)
    requires
        d < 10,
    ensures
        r@ == seq![digit_char(d as nat)],
{
    proof {
        reveal_strlit("0");
        reveal_strlit("1");
        reveal_strlit("2");
        reveal_strlit("3");
        reveal_strlit("4");
        reveal_strlit("5");
        reveal_strlit("6");
        reveal_strlit("7");
        reveal_strlit("8");
        reveal_strlit("9");
    }
    let r: &'static str = match d {
        0 => "0",
        1 => "1",
        2 => "2",
        3 => "3",
        4 => "4",
        5 => "5",
        6 => "6",
        7 => "7",
        8 => "8",
        _ => "9",
    };
    proof {
        assert(r@ =~= seq![digit_char(d as nat)]);
    }
    r
}

/// Renders `n` in decimal.
pub fn render_usize(n: usize) -> (r: String)
    ensures
        r@ == dec_rep(n as nat),
    decreases n,
{
    let d: usize = n % 10;
    if n < 10 {
        digit_str(d).to_owned()
    } else {
        let mut r = render_usize(n / 10);
        r.append(digit_str(d));
        r
    }
}

/// The error message reported when no live record has the identifier `id`.
pub open spec fn not_found_text(id: Seq<char>) -> Seq<char> {
    "Task with id "@ + id + " not found"@
}

/// Builds the not-found error message for `id`.
pub fn not_found_message(id: &String) -> (r: String)
    ensures
        r@ == not_found_text(id@),
{
    let mut r = String::from_str("Task with id ");
    r.append(id.as_str());
    r.append(" not found");
    r
}

/// The metric exposition body: three metric blocks, each a help line, a type
/// line and a value line, separated by blank lines.
pub open spec fn metrics_text(total: nat, completed: nat, pending: nat) -> Seq<char> {
    "# HELP tasks_total Total number of tasks\n# TYPE tasks_total counter\ntasks_total "@
        + dec_rep(total)
        + "\n\n# HELP tasks_completed Number of completed tasks\n# TYPE tasks_completed gauge\ntasks_completed "@
        + dec_rep(completed)
        + "\n\n# HELP tasks_pending Number of pending tasks\n# TYPE tasks_pending gauge\ntasks_pending "@
        + dec_rep(pending) + "\n"@
}

/// Renders the metric exposition body for the given counts.
pub fn render_metrics(total: usize, completed: usize, pending: usize) -> (r: String)
    ensures
        r@ == metrics_text(total as nat, completed as nat, pending as nat),
{
    let mut r = String::from_str(
        "# HELP tasks_total Total number of tasks\n# TYPE tasks_total counter\ntasks_total ",
    );
    r.append(render_usize(total).as_str());
    r.append(
        "\n\n# HELP tasks_completed Number of completed tasks\n# TYPE tasks_completed gauge\ntasks_completed ",
    );
    r.append(render_usize(completed).as_str());
    r.append(
        "\n\n# HELP tasks_pending Number of pending tasks\n# TYPE tasks_pending gauge\ntasks_pending ",
    );
    r.append(render_usize(pending).as_str());
    r.append("\n");
    r
}

} // verus!
