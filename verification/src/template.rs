//! The fixed template set and line rendering. Every line is the
//! timestamp, one of five severity templates, the global line counter
//! and a trailing newline; `spec_line` is the grammar, `render_line`
//! produces exactly it.

use vstd::prelude::*;

use crate::digits::{spec_digits, u64_to_string};
use crate::timefmt::{format_timestamp, timestamp_text, TS_MS_LIMIT};

verus! {

/// How many severity templates there are.
pub const TEMPLATE_COUNT: u64 = 5;

/// The severity label of template `t`: one of the five known levels.
pub open spec fn severity_label(t: int) -> Seq<char> {
    if t == 0 {
        "TRACE"@
    } else if t == 1 {
        "DEBUG"@
    } else if t == 2 {
        "INFO"@
    } else if t == 3 {
        "WARN"@
    } else {
        "ERROR"@
    }
}

/// The fixed message text of template `t`, between the severity label
/// and the line counter.
pub open spec fn severity_message(t: int) -> Seq<char> {
    if t == 0 {
        " This is a trace message. Its line number "@
    } else if t == 1 {
        " This is a debug message. Its line number "@
    } else if t == 2 {
        " This is an info message. Its line number "@
    } else if t == 3 {
        " This is a warning message. Its line number "@
    } else {
        " This is an error message. Its line number "@
    }
}

/// The full text of one line: timestamp, space, severity label, the
/// template's message, the counter in decimal, newline.
pub open spec fn spec_line(ms: int, t: int, counter: nat) -> Seq<char> {
    timestamp_text(ms) + " "@ + severity_label(t) + severity_message(t) + spec_digits(counter)
        + "\n"@
}

/// The severity label of template `t`, as executable text.
fn severity_label_str(t: u64) -> (r: &'static str)
    requires
        t < TEMPLATE_COUNT,
    ensures
        r@ == severity_label(t as int),
{
    match t {
        0 => "TRACE",
        1 => "DEBUG",
        2 => "INFO",
        3 => "WARN",
        _ => "ERROR",
    }
}

/// The fixed message text of template `t`, as executable text.
fn severity_message_str(t: u64) -> (r: &'static str)
    requires
        t < TEMPLATE_COUNT,
    ensures
        r@ == severity_message(t as int),
{
    match t {
        0 => " This is a trace message. Its line number ",
        1 => " This is a debug message. Its line number ",
        2 => " This is an info message. Its line number ",
        3 => " This is a warning message. Its line number ",
        _ => " This is an error message. Its line number ",
    }
}

/// Renders one log line: exactly the text `spec_line` gives for this
/// instant, template and counter.
pub fn render_line(ms: i64, t: u64, counter: u64) -> (r: String)
    requires
        t < TEMPLATE_COUNT,
        -TS_MS_LIMIT <= ms <= TS_MS_LIMIT,
    ensures
        r@ == spec_line(ms as int, t as int, counter as nat),
{
    let mut line = format_timestamp(ms);
    line.append(" ");
    line.append(severity_label_str(t));
    line.append(severity_message_str(t));
    let digits = u64_to_string(counter);
    line.append(digits.as_str());
    line.append("\n");
    assert(line@ =~= spec_line(ms as int, t as int, counter as nat));
    line
}

} // verus!
