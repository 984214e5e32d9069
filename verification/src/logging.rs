//! How logging is set up from the process environment, and how a log line is
//! laid out in the line-wrapped (Phoenix) mode.

use vstd::prelude::*;
use vstd::string::*;
use std::str::FromStr;
use crate::text::{decimal, owned, push_decimal, str_eq};

verus! {

/// Where log lines go and how they look.
#[derive(Debug, Clone, Copy, PartialEq, Eq, Structural)]
pub enum LogMode {
    /// Colored lines for an interactive terminal.
    Cli,
    /// Plain lines, wrapped at a maximum width.
    Phoenix,
}

/// The least severe level that is logged (`Off`: nothing is).
#[derive(Debug, Clone, Copy, PartialEq, Eq, Structural)]
pub enum LogLevel {
    Off,
    Error,
    Warn,
    Info,
    Debug,
    Trace,
}

/// The mode that `RUST_LOG_MODE` selects: Phoenix for `"phoenix"`, the
/// terminal mode otherwise (also when it is not set).
pub open spec fn log_mode_spec(value: Option<String>) -> LogMode {
    match value {
        Some(v) => if v@ == "phoenix"@ { LogMode::Phoenix } else { LogMode::Cli },
        None => LogMode::Cli,
    }
}

/// The logging mode for the value of `RUST_LOG_MODE`.
pub fn get_log_mode(value: &Option<String>) -> (r: LogMode)
    ensures
        r == log_mode_spec(*value),
{
    match value {
        Some(v) => if str_eq(v.as_str(), "phoenix") { LogMode::Phoenix } else { LogMode::Cli },
        None => LogMode::Cli,
    }
}

pub open spec fn ascii_lower(c: char) -> char {
    if 65 <= (c as u32) <= 90 { ((c as u32) + 32) as char } else { c }
}

/// Equal up to the case of ASCII letters.
pub open spec fn same_ignoring_ascii_case(a: Seq<char>, b: Seq<char>) -> bool {
    a.len() == b.len() && forall|i: int| 0 <= i < a.len() ==> ascii_lower(#[trigger] a[i]) == ascii_lower(b[i])
}

/// The level whose name (`OFF`, `ERROR`, `WARN`, `INFO`, `DEBUG`, `TRACE`)
/// `s` spells, ignoring ASCII case.
pub open spec fn level_named(s: Seq<char>) -> Option<LogLevel> {
    if same_ignoring_ascii_case("OFF"@, s) { Some(LogLevel::Off) }
    else if same_ignoring_ascii_case("ERROR"@, s) { Some(LogLevel::Error) }
    else if same_ignoring_ascii_case("WARN"@, s) { Some(LogLevel::Warn) }
    else if same_ignoring_ascii_case("INFO"@, s) { Some(LogLevel::Info) }
    else if same_ignoring_ascii_case("DEBUG"@, s) { Some(LogLevel::Debug) }
    else if same_ignoring_ascii_case("TRACE"@, s) { Some(LogLevel::Trace) }
    else { None }
}

/// `log::LevelFilter::from_str`: the crate compares `s`, ignoring ASCII
/// case, with the level names `OFF`, `ERROR`, `WARN`, `INFO`, `DEBUG`,
/// `TRACE` in this order and takes the first that matches.
#[verifier::external_body]
pub(crate) fn parse_level_filter(s: &str) -> (r: Option<LogLevel>)
    ensures
        r == level_named(s@),
{
    match log::LevelFilter::from_str(s) {
        Ok(log::LevelFilter::Off) => Some(LogLevel::Off),
        Ok(log::LevelFilter::Error) => Some(LogLevel::Error),
        Ok(log::LevelFilter::Warn) => Some(LogLevel::Warn),
        Ok(log::LevelFilter::Info) => Some(LogLevel::Info),
        Ok(log::LevelFilter::Debug) => Some(LogLevel::Debug),
        Ok(log::LevelFilter::Trace) => Some(LogLevel::Trace),
        Err(_) => None,
    }
}

/// The level that `RUST_LOG` selects: `"info"` when unset, and `Info` when
/// the value names no level.
pub open spec fn log_level_spec(value: Option<String>) -> LogLevel {
    let name = match value {
        Some(v) => v@,
        None => "info"@,
    };
    match level_named(name) {
        Some(l) => l,
        None => LogLevel::Info,
    }
}

/// The logging level for the value of `RUST_LOG`.
pub fn log_level(value: &Option<String>) -> (r: LogLevel)
    ensures
        r == log_level_spec(*value),
{
    let parsed = match value {
        Some(v) => parse_level_filter(v.as_str()),
        None => parse_level_filter("info"),
    };
    match parsed {
        Some(l) => l,
        None => LogLevel::Info,
    }
}

pub open spec fn is_ascii_digit(c: char) -> bool {
    48 <= (c as u32) <= 57
}

/// The value of a string of decimal digits.
pub open spec fn digits_value(s: Seq<char>) -> int
    decreases s.len(),
{
    if s.len() == 0 {
        0
    } else {
        digits_value(s.drop_last()) * 10 + ((s.last() as u32) - 48)
    }
}

/// What `usize::from_str` accepts: an optional `+` followed by at least one
/// ASCII digit, with a value that fits a `usize`.
pub open spec fn parsed_usize(s: Seq<char>) -> Option<usize> {
    let d = if s.len() > 0 && s[0] == '+' { s.skip(1) } else { s };
    if d.len() > 0 && (forall|i: int| 0 <= i < d.len() ==> is_ascii_digit(#[trigger] d[i]))
        && digits_value(d) <= usize::MAX {
        Some(digits_value(d) as usize)
    } else {
        None
    }
}

/// `usize::from_str`: an optional `+`, then decimal digits, the value
/// fitting a `usize`; anything else is refused.
#[verifier::external_body]
pub(crate) fn parse_usize(s: &str) -> (r: Option<usize>)
    ensures
        r == parsed_usize(s@),
{
    usize::from_str(s).ok()
}

/// The line width that `RUST_LOG_MAXWIDTH` selects: its value when it is a
/// number, 100 otherwise.
pub open spec fn max_width_spec(value: Option<String>) -> usize {
    match value {
        Some(v) => match parsed_usize(v@) {
            Some(n) => n,
            None => 100,
        },
        None => 100,
    }
}

/// The line width for the value of `RUST_LOG_MAXWIDTH`.
pub fn log_max_width(value: &Option<String>) -> (r: usize)
    ensures
        r == max_width_spec(*value),
{
    match value {
        Some(v) => match parse_usize(v.as_str()) {
            Some(n) => n,
            None => 100,
        },
        None => 100,
    }
}

/// How logging is set up.
#[derive(Debug, Clone, Copy, PartialEq, Eq, Structural)]
pub struct LogSettings {
    pub mode: LogMode,
    pub level: LogLevel,
    /// The line width of the Phoenix mode (unused by the terminal mode).
    pub max_width: usize,
}

/// The logging set-up for the values of `RUST_LOG_MODE`, `RUST_LOG` and
/// `RUST_LOG_MAXWIDTH`.
pub fn init_log(log_mode: &Option<String>, rust_log: &Option<String>, max_width: &Option<String>) -> (r: LogSettings)
    ensures
        r.mode == log_mode_spec(*log_mode),
        r.level == log_level_spec(*rust_log),
        r.max_width == max_width_spec(*max_width),
{
    LogSettings {
        mode: get_log_mode(log_mode),
        level: log_level(rust_log),
        max_width: log_max_width(max_width),
    }
}

/// A Phoenix-mode log entry: `[<time>] <file>:<line> [<LEVEL>] - <message>`,
/// with `unknown` and `0` for an unknown file and line.
pub open spec fn phoenix_entry_spec(
    timestamp: Seq<char>,
    file: Option<Seq<char>>,
    line: Option<u32>,
    level: Seq<char>,
    message: Seq<char>,
) -> Seq<char> {
    "["@ + timestamp + "] "@ + (match file { Some(f) => f, None => "unknown"@ }) + ":"@
        + decimal((match line { Some(l) => l, None => 0 }) as int) + " ["@ + level + "] - "@ + message
}

/// Lays out a Phoenix-mode log entry.
pub fn phoenix_entry(timestamp: &str, file: Option<&str>, line: Option<u32>, level: &str, message: &str) -> (r: String)
    ensures
        r@ == phoenix_entry_spec(timestamp@, match file { Some(f) => Some(f@), None => None }, line, level@, message@),
{
    let mut r = owned("[");
    r.append(timestamp);
    r.append("] ");
    match file {
        Some(f) => r.append(f),
        None => r.append("unknown"),
    }
    r.append(":");
    let l: u32 = match line {
        Some(l) => l,
        None => 0,
    };
    push_decimal(&mut r, l as i64);
    r.append(" [");
    r.append(level);
    r.append("] - ");
    r.append(message);
    r
}

/// The pieces of `s` of `width` characters each (the last one possibly
/// shorter), from position `i` on.
pub open spec fn chunks_from(s: Seq<char>, width: nat, i: nat) -> Seq<Seq<char>>
    decreases s.len() - i,
{
    if i >= s.len() || width == 0 {
        Seq::empty()
    } else {
        let end = if i + width <= s.len() { i + width } else { s.len() };
        seq![s.subrange(i as int, end as int)] + chunks_from(s, width, end as nat)
    }
}

/// The lines that a Phoenix-mode entry is written as: the entry cut into
/// pieces of `max_width` characters.
pub fn wrap_log_entry(entry: &str, max_width: usize) -> (r: Vec<String>)
    requires
        max_width > 0,
    ensures
        r@.map_values(|s: String| s@) == chunks_from(entry@, max_width as nat, 0),
{
    let n = entry.unicode_len();
    let mut lines: Vec<String> = Vec::new();
    let mut i: usize = 0;
    assert(lines@.map_values(|s: String| s@) =~= Seq::<Seq<char>>::empty());
    while i < n
        invariant
            n == entry@.len(),
            max_width > 0,
            lines@.map_values(|s: String| s@) + chunks_from(entry@, max_width as nat, i as nat)
                == chunks_from(entry@, max_width as nat, 0),
        decreases n - i,
    {
        let end: usize = if max_width <= n - i { i + max_width } else { n };
        let ghost before = lines@.map_values(|s: String| s@);
        lines.push(owned(entry.substring_char(i, end)));
        assert(lines@.map_values(|s: String| s@) =~= before.push(entry@.subrange(i as int, end as int)));
        let ghost rest = chunks_from(entry@, max_width as nat, end as nat);
        assert(chunks_from(entry@, max_width as nat, i as nat) == seq![entry@.subrange(i as int, end as int)] + rest);
        assert(before + (seq![entry@.subrange(i as int, end as int)] + rest)
            =~= before.push(entry@.subrange(i as int, end as int)) + rest);
        i = end;
    }
    assert(chunks_from(entry@, max_width as nat, i as nat) =~= Seq::<Seq<char>>::empty());
    assert(lines@.map_values(|s: String| s@) + Seq::<Seq<char>>::empty() =~= lines@.map_values(|s: String| s@));
    lines
}


pub open spec fn flatten_lines(lines: Seq<Seq<char>>) -> Seq<char>
    decreases lines.len(),
{
    if lines.len() == 0 { Seq::empty() } else { lines[0] + flatten_lines(lines.drop_first()) }
}

/// Wrapping loses and adds nothing: the pieces, put back together, are the
/// entry; and no piece is longer than the width, nor empty.
pub proof fn lemma_wrapping_keeps_text(s: Seq<char>, width: nat, i: nat)
    requires
        width > 0,
        i <= s.len(),
    ensures
        flatten_lines(chunks_from(s, width, i)) == s.subrange(i as int, s.len() as int),
        forall|k: int| 0 <= k < chunks_from(s, width, i).len()
            ==> 0 < (#[trigger] chunks_from(s, width, i)[k]).len() <= width,
    decreases s.len() - i,
{
    let c = chunks_from(s, width, i);
    if i >= s.len() {
        assert(s.subrange(i as int, s.len() as int) =~= Seq::<char>::empty());
    } else {
        let end: nat = if i + width <= s.len() { i + width } else { s.len() };
        lemma_wrapping_keeps_text(s, width, end);
        let rest = chunks_from(s, width, end);
        assert(c == seq![s.subrange(i as int, end as int)] + rest);
        assert(c.drop_first() =~= rest);
        assert(s.subrange(i as int, end as int) + s.subrange(end as int, s.len() as int) =~= s.subrange(i as int, s.len() as int));
        assert forall|k: int| 0 <= k < c.len() implies 0 < (#[trigger] c[k]).len() <= width by {
            if k > 0 {
                assert(c[k] == rest[k - 1]);
            }
        }
    }
}

} // verus!
