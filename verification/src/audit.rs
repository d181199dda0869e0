//! The security-log viewer's filters: which menu choice selects which query,
//! the query text, and the value bound to its parameter.
use vstd::prelude::*;
use crate::text::{trim_spec, chars_of, trim_chars, string_from_chars, str_eq};
use crate::parse::{parse_i64, parse_i64_spec};

verus! {

/// What `str::to_uppercase` gives back (Unicode upper-case mapping).
pub uninterp spec fn uppercase_of(s: Seq<char>) -> Seq<char>;

/// Calls `str::to_uppercase`. The result is named by `uppercase_of`.
#[verifier::external_body]
fn str_to_uppercase(s: &str) -> (r: String)
    ensures
        r@ == uppercase_of(s@),
{
    s.to_uppercase()
}

/// The filter picked from the security-log menu.
#[derive(Debug, Clone, Copy, PartialEq, Eq)]
pub enum LogFilterKind {
    /// `[1]` every entry.
    All,
    /// `[2]` entries whose actor or target is a given user.
    ByUser,
    /// `[3]` entries of a given event type.
    ByEvent,
    /// `[4]` the most recent entries.
    Recent,
    /// `[0]` leave the viewer.
    Cancel,
    /// Anything else.
    Invalid,
}

/// The menu choice, trimmed, selects the filter.
pub open spec fn log_filter_kind_spec(choice: Seq<char>) -> LogFilterKind {
    let c = trim_spec(choice);
    if c == "1"@ {
        LogFilterKind::All
    } else if c == "2"@ {
        LogFilterKind::ByUser
    } else if c == "3"@ {
        LogFilterKind::ByEvent
    } else if c == "4"@ {
        LogFilterKind::Recent
    } else if c == "0"@ {
        LogFilterKind::Cancel
    } else {
        LogFilterKind::Invalid
    }
}

/// Reads the security-log menu choice.
pub fn log_filter_kind(choice: &str) -> (k: LogFilterKind)
    ensures
        k == log_filter_kind_spec(choice@),
{
    let v = chars_of(choice);
    let t = trim_chars(v.as_slice());
    let c = string_from_chars(t.as_slice());
    let cs = c.as_str();
    if str_eq(cs, "1") {
        LogFilterKind::All
    } else if str_eq(cs, "2") {
        LogFilterKind::ByUser
    } else if str_eq(cs, "3") {
        LogFilterKind::ByEvent
    } else if str_eq(cs, "4") {
        LogFilterKind::Recent
    } else if str_eq(cs, "0") {
        LogFilterKind::Cancel
    } else {
        LogFilterKind::Invalid
    }
}

/// The start of every security-log query.
pub open spec fn log_query_base() -> Seq<char> {
    "SELECT timestamp, actor_username, target_username, event_type, description\n         FROM security_log"@
}

/// The clause each filter adds before the closing `;`.
pub open spec fn log_query_clause(kind: LogFilterKind) -> Seq<char> {
    match kind {
        LogFilterKind::ByUser => " WHERE actor_username = ?1 OR target_username = ?1 COLLATE NOCASE"@,
        LogFilterKind::ByEvent => " WHERE event_type = ?1"@,
        LogFilterKind::Recent => " ORDER BY id DESC LIMIT ?1"@,
        _ => ""@,
    }
}

/// The SQL text that a filter runs.
pub fn log_query_text(kind: LogFilterKind) -> (q: String)
    ensures
        q@ == log_query_base() + log_query_clause(kind) + ";"@,
{
    let mut q = "SELECT timestamp, actor_username, target_username, event_type, description\n         FROM security_log".to_owned();
    match kind {
        LogFilterKind::ByUser => q.append(" WHERE actor_username = ?1 OR target_username = ?1 COLLATE NOCASE"),
        LogFilterKind::ByEvent => q.append(" WHERE event_type = ?1"),
        LogFilterKind::Recent => q.append(" ORDER BY id DESC LIMIT ?1"),
        _ => q.append(""),
    }
    q.append(";");
    q
}

/// The value bound to `?1`.
#[derive(Debug, PartialEq, Eq)]
pub enum LogParam {
    /// No parameter.
    NoParam,
    /// A text parameter.
    Text(String),
    /// A number parameter.
    Number(i64),
}

/// The parameter of each filter: the trimmed user name, the trimmed and upper-cased event
/// type, or the trimmed count with 20 where it does not parse.
pub open spec fn log_param_text_spec(kind: LogFilterKind, input: Seq<char>) -> Option<Seq<char>> {
    match kind {
        LogFilterKind::ByUser => Some(trim_spec(input)),
        LogFilterKind::ByEvent => Some(uppercase_of(trim_spec(input))),
        _ => None,
    }
}

/// The number of recent entries asked for: the trimmed input as an `i64`, else 20.
pub open spec fn log_limit_spec(input: Seq<char>) -> int {
    match parse_i64_spec(trim_spec(input)) {
        Some(n) => n,
        None => 20,
    }
}

/// Builds the parameter of a filter from the text typed after choosing it.
pub fn log_param(kind: LogFilterKind, input: &str) -> (p: LogParam)
    ensures
        match p {
            LogParam::Text(s) => log_param_text_spec(kind, input@) == Some(s@),
            LogParam::Number(n) => kind == LogFilterKind::Recent && n == log_limit_spec(input@),
            LogParam::NoParam => log_param_text_spec(kind, input@) is None && kind != LogFilterKind::Recent,
        },
{
    let v = chars_of(input);
    let t = trim_chars(v.as_slice());
    let ts = string_from_chars(t.as_slice());
    match kind {
        LogFilterKind::ByUser => LogParam::Text(ts),
        LogFilterKind::ByEvent => LogParam::Text(str_to_uppercase(ts.as_str())),
        LogFilterKind::Recent => match parse_i64(ts.as_str()) {
            Some(n) => LogParam::Number(n),
            None => LogParam::Number(20),
        },
        _ => LogParam::NoParam,
    }
}

} // verus!
