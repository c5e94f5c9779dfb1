use vstd::prelude::*;

use crate::config::Config;

verus! {

/// How much the process logs, from nothing to everything.
#[derive(PartialEq, Eq, Structural, Clone, Copy, Debug)]
pub enum Severity {
    Off,
    Error,
    Warn,
    Info,
    Debug,
    Trace,
}

/// `c` is the lower-case ASCII letter `lower`, written in either case.
pub open spec fn same_letter(c: char, lower: char) -> bool {
    c == lower || (c as u32) + 32 == (lower as u32)
}

/// `s` spells the lower-case word `name`, ignoring ASCII case.
pub open spec fn spelled(s: Seq<char>, name: Seq<char>) -> bool {
    s.len() == name.len() && forall|i: int| 0 <= i < s.len() ==> same_letter(s[i], name[i])
}

/// The value of a string of decimal digits.
pub open spec fn digits_value(d: Seq<char>) -> int
    decreases d.len(),
{
    if d.len() == 0 {
        0
    } else {
        digits_value(d.drop_last()) * 10 + (d.last() as int - '0' as int)
    }
}

/// `d` is one or more decimal digits.
pub open spec fn all_digits(d: Seq<char>) -> bool {
    d.len() > 0 && forall|i: int| 0 <= i < d.len() ==> '0' <= #[trigger] d[i] <= '9'
}

/// The number an unsigned integer parse reads from `s`: digits, after an optional `+`.
pub open spec fn numeral(s: Seq<char>) -> Option<int> {
    let d = if s.len() > 0 && s[0] == '+' {
        s.drop_first()
    } else {
        s
    };
    if all_digits(d) {
        Some(digits_value(d))
    } else {
        None
    }
}

/// The severity a number from `0` (off) to `5` (trace) stands for.
pub open spec fn severity_numbered(n: int) -> Severity {
    if n == 0 {
        Severity::Off
    } else if n == 1 {
        Severity::Error
    } else if n == 2 {
        Severity::Warn
    } else if n == 3 {
        Severity::Info
    } else if n == 4 {
        Severity::Debug
    } else {
        Severity::Trace
    }
}

/// The severity that tracing's level filter reads from a string: a number from `0` to
/// `5`, the empty string (error), or a severity's name in any ASCII case.
pub open spec fn severity_named(s: Seq<char>) -> Option<Severity> {
    match numeral(s) {
        Some(n) if n <= 5 => Some(severity_numbered(n)),
        _ => if s.len() == 0 || spelled(s, seq!['e', 'r', 'r', 'o', 'r']) {
            Some(Severity::Error)
        } else if spelled(s, seq!['w', 'a', 'r', 'n']) {
            Some(Severity::Warn)
        } else if spelled(s, seq!['i', 'n', 'f', 'o']) {
            Some(Severity::Info)
        } else if spelled(s, seq!['d', 'e', 'b', 'u', 'g']) {
            Some(Severity::Debug)
        } else if spelled(s, seq!['t', 'r', 'a', 'c', 'e']) {
            Some(Severity::Trace)
        } else if spelled(s, seq!['o', 'f', 'f']) {
            Some(Severity::Off)
        } else {
            None
        },
    }
}

/// The severity a configured level resolves to: `Debug` for an empty level or one that
/// names no severity, else the one it names.
pub open spec fn resolved_severity(s: Seq<char>) -> Severity {
    if s.len() == 0 {
        Severity::Debug
    } else {
        match severity_named(s) {
            Some(v) => v,
            None => Severity::Debug,
        }
    }
}

/// Relies on tracing's `FromStr` for `LevelFilter`, telling its six values apart.
#[verifier::external_body]
fn parse_level_filter(s: &str) -> (r: Option<Severity>)
    ensures
        r == severity_named(s@),
{
    match <tracing::level_filters::LevelFilter as std::str::FromStr>::from_str(s) {
        Ok(tracing::level_filters::LevelFilter::OFF) => Some(Severity::Off),
        Ok(tracing::level_filters::LevelFilter::ERROR) => Some(Severity::Error),
        Ok(tracing::level_filters::LevelFilter::WARN) => Some(Severity::Warn),
        Ok(tracing::level_filters::LevelFilter::INFO) => Some(Severity::Info),
        Ok(tracing::level_filters::LevelFilter::DEBUG) => Some(Severity::Debug),
        Ok(_) => Some(Severity::Trace),
        Err(_) => None,
    }
}

/// The severity that a level string names, or `None` where it names none.
pub fn severity_of(level: &str) -> (r: Option<Severity>)
    ensures
        r == severity_named(level@),
{
    parse_level_filter(level)
}

/// The severity the configuration asks for; an empty level, or one that names no
/// severity, gives `Debug`.
pub fn get_logging_config(config: &Config) -> (r: Severity)
    ensures
        r == resolved_severity(config.logging.level@),
{
    let level = config.logging.level.as_str();
    if level.is_empty() {
        return Severity::Debug;
    }
    match severity_of(level) {
        Some(v) => v,
        None => Severity::Debug,
    }
}

} // verus!
