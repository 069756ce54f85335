use vstd::prelude::*;
use crate::text::{lowercase_equals, lowercases_to, trim, trimmed};

verus! {

/// Verbosity threshold of the server log.
#[derive(Debug, Clone, Copy, PartialEq, Eq, Structural)]
pub enum LevelFilter {
    Off,
    Error,
    Warn,
    Info,
    Debug,
    Trace,
}

/// The level a `RUST_LOG`-style setting names: the value is trimmed and
/// compared without regard to ASCII case; unknown names mean `Info`.
pub open spec fn level_named(raw: Seq<char>) -> LevelFilter {
    let name = trimmed(raw);
    if lowercases_to(name, "off"@) {
        LevelFilter::Off
    } else if lowercases_to(name, "error"@) {
        LevelFilter::Error
    } else if lowercases_to(name, "warn"@) || lowercases_to(name, "warning"@) || lowercases_to(
        name,
        "critical"@,
    ) {
        LevelFilter::Warn
    } else if lowercases_to(name, "info"@) || lowercases_to(name, "normal"@) {
        LevelFilter::Info
    } else if lowercases_to(name, "debug"@) {
        LevelFilter::Debug
    } else if lowercases_to(name, "trace"@) {
        LevelFilter::Trace
    } else {
        LevelFilter::Info
    }
}

/// The level a `ROCKET_LOG_LEVEL` setting names: compared without regard to
/// ASCII case and without trimming; unknown names mean `Info`.
pub open spec fn rocket_level_named(raw: Seq<char>) -> LevelFilter {
    if lowercases_to(raw, "off"@) {
        LevelFilter::Off
    } else if lowercases_to(raw, "critical"@) {
        LevelFilter::Warn
    } else if lowercases_to(raw, "normal"@) {
        LevelFilter::Info
    } else if lowercases_to(raw, "debug"@) {
        LevelFilter::Debug
    } else {
        LevelFilter::Info
    }
}

/// The level the environment selects: `RUST_LOG` when set, else
/// `ROCKET_LOG_LEVEL` when set, else `Info`.
pub open spec fn level_from(rust_log: Option<Seq<char>>, rocket_log_level: Option<Seq<char>>) -> LevelFilter {
    match rust_log {
        Some(v) => level_named(v),
        None => match rocket_log_level {
            Some(v) => rocket_level_named(v),
            None => LevelFilter::Info,
        },
    }
}

/// Parses a log level name (see [`level_named`]).
pub fn parse_level_filter(raw: &str) -> (r: LevelFilter)
    ensures
        r == level_named(raw@),
{
    let name = trim(raw);
    if lowercase_equals(name, "off") {
        LevelFilter::Off
    } else if lowercase_equals(name, "error") {
        LevelFilter::Error
    } else if lowercase_equals(name, "warn") || lowercase_equals(name, "warning")
        || lowercase_equals(name, "critical") {
        LevelFilter::Warn
    } else if lowercase_equals(name, "info") || lowercase_equals(name, "normal") {
        LevelFilter::Info
    } else if lowercase_equals(name, "debug") {
        LevelFilter::Debug
    } else if lowercase_equals(name, "trace") {
        LevelFilter::Trace
    } else {
        LevelFilter::Info
    }
}

/// Chooses the log level from the values of `RUST_LOG` and
/// `ROCKET_LOG_LEVEL` (each `None` when unset).
pub fn log_level_from_env(rust_log: Option<&str>, rocket_log_level: Option<&str>) -> (r: LevelFilter)
    ensures
        r == level_from(
            match rust_log { Some(v) => Some(v@), None => None },
            match rocket_log_level { Some(v) => Some(v@), None => None },
        ),
{
    match rust_log {
        Some(v) => parse_level_filter(v),
        None => match rocket_log_level {
            Some(v) => {
                if lowercase_equals(v, "off") {
                    LevelFilter::Off
                } else if lowercase_equals(v, "critical") {
                    LevelFilter::Warn
                } else if lowercase_equals(v, "normal") {
                    LevelFilter::Info
                } else if lowercase_equals(v, "debug") {
                    LevelFilter::Debug
                } else {
                    LevelFilter::Info
                }
            },
            None => LevelFilter::Info,
        },
    }
}

/// The text that `strip_ansi_escapes::strip` leaves of a message once its
/// bytes are read back as UTF-8 (invalid sequences replaced).
pub uninterp spec fn ansi_stripped(text: Seq<char>) -> Seq<char>;

/// Calls `strip_ansi_escapes::strip` on the message and reads the result
/// back with `String::from_utf8_lossy`; the contract names the text.
#[verifier::external_body]
fn strip_ansi(text: &str) -> (r: String)
    ensures
        r@ == ansi_stripped(text@),
{
    String::from_utf8_lossy(&strip_ansi_escapes::strip(text)).into_owned()
}

/// A log line: `[<timestamp> <level>] <message>`.
pub open spec fn log_line_text(timestamp: Seq<char>, level: Seq<char>, message: Seq<char>) -> Seq<char> {
    "["@ + timestamp + " "@ + level + "] "@ + message
}

/// Formats a log line as the console shows it.
pub fn log_line(timestamp: &str, level: &str, message: &str) -> (r: String)
    ensures
        r@ == log_line_text(timestamp@, level@, message@),
{
    let r = String::from_str("[").concat(timestamp).concat(" ").concat(level).concat("] ").concat(message);
    proof {
        reveal_strlit("[");
        reveal_strlit(" ");
        reveal_strlit("] ");
    }
    r
}

/// Formats a log line as the log file keeps it: the message without its
/// ANSI escape sequences.
pub fn file_log_line(timestamp: &str, level: &str, message: &str) -> (r: String)
    ensures
        r@ == log_line_text(timestamp@, level@, ansi_stripped(message@)),
{
    let plain = strip_ansi(message);
    log_line(timestamp, level, plain.as_str())
}

} // verus!
