//! Lines of the kernel log, as they go to the serial port.
use crate::text::{decimal_text, push_decimal};
use vstd::prelude::*;
use vstd::string::*;

verus! {

/// Severity of a log record, most severe first.
#[derive(Clone, Copy, Debug, PartialEq, Eq, Structural)]
pub enum LogLevel {
    Error,
    Warn,
    Info,
    Debug,
    Trace,
}

/// Whether records of `level` are written: everything up to and including `Debug`.
pub open spec fn spec_is_enabled(level: LogLevel) -> bool {
    level != LogLevel::Trace
}

#[verifier::when_used_as_spec(spec_is_enabled)]
pub fn is_enabled(level: LogLevel) -> (r: bool)
    ensures
        r == spec_is_enabled(level),
{
    match level {
        LogLevel::Trace => false,
        _ => true,
    }
}

/// The coloured tag a line starts with.
pub open spec fn level_tag(level: LogLevel) -> Seq<char> {
    match level {
        LogLevel::Error => "\x1b[31m[ERROR]"@,
        LogLevel::Warn => "\x1b[33m[WARN]"@,
        LogLevel::Info => "\x1b[32m[INFO]"@,
        LogLevel::Debug => "\x1b[34m[DEBUG]"@,
        LogLevel::Trace => "\x1b[37m[TRACE]"@,
    }
}

fn level_tag_str(level: LogLevel) -> (r: &'static str)
    ensures
        r@ == level_tag(level),
{
    match level {
        LogLevel::Error => "\x1b[31m[ERROR]",
        LogLevel::Warn => "\x1b[33m[WARN]",
        LogLevel::Info => "\x1b[32m[INFO]",
        LogLevel::Debug => "\x1b[34m[DEBUG]",
        LogLevel::Trace => "\x1b[37m[TRACE]",
    }
}

/// `file` without a leading `src/`.
pub open spec fn strip_src(file: Seq<char>) -> Seq<char> {
    if file.len() >= 4 && file.subrange(0, 4) == "src/"@ {
        file.subrange(4, file.len() as int)
    } else {
        file
    }
}

/// `file` without a leading `src/`.
pub fn strip_src_prefix(file: &str) -> (r: &str)
    ensures
        r@ == strip_src(file@),
{
    proof {
        reveal_strlit("src/");
    }
    let n = file.unicode_len();
    if n >= 4 && file.get_char(0) == 's' && file.get_char(1) == 'r' && file.get_char(2) == 'c'
        && file.get_char(3) == '/' {
        assert(file@.subrange(0, 4) =~= "src/"@);
        file.substring_char(4, n)
    } else {
        proof {
            if file@.len() >= 4 && file@.subrange(0, 4) == "src/"@ {
                assert(file@[0] == file@.subrange(0, 4)[0]);
                assert(file@[1] == file@.subrange(0, 4)[1]);
                assert(file@[2] == file@.subrange(0, 4)[2]);
                assert(file@[3] == file@.subrange(0, 4)[3]);
            }
        }
        file
    }
}

/// The line written for a record: tag, reset, source place, then the message.
pub open spec fn log_text(level: LogLevel, file: Seq<char>, line: u32, message: Seq<char>) -> Seq<
    char,
> {
    level_tag(level) + "\x1b[0m "@ + strip_src(file) + ":"@ + decimal_text(line as u64) + " - "@
        + message + "\n"@
}

/// The line to write for a record, or `None` where its level is not enabled. A record without a
/// file is placed in `unknown`, one without a line at line 0.
pub fn log_line(level: LogLevel, file: Option<&str>, line: Option<u32>, message: &str) -> (r:
    Option<String>)
    ensures
        !spec_is_enabled(level) ==> r is None,
        spec_is_enabled(level) ==> (r matches Some(s) && s@ == log_text(
            level,
            match file {
                Some(f) => f@,
                None => "unknown"@,
            },
            match line {
                Some(l) => l,
                None => 0,
            },
            message@,
        )),
{
    if !is_enabled(level) {
        return None;
    }
    let file = match file {
        Some(f) => f,
        None => "unknown",
    };
    let line = match line {
        Some(l) => l,
        None => 0,
    };
    let mut s = String::from_str(level_tag_str(level));
    s.append("\x1b[0m ");
    s.append(strip_src_prefix(file));
    s.append(":");
    push_decimal(&mut s, line as u64);
    s.append(" - ");
    s.append(message);
    s.append("\n");
    assert(s@ =~= log_text(level, file@, line, message@));
    Some(s)
}

/// The line a kernel panic writes before the processor halts.
pub open spec fn panic_text(location: Seq<char>, message: Seq<char>) -> Seq<char> {
    "KERNEL PANIC: "@ + location + " - "@ + message
}

/// The line a kernel panic writes, given where it happened and its message.
pub fn panic_line(location: &str, message: &str) -> (r: String)
    ensures
        r@ == panic_text(location@, message@),
{
    let mut s = String::from_str("KERNEL PANIC: ");
    s.append(location);
    s.append(" - ");
    s.append(message);
    assert(s@ =~= panic_text(location@, message@));
    s
}

} // verus!
