//! Userspace out-of-memory guard: memory sampling, victim selection,
//! termination policy and the control loop's decisions, with machine-checked
//! contracts.

use vstd::prelude::*;

pub mod config;
pub mod daemon;
pub mod killer;
pub mod laws;
pub mod monitor;
pub mod notify;
pub mod percent;
pub mod text;

pub use config::Config;
pub use monitor::{MemInfo, ProcessInfo};

verus! {

/// A control code: a code point in U+0000..=U+001F or U+007F..=U+009F.
pub open spec fn is_control_char(c: char) -> bool {
    (c as u32) <= 0x1f || (0x7f <= (c as u32) && (c as u32) <= 0x9f)
}

/// What one character becomes in a log line: control codes other than
/// newline and tab become `?`, every other character stays.
pub open spec fn log_safe_char(c: char) -> char {
    if is_control_char(c) && c != '\n' && c != '\t' {
        '?'
    } else {
        c
    }
}

/// Executable form of [`log_safe_char`].
pub fn sanitize_char_for_log(c: char) -> (r: char)
    ensures
        r == log_safe_char(c),
{
    let code: u32 = c as u32;
    if (code <= 0x1f || (0x7f <= code && code <= 0x9f)) && c != '\n' && c != '\t' {
        '?'
    } else {
        c
    }
}

/// Makes a string safe to write into a log: every control character except
/// newline and tab is replaced by `?`, so that a crafted process name cannot
/// forge or corrupt log lines.
pub fn sanitize_for_log(s: &str) -> (out: String)
    ensures
        out@ == s@.map_values(|c: char| log_safe_char(c)),
{
    let mut out = String::new();
    for c in it: s.chars()
        invariant
            it.seq() == s@,
            out@ == s@.take(it.index()).map_values(|c: char| log_safe_char(c)),
    {
        assert(s@.take(it.index() + 1) == s@.take(it.index()).push(c));
        out.push(sanitize_char_for_log(c));
    }
    assert(s@.take(s@.len() as int) == s@);
    out
}

} // verus!
