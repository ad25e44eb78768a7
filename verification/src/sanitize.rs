//! The content sanitizer: from untrusted text to text that is safe to show on
//! a terminal.
//!
//! Whitespace passes as it is, line breaks and tabs included. Any other
//! control character is replaced, so that no escape sequence and no control
//! byte of a remote payload reaches the terminal. Everything else passes as it
//! is.

use crate::std_specs::{control_code, white_space};
use vstd::prelude::*;

verus! {

/// What stands in for a control character that is not whitespace.
pub const REPLACEMENT: char = '\u{FFFD}';

/// The terminal-safe form of one character.
pub open spec fn sanitized_char(c: char) -> char {
    if white_space(c) {
        c
    } else if control_code(c) {
        REPLACEMENT
    } else {
        c
    }
}

/// The terminal-safe form of a text: each character on its own.
pub open spec fn sanitized(s: Seq<char>) -> Seq<char> {
    Seq::new(s.len(), |i: int| sanitized_char(s[i]))
}

/// Whether `s` can go to a terminal as it is: whatever control character it
/// holds is whitespace.
pub open spec fn terminal_safe(s: Seq<char>) -> bool {
    forall|i: int| 0 <= i < s.len() ==> !control_code(#[trigger] s[i]) || white_space(s[i])
}

/// Sanitizing a sanitized text changes nothing.
pub proof fn law_sanitize_idempotent(s: Seq<char>)
    ensures
        sanitized(sanitized(s)) == sanitized(s),
{
}

/// A sanitized text holds no control character but whitespace.
pub proof fn law_sanitize_safe(s: Seq<char>)
    ensures
        terminal_safe(sanitized(s)),
{
}

/// A text that is safe already passes unchanged.
pub proof fn law_sanitize_keeps_safe_text(s: Seq<char>)
    requires
        terminal_safe(s),
    ensures
        sanitized(s) == s,
{
}

/// Makes one character safe for the terminal: whitespace stays, any other
/// control character gives way to the replacement character, and everything
/// else stays.
pub fn sanitize_char(c: char) -> (r: char)
    ensures
        r == sanitized_char(c),
        !control_code(r) || white_space(r),
{
    if c.is_whitespace() {
        c
    } else if c.is_control() {
        REPLACEMENT
    } else {
        c
    }
}

/// Makes a text safe for the terminal, character by character.
pub fn sanitize_string(s: &str) -> (out: String)
    ensures
        out@ == sanitized(s@),
        terminal_safe(out@),
{
    let mut out = String::new();
    for c in it: s.chars()
        invariant
            it.seq() == s@,
            out@ == sanitized(s@.take(it.index())),
    {
        out.push(sanitize_char(c));
    }
    out
}

} // verus!
