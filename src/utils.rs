//! Identifier codec and text helpers for diagnostics.
use vstd::prelude::*;

pub mod gen_hex;

use crate::text::push_char;

verus! {

/// How one character is written in a printable diagnostic line.
pub open spec fn escape_char(c: char) -> Seq<char> {
    if c == '\n' {
        seq!['\\', 'n']
    } else if c == '\r' {
        seq!['\\', 'r']
    } else if c == '\t' {
        seq!['\\', 't']
    } else if c == '\0' {
        seq!['\\', '0']
    } else if c == '\\' {
        seq!['\\', '\\']
    } else {
        seq![c]
    }
}

/// `s` with each control character written as its escape sequence.
pub open spec fn escaped(s: Seq<char>) -> Seq<char>
    decreases s.len(),
{
    if s.len() == 0 {
        seq![]
    } else {
        escaped(s.drop_last()) + escape_char(s.last())
    }
}

/// Renders `str` printable: newline, carriage return, tab, NUL and backslash
/// become `\n`, `\r`, `\t`, `\0` and `\\`; every other character stays.
pub fn escape_string(str: String) -> (r: String)
    ensures
        r@ == escaped(str@),
{
    let mut escaped_str = String::new();
    for c in it: str.chars()
        invariant
            it.seq() == str@,
            escaped_str@ == escaped(str@.take(it.index() as int)),
    {
        let ghost before = str@.take(it.index() as int);
        let ghost after = str@.take(it.index() + 1);
        assert(after.drop_last() == before);
        assert(after.last() == c);
        if c == '\n' {
            push_char(&mut escaped_str, '\\');
            push_char(&mut escaped_str, 'n');
        } else if c == '\r' {
            push_char(&mut escaped_str, '\\');
            push_char(&mut escaped_str, 'r');
        } else if c == '\t' {
            push_char(&mut escaped_str, '\\');
            push_char(&mut escaped_str, 't');
        } else if c == '\0' {
            push_char(&mut escaped_str, '\\');
            push_char(&mut escaped_str, '0');
        } else if c == '\\' {
            push_char(&mut escaped_str, '\\');
            push_char(&mut escaped_str, '\\');
        } else {
            push_char(&mut escaped_str, c);
        }
        assert(escaped_str@ == escaped(after));
    }
    assert(str@.take(str@.len() as int) == str@);
    escaped_str
}

} // verus!
