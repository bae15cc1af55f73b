//! The compact JSON text of strings and of arrays of strings: each string
//! between double quotes, with `"` and `\` escaped by a backslash, the
//! control characters that have a short escape (`\b`, `\t`, `\n`, `\f`,
//! `\r`) written so, the other control characters below U+0020 written as
//! `\u00XX` in lower-case hexadecimal, and every other character as it is.

use vstd::prelude::*;
use crate::http::handlers::bytes::hex_digit;

verus! {

/// How a JSON string literal writes the character `c`.
pub open spec fn json_char(c: char) -> Seq<char> {
    if c == '"' {
        seq!['\\', '"']
    } else if c == '\\' {
        seq!['\\', '\\']
    } else if c == '\u{8}' {
        seq!['\\', 'b']
    } else if c == '\t' {
        seq!['\\', 't']
    } else if c == '\n' {
        seq!['\\', 'n']
    } else if c == '\u{c}' {
        seq!['\\', 'f']
    } else if c == '\r' {
        seq!['\\', 'r']
    } else if (c as int) < 0x20 {
        seq!['\\', 'u', '0', '0', hex_digit((c as nat) / 16), hex_digit((c as nat) % 16)]
    } else {
        seq![c]
    }
}

/// The characters of `s`, each written as `json_char` says.
pub open spec fn json_chars(s: Seq<char>) -> Seq<char>
    decreases s.len(),
{
    if s.len() == 0 {
        Seq::empty()
    } else {
        json_char(s[0]) + json_chars(s.drop_first())
    }
}

/// The JSON string literal of `s`.
pub open spec fn json_string(s: Seq<char>) -> Seq<char> {
    seq!['"'] + json_chars(s) + seq!['"']
}

/// The string literals of `ss`, separated by commas.
pub open spec fn json_items(ss: Seq<Seq<char>>) -> Seq<char>
    decreases ss.len(),
{
    if ss.len() == 0 {
        Seq::empty()
    } else if ss.len() == 1 {
        json_string(ss[0])
    } else {
        json_string(ss[0]) + seq![','] + json_items(ss.drop_first())
    }
}

/// The compact JSON array of the strings `ss`.
pub open spec fn json_string_array(ss: Seq<Seq<char>>) -> Seq<char> {
    seq!['['] + json_items(ss) + seq![']']
}

} // verus!
