//! The ROT13 cipher on single characters.

use vstd::prelude::*;

verus! {

/// Whether `c` is a letter of the first half of the Latin alphabet.
pub open spec fn in_first_half(c: char) -> bool {
    ('A' <= c && c <= 'M') || ('a' <= c && c <= 'm')
}

/// Whether `c` is a letter of the second half of the Latin alphabet.
pub open spec fn in_second_half(c: char) -> bool {
    ('N' <= c && c <= 'Z') || ('n' <= c && c <= 'z')
}

/// `c` moved by 13 places within its alphabet; any other character as it is.
pub open spec fn rot13(c: char) -> char {
    if in_first_half(c) {
        ((c as u8) + 13) as char
    } else if in_second_half(c) {
        ((c as u8) - 13) as char
    } else {
        c
    }
}

/// Applies ROT13 to one character.
pub fn rot13_char(c: char) -> (moved: char)
    ensures
        moved == rot13(c),
{
    if ('A' <= c && c <= 'M') || ('a' <= c && c <= 'm') {
        ((c as u8) + 13) as char
    } else if ('N' <= c && c <= 'Z') || ('n' <= c && c <= 'z') {
        ((c as u8) - 13) as char
    } else {
        c
    }
}

/// ROT13 is its own inverse.
pub proof fn lemma_rot13_twice(c: char)
    ensures
        rot13(rot13(c)) == c,
{
}

} // verus!
