//! The 26-letter alphabet and its modular offset arithmetic.
//!
//! Every component of the machine works on letters `A`..=`Z`, represented
//! internally by their alphabet index `0..26`.  All wraparound arithmetic is
//! routed through [`shift`] so that the whole crate agrees on one notion of
//! rotation.

use vstd::arithmetic::div_mod::{
    lemma_add_mod_noop_right, lemma_mod_add_multiples_vanish, lemma_small_mod,
};
use vstd::prelude::*;

verus! {

/// Alphabet index of a character: `'A'` is 0, `'Z'` is 25.
pub open spec fn letter_val(c: char) -> int {
    c as int - 65
}

/// The uppercase letter with the given alphabet index.
pub open spec fn char_of(i: int) -> char {
    ((i + 65) as u8) as char
}

/// `c` is an uppercase ASCII letter.
pub open spec fn is_letter(c: char) -> bool {
    65 <= c as int <= 90
}

/// Rotating index `c` by `d` places, wrapping modulo 26.  The result lies in
/// `0..26` for every integer `d`, positive or negative.
pub open spec fn shift(c: int, d: int) -> int {
    (c + d) % 26
}

/// The alphabet index and the letter determine each other.
pub proof fn lemma_char_of_val(i: int)
    requires
        0 <= i < 26,
    ensures
        letter_val(char_of(i)) == i,
        is_letter(char_of(i)),
{
}

/// A letter survives the round trip through its index.
pub proof fn lemma_val_char_of(c: char)
    requires
        is_letter(c),
    ensures
        char_of(letter_val(c)) == c,
{
}

/// A shift always lands back inside the alphabet.
pub proof fn lemma_shift_in_range(c: int, d: int)
    ensures
        0 <= shift(c, d) < 26,
{
}

/// Shifting by `d` and then by `-d` returns every letter to where it began.
pub proof fn lemma_shift_involutive(x: int, d: int)
    requires
        0 <= x < 26,
    ensures
        shift(shift(x, d), -d) == x,
{
    lemma_add_mod_noop_right((x + d) % 26, -d, 26);
    lemma_add_mod_noop_right(x + d, -d, 26);
    lemma_small_mod(x as nat, 26);
}

/// Shifts by two distances that agree modulo 26 land on the same letter.
pub proof fn lemma_shift_congruent(x: int, d1: int, d2: int)
    requires
        d1 % 26 == d2 % 26,
    ensures
        shift(x, d1) == shift(x, d2),
{
    lemma_add_mod_noop_right(x, d1, 26);
    lemma_add_mod_noop_right(x, d2, 26);
}

/// Relies on `String::push`: appends one character at the end.
#[verifier::external_body]
pub(crate) fn push_char(s: &mut String, c: char)
    ensures
        final(s)@ == old(s)@.push(c),
{
    s.push(c);
}

/// Exec test for [`is_letter`].
pub fn is_uppercase_letter(c: char) -> (b: bool)
    ensures
        b == is_letter(c),
{
    let u = c as u32;
    65 <= u && u <= 90
}

/// Exec mirror of [`letter_val`].
pub fn letter_index(c: char) -> (i: u8)
    requires
        is_letter(c),
    ensures
        i == letter_val(c),
        i < 26,
{
    ((c as u32) as u8) - 65
}

/// Exec mirror of [`char_of`].
pub fn index_letter(i: u8) -> (c: char)
    requires
        i < 26,
    ensures
        c == char_of(i as int),
{
    (i + 65) as char
}

/// Rotate a letter index forward by `d` places.
pub fn apply_offset(c: u8, d: u8) -> (r: u8)
    requires
        c < 26,
        d < 26,
    ensures
        r == shift(c as int, d as int),
{
    (c + d) % 26
}

/// Rotate a letter index backward by `d` places.
pub fn apply_offset_back(c: u8, d: u8) -> (r: u8)
    requires
        c < 26,
        d < 26,
    ensures
        r == shift(c as int, -(d as int)),
{
    proof {
        lemma_mod_add_multiples_vanish(c - d, 26);
        lemma_shift_in_range(c as int, -(d as int));
    }
    (c + 26 - d) % 26
}

} // verus!
