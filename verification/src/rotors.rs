//! Rotors: wired permutations with a ring setting, a rotating offset and
//! turnover notches.
//!
//! Every rotor model shares the same mechanics, implemented by [`RotorCore`]
//! and verified once against the abstract [`RotorSpec`] model; the historical
//! rotor models [`RotorI`]..[`RotorV`] differ only in their wiring tables and
//! notch letters.

use crate::alphabet::{
    apply_offset, apply_offset_back, char_of, index_letter, is_letter, letter_index, letter_val,
    lemma_shift_congruent, lemma_shift_involutive, shift,
};
use vstd::arithmetic::div_mod::{
    lemma_mod_add_multiples_vanish, lemma_mod_twice, lemma_sub_mod_noop_right,
};
use vstd::prelude::*;

verus! {

/// The abstract state of one rotor: its wiring (with the inverse wiring),
/// its turnover notches, and the three letters of its rotational state.
pub struct RotorSpec {
    /// Forward substitution table, a permutation of `0..26`.
    pub wiring: Seq<int>,
    /// Inverse of `wiring`.
    pub inverse: Seq<int>,
    /// Wired positions at which this rotor trips its neighbour.
    pub notches: Seq<int>,
    /// Ring setting, fixed at construction.
    pub ring: int,
    /// Initial position, fixed at construction.
    pub init: int,
    /// Current position; the only mutable state.
    pub pos: int,
}

/// `w` and `v` are substitution tables over `0..26` that invert each other.
pub open spec fn tables_inverse(w: Seq<int>, v: Seq<int>) -> bool {
    &&& w.len() == 26
    &&& v.len() == 26
    &&& forall|i: int| 0 <= i < 26 ==> 0 <= #[trigger] w[i] < 26
    &&& forall|i: int| 0 <= i < 26 ==> 0 <= #[trigger] v[i] < 26
    &&& forall|i: int| 0 <= i < 26 ==> v[#[trigger] w[i]] == i
    &&& forall|i: int| 0 <= i < 26 ==> w[#[trigger] v[i]] == i
}

/// Well-formedness of a rotor's abstract state.
pub open spec fn rotor_wf(r: RotorSpec) -> bool {
    &&& tables_inverse(r.wiring, r.inverse)
    &&& forall|i: int| 0 <= i < r.notches.len() ==> 0 <= #[trigger] r.notches[i] < 26
    &&& 0 <= r.ring < 26
    &&& 0 <= r.init < 26
    &&& 0 <= r.pos < 26
}

/// A signal entering the rotor from the keyboard side: shifted into the
/// rotated wiring, substituted, and shifted back out.
pub open spec fn rotor_fwd(r: RotorSpec, c: int) -> int {
    shift(r.wiring[shift(c, r.pos - r.ring)], r.ring - r.pos)
}

/// A signal returning through the rotor from the reflector side.
pub open spec fn rotor_bwd(r: RotorSpec, c: int) -> int {
    shift(r.inverse[shift(c, r.pos - r.ring)], r.ring - r.pos)
}

/// The rotor after one step of its position, wrapping at the end of the
/// alphabet.
pub open spec fn advanced(r: RotorSpec) -> RotorSpec {
    RotorSpec { pos: shift(r.pos, 1), ..r }
}

/// Stepping preserves everything but the position, and keeps the rotor well
/// formed.
pub proof fn lemma_advanced_wf(r: RotorSpec)
    requires
        rotor_wf(r),
    ensures
        rotor_wf(advanced(r)),
{
}

/// The return pass undoes the forward pass of the same rotor state.
pub proof fn lemma_rotor_bwd_fwd(r: RotorSpec, c: int)
    requires
        rotor_wf(r),
        0 <= c < 26,
    ensures
        0 <= rotor_fwd(r, c) < 26,
        rotor_bwd(r, rotor_fwd(r, c)) == c,
{
    let d = r.pos - r.ring;
    let e = shift(c, d);
    let w = r.wiring[e];
    lemma_shift_involutive(w, r.ring - r.pos);
    assert(shift(rotor_fwd(r, c), d) == w);
    assert(r.inverse[w] == e);
    lemma_shift_involutive(c, d);
}

/// The forward pass undoes the return pass of the same rotor state.
pub proof fn lemma_rotor_fwd_bwd(r: RotorSpec, c: int)
    requires
        rotor_wf(r),
        0 <= c < 26,
    ensures
        0 <= rotor_bwd(r, c) < 26,
        rotor_fwd(r, rotor_bwd(r, c)) == c,
{
    let d = r.pos - r.ring;
    let e = shift(c, d);
    let w = r.inverse[e];
    lemma_shift_involutive(w, r.ring - r.pos);
    assert(shift(rotor_bwd(r, c), d) == w);
    assert(r.wiring[w] == e);
    lemma_shift_involutive(c, d);
}

/// The shared mechanics of every rotor model: a wiring table, its inverse,
/// the notch positions, and the rotational state.
pub struct RotorCore {
    wiring: Vec<u8>,
    inverse: Vec<u8>,
    notches: Vec<u8>,
    ring: u8,
    init: u8,
    pos: u8,
}

impl RotorCore {
    /// The abstract state this rotor stands for.
    pub closed spec fn rspec(&self) -> RotorSpec {
        RotorSpec {
            wiring: self.wiring@.map_values(|x: u8| x as int),
            inverse: self.inverse@.map_values(|x: u8| x as int),
            notches: self.notches@.map_values(|x: u8| x as int),
            ring: self.ring as int,
            init: self.init as int,
            pos: self.pos as int,
        }
    }

    /// The concrete tables and state satisfy the abstract well-formedness.
    pub closed spec fn wf(&self) -> bool {
        rotor_wf(self.rspec())
    }

    /// Builds a rotor from its tables, ring setting and initial position.
    pub fn assemble(
        wiring: Vec<u8>,
        inverse: Vec<u8>,
        notches: Vec<u8>,
        ring_setting: char,
        init_position: char,
    ) -> (r: RotorCore)
        requires
            tables_inverse(
                wiring@.map_values(|x: u8| x as int),
                inverse@.map_values(|x: u8| x as int),
            ),
            forall|i: int| 0 <= i < notches@.len() ==> #[trigger] notches@[i] < 26,
            is_letter(ring_setting),
            is_letter(init_position),
        ensures
            r.wf(),
            r.rspec() == (RotorSpec {
                wiring: wiring@.map_values(|x: u8| x as int),
                inverse: inverse@.map_values(|x: u8| x as int),
                notches: notches@.map_values(|x: u8| x as int),
                ring: letter_val(ring_setting),
                init: letter_val(init_position),
                pos: letter_val(init_position),
            }),
    {
        let ring = letter_index(ring_setting);
        let init = letter_index(init_position);
        RotorCore { wiring, inverse, notches, ring, init, pos: init }
    }

    /// Net displacement of the wiring relative to the entry contacts.
    fn rotation(&self) -> (d: u8)
        requires
            self.wf(),
        ensures
            d < 26,
            d == shift(0, self.rspec().pos - self.rspec().ring),
            d % 26 == (self.rspec().pos - self.rspec().ring) % 26,
            (26 - d) % 26 == (self.rspec().ring - self.rspec().pos) % 26,
    {
        let d = (self.pos + 26 - self.ring) % 26;
        proof {
            lemma_mod_add_multiples_vanish(self.pos - self.ring, 26);
            lemma_mod_twice(self.pos - self.ring, 26);
            lemma_sub_mod_noop_right(26, self.pos - self.ring, 26);
            lemma_mod_add_multiples_vanish(self.ring - self.pos, 26);
        }
        d
    }

    /// Shift a letter into the rotated frame of the wiring.
    fn shift_in(&self, c: u8) -> (r: u8)
        requires
            self.wf(),
            c < 26,
        ensures
            r == shift(c as int, self.rspec().pos - self.rspec().ring),
            r < 26,
    {
        let d = self.rotation();
        proof {
            lemma_shift_congruent(c as int, d as int, self.rspec().pos - self.rspec().ring);
        }
        apply_offset(c, d)
    }

    /// Shift a letter back out of the rotated frame of the wiring.
    fn shift_out(&self, c: u8) -> (r: u8)
        requires
            self.wf(),
            c < 26,
        ensures
            r == shift(c as int, self.rspec().ring - self.rspec().pos),
            r < 26,
    {
        let d = self.rotation();
        proof {
            lemma_sub_mod_noop_right(c as int, self.rspec().pos - self.rspec().ring, 26);
            assert((c - d) % 26 == (c + (self.rspec().ring - self.rspec().pos)) % 26) by {
                lemma_sub_mod_noop_right(c as int, d as int, 26);
                lemma_mod_add_multiples_vanish(self.rspec().ring - self.rspec().pos, 26);
                lemma_shift_congruent(
                    c as int,
                    -(d as int),
                    self.rspec().ring - self.rspec().pos,
                );
            }
        }
        apply_offset_back(c, d)
    }

    /// The keyboard-side pass through the wiring.
    pub fn transpose_in(&self, input: char) -> (r: char)
        requires
            self.wf(),
            is_letter(input),
        ensures
            r == char_of(rotor_fwd(self.rspec(), letter_val(input))),
    {
        let c = letter_index(input);
        let idx = self.shift_in(c);
        let out = self.wiring[idx as usize];
        proof {
            assert(self.rspec().wiring[idx as int] == out as int);
        }
        index_letter(self.shift_out(out))
    }

    /// The reflector-side pass through the inverse wiring.
    pub fn transpose_out(&self, input: char) -> (r: char)
        requires
            self.wf(),
            is_letter(input),
        ensures
            r == char_of(rotor_bwd(self.rspec(), letter_val(input))),
    {
        let c = letter_index(input);
        let idx = self.shift_in(c);
        let out = self.inverse[idx as usize];
        proof {
            assert(self.rspec().inverse[idx as int] == out as int);
        }
        index_letter(self.shift_out(out))
    }

    /// Step the rotor one position forward.
    pub fn advance(&mut self)
        requires
            old(self).wf(),
        ensures
            final(self).wf(),
            final(self).rspec() == advanced(old(self).rspec()),
    {
        self.pos = (self.pos + 1) % 26;
        proof {
            lemma_advanced_wf(old(self).rspec());
            assert(self.rspec() == advanced(old(self).rspec()));
        }
    }

    /// Whether the rotor currently stands at one of its notches.
    pub fn at_notch(&self) -> (b: bool)
        requires
            self.wf(),
        ensures
            b == self.rspec().notches.contains(self.rspec().pos),
    {
        let mut i: usize = 0;
        while i < self.notches.len()
            invariant
                self.wf(),
                i <= self.notches@.len(),
                forall|j: int| 0 <= j < i ==> #[trigger] self.notches@[j] != self.pos,
            decreases self.notches@.len() - i,
        {
            if self.notches[i] == self.pos {
                assert(self.rspec().notches[i as int] == self.rspec().pos);
                return true;
            }
            i = i + 1;
        }
        assert(forall|j: int| 0 <= j < self.rspec().notches.len()
            ==> #[trigger] self.rspec().notches[j] != self.rspec().pos);
        false
    }

    /// The externally visible window letter.
    pub fn position(&self) -> (c: char)
        requires
            self.wf(),
        ensures
            c == char_of(self.rspec().pos),
    {
        index_letter(self.pos)
    }

    /// The ring setting the rotor was built with.
    pub fn ring_setting(&self) -> (c: char)
        requires
            self.wf(),
        ensures
            c == char_of(self.rspec().ring),
    {
        index_letter(self.ring)
    }

    /// The initial position the rotor was built with.
    pub fn init_position(&self) -> (c: char)
        requires
            self.wf(),
        ensures
            c == char_of(self.rspec().init),
    {
        index_letter(self.init)
    }

    /// Displacement applied to an incoming signal before the table lookup.
    pub fn get_offset(&self) -> (d: i8)
        requires
            self.wf(),
        ensures
            d == shift(0, self.rspec().ring - self.rspec().pos),
    {
        let d = (self.ring + 26 - self.pos) % 26;
        proof {
            lemma_mod_add_multiples_vanish(self.ring - self.pos, 26);
        }
        d as i8
    }
}

/// The interface every rotor model offers to the machine.
///
/// The associated spec functions name the model's fixed tables, so that a
/// caller knows exactly which rotor it has built.
pub trait RotorEncode: Sized {
    /// The abstract state this rotor stands for.
    spec fn rspec(&self) -> RotorSpec;

    /// The rotor's tables and state are well formed.
    spec fn wf(&self) -> bool;

    /// Forward wiring table of this rotor model.
    spec fn wiring_spec() -> Seq<int>;

    /// Inverse wiring table of this rotor model.
    spec fn inverse_spec() -> Seq<int>;

    /// Notch positions of this rotor model.
    spec fn notches_spec() -> Seq<int>;

    /// A well-formed rotor carries its model's fixed tables.
    proof fn wf_tables(&self)
        requires
            self.wf(),
        ensures
            rotor_wf(self.rspec()),
            self.rspec().wiring == Self::wiring_spec(),
            self.rspec().inverse == Self::inverse_spec(),
            self.rspec().notches == Self::notches_spec(),
    ;

    /// Builds the rotor at a ring setting and an initial position.
    fn new(ring_setting: char, init_position: char) -> (r: Self)
        requires
            is_letter(ring_setting),
            is_letter(init_position),
        ensures
            r.wf(),
            r.rspec() == (RotorSpec {
                wiring: Self::wiring_spec(),
                inverse: Self::inverse_spec(),
                notches: Self::notches_spec(),
                ring: letter_val(ring_setting),
                init: letter_val(init_position),
                pos: letter_val(init_position),
            }),
    ;

    /// Shift a letter into the rotated frame of the wiring.
    fn _shift_input(&self, input: char) -> (r: char)
        requires
            self.wf(),
            is_letter(input),
        ensures
            r == char_of(shift(letter_val(input), self.rspec().pos - self.rspec().ring)),
    ;

    /// Shift a letter back out of the rotated frame of the wiring.
    fn _shift_output(&self, output: char) -> (r: char)
        requires
            self.wf(),
            is_letter(output),
        ensures
            r == char_of(shift(letter_val(output), self.rspec().ring - self.rspec().pos)),
    ;

    /// The keyboard-side pass through the wiring.
    fn transpose_in(&self, input: char) -> (r: char)
        requires
            self.wf(),
            is_letter(input),
        ensures
            r == char_of(rotor_fwd(self.rspec(), letter_val(input))),
    ;

    /// The reflector-side pass through the inverse wiring.
    fn transpose_out(&self, input: char) -> (r: char)
        requires
            self.wf(),
            is_letter(input),
        ensures
            r == char_of(rotor_bwd(self.rspec(), letter_val(input))),
    ;

    /// Step the rotor one position forward.
    fn advance(&mut self)
        requires
            old(self).wf(),
        ensures
            final(self).wf(),
            final(self).rspec() == advanced(old(self).rspec()),
    ;

    /// The ring setting the rotor was built with.
    fn ring_setting(&self) -> (c: char)
        requires
            self.wf(),
        ensures
            c == char_of(self.rspec().ring),
    ;

    /// The initial position the rotor was built with.
    fn init_position(&self) -> (c: char)
        requires
            self.wf(),
        ensures
            c == char_of(self.rspec().init),
    ;

    /// The externally visible window letter.
    fn position(&self) -> (c: char)
        requires
            self.wf(),
        ensures
            c == char_of(self.rspec().pos),
    ;

    /// Displacement applied to an incoming signal before the table lookup.
    fn get_offset(&self) -> (d: i8)
        requires
            self.wf(),
        ensures
            d == shift(0, self.rspec().ring - self.rspec().pos),
    ;

    /// Whether the rotor currently stands at one of its notches.
    fn at_notch(&self) -> (b: bool)
        requires
            self.wf(),
        ensures
            b == self.rspec().notches.contains(self.rspec().pos),
    ;
}

/// Wiring table of rotor model I.
pub open spec fn rotor_i_wiring() -> Seq<int> {
    seq![4, 10, 12, 5, 11, 6, 3, 16, 21, 25, 13, 19, 14, 22, 24, 7, 23, 20, 18, 15, 0, 8, 1, 17, 2, 9]
}

/// Inverse wiring table of rotor model I.
pub open spec fn rotor_i_inverse() -> Seq<int> {
    seq![20, 22, 24, 6, 0, 3, 5, 15, 21, 25, 1, 4, 2, 10, 12, 19, 7, 23, 18, 11, 17, 8, 13, 16, 14, 9]
}

/// Notch positions of rotor model I.
pub open spec fn rotor_i_notches() -> Seq<int> {
    seq![16]
}

/// Rotor model I.
pub struct RotorI {
    core: RotorCore,
}

impl RotorEncode for RotorI {
    closed spec fn rspec(&self) -> RotorSpec {
        self.core.rspec()
    }

    closed spec fn wf(&self) -> bool {
        &&& self.core.wf()
        &&& self.rspec().wiring == rotor_i_wiring()
        &&& self.rspec().inverse == rotor_i_inverse()
        &&& self.rspec().notches == rotor_i_notches()
    }

    proof fn wf_tables(&self) {
    }

    open spec fn wiring_spec() -> Seq<int> {
        rotor_i_wiring()
    }

    open spec fn inverse_spec() -> Seq<int> {
        rotor_i_inverse()
    }

    open spec fn notches_spec() -> Seq<int> {
        rotor_i_notches()
    }

    fn new(ring_setting: char, init_position: char) -> (r: Self) {
        let wiring: Vec<u8> = vec![4, 10, 12, 5, 11, 6, 3, 16, 21, 25, 13, 19, 14, 22, 24, 7, 23, 20, 18, 15, 0, 8, 1, 17, 2, 9];
        let inverse: Vec<u8> = vec![20, 22, 24, 6, 0, 3, 5, 15, 21, 25, 1, 4, 2, 10, 12, 19, 7, 23, 18, 11, 17, 8, 13, 16, 14, 9];
        let notches: Vec<u8> = vec![16];
        proof {
            assert(wiring@.map_values(|x: u8| x as int) =~= rotor_i_wiring());
            assert(inverse@.map_values(|x: u8| x as int) =~= rotor_i_inverse());
            assert(notches@.map_values(|x: u8| x as int) =~= rotor_i_notches());
            assert(tables_inverse(rotor_i_wiring(), rotor_i_inverse()));
        }
        RotorI { core: RotorCore::assemble(wiring, inverse, notches, ring_setting, init_position) }
    }

    fn _shift_input(&self, input: char) -> (r: char) {
        index_letter(self.core.shift_in(letter_index(input)))
    }

    fn _shift_output(&self, output: char) -> (r: char) {
        index_letter(self.core.shift_out(letter_index(output)))
    }

    fn transpose_in(&self, input: char) -> (r: char) {
        self.core.transpose_in(input)
    }

    fn transpose_out(&self, input: char) -> (r: char) {
        self.core.transpose_out(input)
    }

    fn advance(&mut self) {
        self.core.advance();
    }

    fn ring_setting(&self) -> (c: char) {
        self.core.ring_setting()
    }

    fn init_position(&self) -> (c: char) {
        self.core.init_position()
    }

    fn position(&self) -> (c: char) {
        self.core.position()
    }

    fn get_offset(&self) -> (d: i8) {
        self.core.get_offset()
    }

    fn at_notch(&self) -> (b: bool) {
        self.core.at_notch()
    }
}


/// Wiring table of rotor model II.
pub open spec fn rotor_ii_wiring() -> Seq<int> {
    seq![0, 9, 3, 10, 18, 8, 17, 20, 23, 1, 11, 7, 22, 19, 12, 2, 16, 6, 25, 13, 15, 24, 5, 21, 14, 4]
}

/// Inverse wiring table of rotor model II.
pub open spec fn rotor_ii_inverse() -> Seq<int> {
    seq![0, 9, 15, 2, 25, 22, 17, 11, 5, 1, 3, 10, 14, 19, 24, 20, 16, 6, 4, 13, 7, 23, 12, 8, 21, 18]
}

/// Notch positions of rotor model II.
pub open spec fn rotor_ii_notches() -> Seq<int> {
    seq![4]
}

/// Rotor model II.
pub struct RotorII {
    core: RotorCore,
}

impl RotorEncode for RotorII {
    closed spec fn rspec(&self) -> RotorSpec {
        self.core.rspec()
    }

    closed spec fn wf(&self) -> bool {
        &&& self.core.wf()
        &&& self.rspec().wiring == rotor_ii_wiring()
        &&& self.rspec().inverse == rotor_ii_inverse()
        &&& self.rspec().notches == rotor_ii_notches()
    }

    proof fn wf_tables(&self) {
    }

    open spec fn wiring_spec() -> Seq<int> {
        rotor_ii_wiring()
    }

    open spec fn inverse_spec() -> Seq<int> {
        rotor_ii_inverse()
    }

    open spec fn notches_spec() -> Seq<int> {
        rotor_ii_notches()
    }

    fn new(ring_setting: char, init_position: char) -> (r: Self) {
        let wiring: Vec<u8> = vec![0, 9, 3, 10, 18, 8, 17, 20, 23, 1, 11, 7, 22, 19, 12, 2, 16, 6, 25, 13, 15, 24, 5, 21, 14, 4];
        let inverse: Vec<u8> = vec![0, 9, 15, 2, 25, 22, 17, 11, 5, 1, 3, 10, 14, 19, 24, 20, 16, 6, 4, 13, 7, 23, 12, 8, 21, 18];
        let notches: Vec<u8> = vec![4];
        proof {
            assert(wiring@.map_values(|x: u8| x as int) =~= rotor_ii_wiring());
            assert(inverse@.map_values(|x: u8| x as int) =~= rotor_ii_inverse());
            assert(notches@.map_values(|x: u8| x as int) =~= rotor_ii_notches());
            assert(tables_inverse(rotor_ii_wiring(), rotor_ii_inverse()));
        }
        RotorII { core: RotorCore::assemble(wiring, inverse, notches, ring_setting, init_position) }
    }

    fn _shift_input(&self, input: char) -> (r: char) {
        index_letter(self.core.shift_in(letter_index(input)))
    }

    fn _shift_output(&self, output: char) -> (r: char) {
        index_letter(self.core.shift_out(letter_index(output)))
    }

    fn transpose_in(&self, input: char) -> (r: char) {
        self.core.transpose_in(input)
    }

    fn transpose_out(&self, input: char) -> (r: char) {
        self.core.transpose_out(input)
    }

    fn advance(&mut self) {
        self.core.advance();
    }

    fn ring_setting(&self) -> (c: char) {
        self.core.ring_setting()
    }

    fn init_position(&self) -> (c: char) {
        self.core.init_position()
    }

    fn position(&self) -> (c: char) {
        self.core.position()
    }

    fn get_offset(&self) -> (d: i8) {
        self.core.get_offset()
    }

    fn at_notch(&self) -> (b: bool) {
        self.core.at_notch()
    }
}

/// Wiring table of rotor model III.
pub open spec fn rotor_iii_wiring() -> Seq<int> {
    seq![1, 3, 5, 7, 9, 11, 2, 15, 17, 19, 23, 21, 25, 13, 24, 4, 8, 22, 6, 0, 10, 12, 20, 18, 16, 14]
}

/// Inverse wiring table of rotor model III.
pub open spec fn rotor_iii_inverse() -> Seq<int> {
    seq![19, 0, 6, 1, 15, 2, 18, 3, 16, 4, 20, 5, 21, 13, 25, 7, 24, 8, 23, 9, 22, 11, 17, 10, 14, 12]
}

/// Notch positions of rotor model III.
pub open spec fn rotor_iii_notches() -> Seq<int> {
    seq![21]
}

/// Rotor model III.
pub struct RotorIII {
    core: RotorCore,
}

impl RotorEncode for RotorIII {
    closed spec fn rspec(&self) -> RotorSpec {
        self.core.rspec()
    }

    closed spec fn wf(&self) -> bool {
        &&& self.core.wf()
        &&& self.rspec().wiring == rotor_iii_wiring()
        &&& self.rspec().inverse == rotor_iii_inverse()
        &&& self.rspec().notches == rotor_iii_notches()
    }

    proof fn wf_tables(&self) {
    }

    open spec fn wiring_spec() -> Seq<int> {
        rotor_iii_wiring()
    }

    open spec fn inverse_spec() -> Seq<int> {
        rotor_iii_inverse()
    }

    open spec fn notches_spec() -> Seq<int> {
        rotor_iii_notches()
    }

    fn new(ring_setting: char, init_position: char) -> (r: Self) {
        let wiring: Vec<u8> = vec![1, 3, 5, 7, 9, 11, 2, 15, 17, 19, 23, 21, 25, 13, 24, 4, 8, 22, 6, 0, 10, 12, 20, 18, 16, 14];
        let inverse: Vec<u8> = vec![19, 0, 6, 1, 15, 2, 18, 3, 16, 4, 20, 5, 21, 13, 25, 7, 24, 8, 23, 9, 22, 11, 17, 10, 14, 12];
        let notches: Vec<u8> = vec![21];
        proof {
            assert(wiring@.map_values(|x: u8| x as int) =~= rotor_iii_wiring());
            assert(inverse@.map_values(|x: u8| x as int) =~= rotor_iii_inverse());
            assert(notches@.map_values(|x: u8| x as int) =~= rotor_iii_notches());
            assert(tables_inverse(rotor_iii_wiring(), rotor_iii_inverse()));
        }
        RotorIII { core: RotorCore::assemble(wiring, inverse, notches, ring_setting, init_position) }
    }

    fn _shift_input(&self, input: char) -> (r: char) {
        index_letter(self.core.shift_in(letter_index(input)))
    }

    fn _shift_output(&self, output: char) -> (r: char) {
        index_letter(self.core.shift_out(letter_index(output)))
    }

    fn transpose_in(&self, input: char) -> (r: char) {
        self.core.transpose_in(input)
    }

    fn transpose_out(&self, input: char) -> (r: char) {
        self.core.transpose_out(input)
    }

    fn advance(&mut self) {
        self.core.advance();
    }

    fn ring_setting(&self) -> (c: char) {
        self.core.ring_setting()
    }

    fn init_position(&self) -> (c: char) {
        self.core.init_position()
    }

    fn position(&self) -> (c: char) {
        self.core.position()
    }

    fn get_offset(&self) -> (d: i8) {
        self.core.get_offset()
    }

    fn at_notch(&self) -> (b: bool) {
        self.core.at_notch()
    }
}

/// Wiring table of rotor model IV.
pub open spec fn rotor_iv_wiring() -> Seq<int> {
    seq![4, 18, 14, 21, 15, 25, 9, 0, 24, 16, 20, 8, 17, 7, 23, 11, 13, 5, 19, 6, 10, 3, 2, 12, 22, 1]
}

/// Inverse wiring table of rotor model IV.
pub open spec fn rotor_iv_inverse() -> Seq<int> {
    seq![7, 25, 22, 21, 0, 17, 19, 13, 11, 6, 20, 15, 23, 16, 2, 4, 9, 12, 1, 18, 10, 3, 24, 14, 8, 5]
}

/// Notch positions of rotor model IV.
pub open spec fn rotor_iv_notches() -> Seq<int> {
    seq![9]
}

/// Rotor model IV.
pub struct RotorIV {
    core: RotorCore,
}

impl RotorEncode for RotorIV {
    closed spec fn rspec(&self) -> RotorSpec {
        self.core.rspec()
    }

    closed spec fn wf(&self) -> bool {
        &&& self.core.wf()
        &&& self.rspec().wiring == rotor_iv_wiring()
        &&& self.rspec().inverse == rotor_iv_inverse()
        &&& self.rspec().notches == rotor_iv_notches()
    }

    proof fn wf_tables(&self) {
    }

    open spec fn wiring_spec() -> Seq<int> {
        rotor_iv_wiring()
    }

    open spec fn inverse_spec() -> Seq<int> {
        rotor_iv_inverse()
    }

    open spec fn notches_spec() -> Seq<int> {
        rotor_iv_notches()
    }

    fn new(ring_setting: char, init_position: char) -> (r: Self) {
        let wiring: Vec<u8> = vec![4, 18, 14, 21, 15, 25, 9, 0, 24, 16, 20, 8, 17, 7, 23, 11, 13, 5, 19, 6, 10, 3, 2, 12, 22, 1];
        let inverse: Vec<u8> = vec![7, 25, 22, 21, 0, 17, 19, 13, 11, 6, 20, 15, 23, 16, 2, 4, 9, 12, 1, 18, 10, 3, 24, 14, 8, 5];
        let notches: Vec<u8> = vec![9];
        proof {
            assert(wiring@.map_values(|x: u8| x as int) =~= rotor_iv_wiring());
            assert(inverse@.map_values(|x: u8| x as int) =~= rotor_iv_inverse());
            assert(notches@.map_values(|x: u8| x as int) =~= rotor_iv_notches());
            assert(tables_inverse(rotor_iv_wiring(), rotor_iv_inverse()));
        }
        RotorIV { core: RotorCore::assemble(wiring, inverse, notches, ring_setting, init_position) }
    }

    fn _shift_input(&self, input: char) -> (r: char) {
        index_letter(self.core.shift_in(letter_index(input)))
    }

    fn _shift_output(&self, output: char) -> (r: char) {
        index_letter(self.core.shift_out(letter_index(output)))
    }

    fn transpose_in(&self, input: char) -> (r: char) {
        self.core.transpose_in(input)
    }

    fn transpose_out(&self, input: char) -> (r: char) {
        self.core.transpose_out(input)
    }

    fn advance(&mut self) {
        self.core.advance();
    }

    fn ring_setting(&self) -> (c: char) {
        self.core.ring_setting()
    }

    fn init_position(&self) -> (c: char) {
        self.core.init_position()
    }

    fn position(&self) -> (c: char) {
        self.core.position()
    }

    fn get_offset(&self) -> (d: i8) {
        self.core.get_offset()
    }

    fn at_notch(&self) -> (b: bool) {
        self.core.at_notch()
    }
}

/// Wiring table of rotor model V.
pub open spec fn rotor_v_wiring() -> Seq<int> {
    seq![21, 25, 1, 17, 6, 8, 19, 24, 20, 15, 18, 3, 13, 7, 11, 23, 0, 22, 12, 9, 16, 14, 5, 4, 2, 10]
}

/// Inverse wiring table of rotor model V.
pub open spec fn rotor_v_inverse() -> Seq<int> {
    seq![16, 2, 24, 11, 23, 22, 4, 13, 5, 19, 25, 14, 18, 12, 21, 9, 20, 3, 10, 6, 8, 0, 17, 15, 7, 1]
}

/// Notch positions of rotor model V.
pub open spec fn rotor_v_notches() -> Seq<int> {
    seq![25]
}

/// Rotor model V.
pub struct RotorV {
    core: RotorCore,
}

impl RotorEncode for RotorV {
    closed spec fn rspec(&self) -> RotorSpec {
        self.core.rspec()
    }

    closed spec fn wf(&self) -> bool {
        &&& self.core.wf()
        &&& self.rspec().wiring == rotor_v_wiring()
        &&& self.rspec().inverse == rotor_v_inverse()
        &&& self.rspec().notches == rotor_v_notches()
    }

    proof fn wf_tables(&self) {
    }

    open spec fn wiring_spec() -> Seq<int> {
        rotor_v_wiring()
    }

    open spec fn inverse_spec() -> Seq<int> {
        rotor_v_inverse()
    }

    open spec fn notches_spec() -> Seq<int> {
        rotor_v_notches()
    }

    fn new(ring_setting: char, init_position: char) -> (r: Self) {
        let wiring: Vec<u8> = vec![21, 25, 1, 17, 6, 8, 19, 24, 20, 15, 18, 3, 13, 7, 11, 23, 0, 22, 12, 9, 16, 14, 5, 4, 2, 10];
        let inverse: Vec<u8> = vec![16, 2, 24, 11, 23, 22, 4, 13, 5, 19, 25, 14, 18, 12, 21, 9, 20, 3, 10, 6, 8, 0, 17, 15, 7, 1];
        let notches: Vec<u8> = vec![25];
        proof {
            assert(wiring@.map_values(|x: u8| x as int) =~= rotor_v_wiring());
            assert(inverse@.map_values(|x: u8| x as int) =~= rotor_v_inverse());
            assert(notches@.map_values(|x: u8| x as int) =~= rotor_v_notches());
            assert(tables_inverse(rotor_v_wiring(), rotor_v_inverse()));
        }
        RotorV { core: RotorCore::assemble(wiring, inverse, notches, ring_setting, init_position) }
    }

    fn _shift_input(&self, input: char) -> (r: char) {
        index_letter(self.core.shift_in(letter_index(input)))
    }

    fn _shift_output(&self, output: char) -> (r: char) {
        index_letter(self.core.shift_out(letter_index(output)))
    }

    fn transpose_in(&self, input: char) -> (r: char) {
        self.core.transpose_in(input)
    }

    fn transpose_out(&self, input: char) -> (r: char) {
        self.core.transpose_out(input)
    }

    fn advance(&mut self) {
        self.core.advance();
    }

    fn ring_setting(&self) -> (c: char) {
        self.core.ring_setting()
    }

    fn init_position(&self) -> (c: char) {
        self.core.init_position()
    }

    fn position(&self) -> (c: char) {
        self.core.position()
    }

    fn get_offset(&self) -> (d: i8) {
        self.core.get_offset()
    }

    fn at_notch(&self) -> (b: bool) {
        self.core.at_notch()
    }
}

} // verus!
