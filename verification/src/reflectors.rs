//! Reflectors: fixed, stateless, involutive substitutions that turn the
//! forward signal path back through the rotor stack.
//!
//! Each historical reflector model is a unit struct carrying nothing but its
//! table; reflecting a letter twice always returns it, and no reflector maps
//! a letter to itself.

use crate::alphabet::{char_of, index_letter, is_letter, letter_index, letter_val};
use vstd::prelude::*;

verus! {

/// `t` is a reflector table: a fixed-point-free involution of `0..26`.
pub open spec fn reflector_wf(t: Seq<int>) -> bool {
    &&& t.len() == 26
    &&& forall|i: int| 0 <= i < 26 ==> 0 <= #[trigger] t[i] < 26
    &&& forall|i: int| 0 <= i < 26 ==> t[#[trigger] t[i]] == i
    &&& forall|i: int| 0 <= i < 26 ==> #[trigger] t[i] != i
}

/// Reflecting twice returns every letter, and never to itself in one step.
pub proof fn lemma_reflect_involutive(t: Seq<int>, c: int)
    requires
        reflector_wf(t),
        0 <= c < 26,
    ensures
        0 <= t[c] < 26,
        t[t[c]] == c,
        t[c] != c,
{
}

/// The interface every reflector model offers to the machine.
pub trait Reflector {
    /// The fixed substitution table of this reflector model.
    spec fn table(&self) -> Seq<int>;

    /// The table is a fixed-point-free involution.
    proof fn table_wf(&self)
        ensures
            reflector_wf(self.table()),
    ;

    /// Reflect one letter through the fixed permutation.
    fn transpose(&self, input: char) -> (r: char)
        requires
            is_letter(input),
        ensures
            r == char_of(self.table()[letter_val(input)]),
    ;
}

/// Substitution table of reflector model A.
pub open spec fn reflector_a_table() -> Seq<int> {
    seq![4, 9, 12, 25, 0, 11, 24, 23, 21, 1, 22, 5, 2, 17, 16, 20, 14, 13, 19, 18, 15, 8, 10, 7, 6, 3]
}

/// Reflector model A.
pub struct ReflectorA;

impl Reflector for ReflectorA {
    open spec fn table(&self) -> Seq<int> {
        reflector_a_table()
    }

    proof fn table_wf(&self) {
        assert(reflector_wf(reflector_a_table()));
    }

    fn transpose(&self, input: char) -> (r: char) {
        let t: Vec<u8> = vec![4, 9, 12, 25, 0, 11, 24, 23, 21, 1, 22, 5, 2, 17, 16, 20, 14, 13, 19, 18, 15, 8, 10, 7, 6, 3];
        proof {
            assert(t@.map_values(|x: u8| x as int) =~= reflector_a_table());
            self.table_wf();
        }
        let i = letter_index(input);
        let out = t[i as usize];
        proof {
            assert(t@.map_values(|x: u8| x as int)[i as int] == out as int);
        }
        index_letter(out)
    }
}

/// Substitution table of reflector model B.
pub open spec fn reflector_b_table() -> Seq<int> {
    seq![24, 17, 20, 7, 16, 18, 11, 3, 15, 23, 13, 6, 14, 10, 12, 8, 4, 1, 5, 25, 2, 22, 21, 9, 0, 19]
}

/// Reflector model B.
pub struct ReflectorB;

impl Reflector for ReflectorB {
    open spec fn table(&self) -> Seq<int> {
        reflector_b_table()
    }

    proof fn table_wf(&self) {
        assert(reflector_wf(reflector_b_table()));
    }

    fn transpose(&self, input: char) -> (r: char) {
        let t: Vec<u8> = vec![24, 17, 20, 7, 16, 18, 11, 3, 15, 23, 13, 6, 14, 10, 12, 8, 4, 1, 5, 25, 2, 22, 21, 9, 0, 19];
        proof {
            assert(t@.map_values(|x: u8| x as int) =~= reflector_b_table());
            self.table_wf();
        }
        let i = letter_index(input);
        let out = t[i as usize];
        proof {
            assert(t@.map_values(|x: u8| x as int)[i as int] == out as int);
        }
        index_letter(out)
    }
}

/// Substitution table of reflector model C.
pub open spec fn reflector_c_table() -> Seq<int> {
    seq![5, 21, 15, 9, 8, 0, 14, 24, 4, 3, 17, 25, 23, 22, 6, 2, 19, 10, 20, 16, 18, 1, 13, 12, 7, 11]
}

/// Reflector model C.
pub struct ReflectorC;

impl Reflector for ReflectorC {
    open spec fn table(&self) -> Seq<int> {
        reflector_c_table()
    }

    proof fn table_wf(&self) {
        assert(reflector_wf(reflector_c_table()));
    }

    fn transpose(&self, input: char) -> (r: char) {
        let t: Vec<u8> = vec![5, 21, 15, 9, 8, 0, 14, 24, 4, 3, 17, 25, 23, 22, 6, 2, 19, 10, 20, 16, 18, 1, 13, 12, 7, 11];
        proof {
            assert(t@.map_values(|x: u8| x as int) =~= reflector_c_table());
            self.table_wf();
        }
        let i = letter_index(input);
        let out = t[i as usize];
        proof {
            assert(t@.map_values(|x: u8| x as int)[i as int] == out as int);
        }
        index_letter(out)
    }
}

} // verus!
