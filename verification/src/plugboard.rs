//! The plugboard: an optional, symmetric pairwise letter swap applied once
//! before and once after the rotor stack.
//!
//! A plugboard is immutable once built.  Construction validates that every
//! pair consists of uppercase letters and that no letter is wired twice;
//! the resulting table is an involution of the alphabet, so swapping twice
//! always returns the original letter.

use crate::alphabet::{
    char_of, index_letter, is_letter, is_uppercase_letter, letter_index, letter_val, push_char,
};
use std::collections::HashMap;
use vstd::prelude::*;

verus! {

/// Why a plugboard could not be built.
#[derive(Debug)]
pub enum PlugboardError {
    /// A pair member is outside `A`..=`Z`; carries the offending pair.
    InvalidCharacter((char, char)),
    /// A letter appears in more than one pair.
    CharacterAlreadyWired(char),
}

impl PartialEq for PlugboardError {
    fn eq(&self, other: &PlugboardError) -> (r: bool) {
        match (self, other) {
            (PlugboardError::InvalidCharacter(a), PlugboardError::InvalidCharacter(b)) => {
                a.0 == b.0 && a.1 == b.1
            },
            (
                PlugboardError::CharacterAlreadyWired(a),
                PlugboardError::CharacterAlreadyWired(b),
            ) => a == b,
            _ => false,
        }
    }
}

impl vstd::std_specs::cmp::PartialEqSpecImpl for PlugboardError {
    open spec fn obeys_eq_spec() -> bool {
        true
    }

    open spec fn eq_spec(&self, other: &PlugboardError) -> bool {
        self == other
    }
}

/// The text of an error report.
pub open spec fn plug_message_spec(e: PlugboardError) -> Seq<char> {
    match e {
        PlugboardError::InvalidCharacter(p) => "'"@ + seq![p.0] + "' or '"@ + seq![p.1]
            + "' is not an uppercase ASCII letter"@,
        PlugboardError::CharacterAlreadyWired(c) => "'"@ + seq![c] + "' already wired to the board"@,
    }
}

impl PlugboardError {
    /// Renders the error for display.
    pub fn message(&self) -> (r: String)
        ensures
            r@ == plug_message_spec(*self),
    {
        match self {
            PlugboardError::InvalidCharacter(p) => {
                let mut s = String::new();
                s.append("'");
                push_char(&mut s, p.0);
                s.append("' or '");
                push_char(&mut s, p.1);
                s.append("' is not an uppercase ASCII letter");
                proof {
                    assert(s@ =~= plug_message_spec(*self));
                }
                s
            },
            PlugboardError::CharacterAlreadyWired(c) => {
                let mut s = String::new();
                s.append("'");
                push_char(&mut s, *c);
                s.append("' already wired to the board");
                proof {
                    assert(s@ =~= plug_message_spec(*self));
                }
                s
            },
        }
    }
}

/// The table of an empty plugboard: every letter maps to itself.
pub open spec fn identity_table() -> Seq<int> {
    Seq::new(26, |i: int| i)
}

/// `p` is a plugboard table: an involution of `0..26`.
pub open spec fn plug_wf(p: Seq<int>) -> bool {
    &&& p.len() == 26
    &&& forall|i: int| 0 <= i < 26 ==> 0 <= #[trigger] p[i] < 26
    &&& forall|i: int| 0 <= i < 26 ==> p[#[trigger] p[i]] == i
}

/// The empty plugboard's table is well formed.
pub proof fn lemma_identity_wf()
    ensures
        plug_wf(identity_table()),
{
}

/// Swapping twice returns every letter: the plugboard is an involution.
pub proof fn lemma_transpose_involutive(p: Seq<int>, c: int)
    requires
        plug_wf(p),
        0 <= c < 26,
    ensures
        0 <= p[c] < 26,
        p[p[c]] == c,
{
}

/// The letters already used by some pair, given the used-markers table.
pub open spec fn wired_set(w: Seq<bool>) -> Set<int> {
    Set::new(|i: int| 0 <= i < w.len() && w[i])
}

/// Outcome of wiring the pairs from index `k` onward into the table `tab`,
/// where the letters in `wired` are already used.  Each pair is first
/// checked for letter range, then each member for an earlier use, and only
/// then inserted in both directions at once.
pub open spec fn wire_from(
    pairs: Seq<(char, char)>,
    k: int,
    tab: Seq<int>,
    wired: Set<int>,
) -> Result<Seq<int>, PlugboardError>
    decreases pairs.len() - k,
{
    if k < 0 || k >= pairs.len() {
        Ok(tab)
    } else {
        let l = pairs[k].0;
        let r = pairs[k].1;
        if !(is_letter(l) && is_letter(r)) {
            Err(PlugboardError::InvalidCharacter((l, r)))
        } else if wired.contains(letter_val(l)) {
            Err(PlugboardError::CharacterAlreadyWired(l))
        } else if wired.contains(letter_val(r)) {
            Err(PlugboardError::CharacterAlreadyWired(r))
        } else {
            wire_from(
                pairs,
                k + 1,
                tab.update(letter_val(l), letter_val(r)).update(letter_val(r), letter_val(l)),
                wired.insert(letter_val(l)).insert(letter_val(r)),
            )
        }
    }
}

/// Outcome of building a plugboard from a list of letter pairs.
pub open spec fn plugboard_built(pairs: Seq<(char, char)>) -> Result<Seq<int>, PlugboardError> {
    wire_from(pairs, 0, identity_table(), Set::empty())
}

/// What the map handed to [`Plugboard::from_map`] stores for letter `i`:
/// the index of the stored uppercase pairing, or `i` itself where the map
/// has none.
pub open spec fn map_entry(m: Map<char, char>, i: int) -> int {
    if m.contains_key(char_of(i)) && is_letter(m[char_of(i)]) {
        letter_val(m[char_of(i)])
    } else {
        i
    }
}

/// The entry actually used for letter `i`: the stored pairing where the map
/// pairs symmetrically at `i`, and the identity otherwise.
pub open spec fn symmetric_entry(m: Map<char, char>, i: int) -> int {
    if map_entry(m, map_entry(m, i)) == i {
        map_entry(m, i)
    } else {
        i
    }
}

/// A symmetric pairwise letter-swap table.
#[derive(Debug, PartialEq)]
pub struct Plugboard {
    map: Vec<u8>,
}

impl View for Plugboard {
    type V = Seq<int>;

    closed spec fn view(&self) -> Seq<int> {
        self.map@.map_values(|x: u8| x as int)
    }
}

/// Relies on `HashMap::get`: returns the value stored for key `k`, if any,
/// using std's hashing and equality of `char`.
#[verifier::external_body]
fn map_lookup(m: &HashMap<char, char>, k: char) -> (r: Option<char>)
    ensures
        r == (if m@.contains_key(k) {
            Some(m@[k])
        } else {
            Option::<char>::None
        }),
{
    match m.get(&k) {
        Some(v) => Some(*v),
        None => None,
    }
}

impl Plugboard {
    /// The table is a well-formed involution of the alphabet.
    pub open spec fn wf(&self) -> bool {
        plug_wf(self@)
    }

    /// Builds a plugboard from letter pairs, wiring each pair in both
    /// directions, and reports the first invalid or doubly used letter.
    pub fn new(pairs: &Vec<(char, char)>) -> (r: Result<Self, PlugboardError>)
        ensures
            match r {
                Ok(pb) => pb.wf() && plugboard_built(pairs@) == Ok::<Seq<int>, PlugboardError>(pb@),
                Err(e) => plugboard_built(pairs@) == Err::<Seq<int>, PlugboardError>(e),
            },
    {
        let mut tab: Vec<u8> = Vec::new();
        let mut i: usize = 0;
        while i < 26
            invariant
                i <= 26,
                tab@.len() == i,
                forall|j: int| 0 <= j < i ==> #[trigger] tab@[j] == j,
            decreases 26 - i,
        {
            tab.push(i as u8);
            i = i + 1;
        }
        let mut wired: Vec<bool> = Vec::new();
        let mut w: usize = 0;
        while w < 26
            invariant
                w <= 26,
                wired@.len() == w,
                forall|j: int| 0 <= j < w ==> !(#[trigger] wired@[j]),
            decreases 26 - w,
        {
            wired.push(false);
            w = w + 1;
        }
        proof {
            assert(tab@.map_values(|x: u8| x as int) =~= identity_table());
            assert(wired_set(wired@) =~= Set::<int>::empty());
        }
        let mut k: usize = 0;
        while k < pairs.len()
            invariant
                k <= pairs@.len(),
                tab@.len() == 26,
                wired@.len() == 26,
                plug_wf(tab@.map_values(|x: u8| x as int)),
                forall|j: int|
                    0 <= j < 26 && !wired_set(wired@).contains(j) ==> #[trigger] tab@[j] == j,
                forall|j: int|
                    0 <= j < 26 && wired_set(wired@).contains(j)
                        ==> wired_set(wired@).contains(#[trigger] tab@[j] as int),
                plugboard_built(pairs@) == wire_from(
                    pairs@,
                    k as int,
                    tab@.map_values(|x: u8| x as int),
                    wired_set(wired@),
                ),
            decreases pairs@.len() - k,
        {
            let pair = pairs[k];
            let l = pair.0;
            let r = pair.1;
            if !(is_uppercase_letter(l) && is_uppercase_letter(r)) {
                return Err(PlugboardError::InvalidCharacter((l, r)));
            }
            let li = letter_index(l);
            let ri = letter_index(r);
            if wired[li as usize] {
                return Err(PlugboardError::CharacterAlreadyWired(l));
            }
            if wired[ri as usize] {
                return Err(PlugboardError::CharacterAlreadyWired(r));
            }
            proof {
                let t0 = tab@.map_values(|x: u8| x as int);
                let w0 = wired_set(wired@);
                assert(!w0.contains(li as int));
                assert(!w0.contains(ri as int));
            }
            let ghost t0 = tab@.map_values(|x: u8| x as int);
            let ghost w0 = wired_set(wired@);
            tab.set(li as usize, ri);
            tab.set(ri as usize, li);
            wired.set(li as usize, true);
            wired.set(ri as usize, true);
            proof {
                let t1 = tab@.map_values(|x: u8| x as int);
                let w1 = wired_set(wired@);
                assert(t1 =~= t0.update(li as int, ri as int).update(ri as int, li as int));
                assert(w1 =~= w0.insert(li as int).insert(ri as int));
                assert forall|j: int| 0 <= j < 26 && j != li && j != ri implies
                    #[trigger] t1[j] == t0[j] && t1[j] != li as int && t1[j] != ri as int by {
                    if w0.contains(j) {
                        assert(w0.contains(t0[j]));
                    } else {
                        assert(t0[j] == j);
                    }
                }
                assert(plug_wf(t1)) by {
                    assert forall|j: int| 0 <= j < 26 implies t1[#[trigger] t1[j]] == j by {
                        if j != li && j != ri {
                            assert(t1[t0[j]] == t0[t0[j]]);
                        }
                    }
                }
                assert(wire_from(pairs@, k as int, t0, w0) == wire_from(pairs@, k + 1, t1, w1));
            }
            k = k + 1;
        }
        Ok(Plugboard { map: tab })
    }

    /// Builds a plugboard from a prepared pairing map; asymmetric or
    /// non-letter entries fall back to the identity.
    pub fn from_map(intermediate: HashMap<char, char>) -> (r: Self)
        ensures
            r.wf(),
            forall|i: int| 0 <= i < 26 ==> r@[i] == #[trigger] symmetric_entry(intermediate@, i),
    {
        let mut raw: Vec<u8> = Vec::new();
        let mut i: usize = 0;
        while i < 26
            invariant
                i <= 26,
                raw@.len() == i,
                forall|j: int|
                    0 <= j < i ==> #[trigger] raw@[j] == map_entry(intermediate@, j)
                        && raw@[j] < 26,
            decreases 26 - i,
        {
            let c = index_letter(i as u8);
            let e: u8 = match map_lookup(&intermediate, c) {
                Some(v) => if is_uppercase_letter(v) {
                    letter_index(v)
                } else {
                    i as u8
                },
                None => i as u8,
            };
            raw.push(e);
            i = i + 1;
        }
        let mut tab: Vec<u8> = Vec::new();
        let mut t: usize = 0;
        while t < 26
            invariant
                t <= 26,
                raw@.len() == 26,
                forall|j: int|
                    0 <= j < 26 ==> #[trigger] raw@[j] == map_entry(intermediate@, j)
                        && raw@[j] < 26,
                tab@.len() == t,
                forall|j: int|
                    0 <= j < t ==> #[trigger] tab@[j] == symmetric_entry(intermediate@, j)
                        && tab@[j] < 26,
            decreases 26 - t,
        {
            let e = raw[t];
            let back = raw[e as usize];
            let v: u8 = if back as usize == t {
                e
            } else {
                t as u8
            };
            tab.push(v);
            t = t + 1;
        }
        proof {
            let tv = tab@.map_values(|x: u8| x as int);
            assert forall|j: int| 0 <= j < 26 implies tv[#[trigger] tv[j]] == j by {
                let m = intermediate@;
                if map_entry(m, map_entry(m, j)) == j {
                    assert(symmetric_entry(m, map_entry(m, j)) == j);
                }
            }
            assert(plug_wf(tv));
        }
        Plugboard { map: tab }
    }

    /// The paired letter where one is wired, the input unchanged otherwise.
    pub fn transpose(&self, input: char) -> (r: char)
        requires
            self.wf(),
        ensures
            is_letter(input) ==> r == char_of(self@[letter_val(input)]),
            !is_letter(input) ==> r == input,
    {
        if is_uppercase_letter(input) {
            let i = letter_index(input);
            let out = self.map[i as usize];
            proof {
                assert(self@[i as int] == out as int);
            }
            index_letter(out)
        } else {
            input
        }
    }
}

} // verus!
