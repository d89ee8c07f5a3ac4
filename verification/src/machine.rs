//! The abstract model of the whole machine: three rotors, a reflector table
//! and a plugboard table, with the stepping rule and the signal path.
//!
//! The executable machine in the crate root is verified against this model;
//! the laws at the bottom of this module state the cipher's symmetry: with
//! equal starting states, encoding an encoded stream gives back the original.

use crate::alphabet::shift;
use crate::plugboard::{lemma_transpose_involutive, plug_wf};
use crate::reflectors::{lemma_reflect_involutive, reflector_wf};
use crate::rotors::{
    advanced, lemma_advanced_wf, lemma_rotor_bwd_fwd, lemma_rotor_fwd_bwd, rotor_bwd, rotor_fwd,
    rotor_wf, RotorSpec,
};
use vstd::prelude::*;

verus! {

/// The abstract state of a machine: rotors left to right, the reflector's
/// table, and the plugboard's table (the identity when no board is fitted).
pub struct MachineSpec {
    /// Leftmost (slowest) rotor.
    pub left: RotorSpec,
    /// Middle rotor.
    pub middle: RotorSpec,
    /// Rightmost (fastest) rotor; it steps on every keypress.
    pub right: RotorSpec,
    /// Reflector table.
    pub reflector: Seq<int>,
    /// Plugboard table.
    pub plug: Seq<int>,
}

/// Well-formedness of the whole machine.
pub open spec fn machine_wf(m: MachineSpec) -> bool {
    &&& rotor_wf(m.left)
    &&& rotor_wf(m.middle)
    &&& rotor_wf(m.right)
    &&& reflector_wf(m.reflector)
    &&& plug_wf(m.plug)
}

/// One step of the drive mechanism, as read off the notch state before
/// anything moves.  The right rotor always steps; the middle rotor steps
/// when the right rotor stood at a notch, and steps again together with the
/// left rotor when the middle rotor itself stood at a notch — the
/// double-stepping anomaly.
pub open spec fn stepped(m: MachineSpec) -> MachineSpec {
    let right_notch = m.right.notches.contains(m.right.pos);
    let middle_notch = m.middle.notches.contains(m.middle.pos);
    MachineSpec {
        left: if middle_notch {
            advanced(m.left)
        } else {
            m.left
        },
        middle: if right_notch && middle_notch {
            advanced(advanced(m.middle))
        } else if right_notch || middle_notch {
            advanced(m.middle)
        } else {
            m.middle
        },
        right: advanced(m.right),
        ..m
    }
}

/// The full signal path for one letter, through the already-stepped
/// machine: plugboard, rotors right to left, reflector, rotors left to
/// right, plugboard again.
pub open spec fn signal(m: MachineSpec, c: int) -> int {
    m.plug[rotor_bwd(
        m.right,
        rotor_bwd(
            m.middle,
            rotor_bwd(
                m.left,
                m.reflector[rotor_fwd(m.left, rotor_fwd(m.middle, rotor_fwd(m.right, m.plug[c])))],
            ),
        ),
    )]
}

/// A rotor returned to its construction-time position.
pub open spec fn rotor_reset(r: RotorSpec) -> RotorSpec {
    RotorSpec { pos: r.init, ..r }
}

/// The machine returned to its construction-time rotor positions; the
/// reflector and the plugboard have no state to restore.
pub open spec fn machine_reset(m: MachineSpec) -> MachineSpec {
    MachineSpec {
        left: rotor_reset(m.left),
        middle: rotor_reset(m.middle),
        right: rotor_reset(m.right),
        ..m
    }
}

/// Every letter of `s` is an alphabet index.
pub open spec fn letters_valid(s: Seq<int>) -> bool {
    forall|i: int| 0 <= i < s.len() ==> 0 <= #[trigger] s[i] < 26
}

/// The letters a machine produces for an input stream, keypress by
/// keypress: each step first advances the rotors, then routes the letter.
pub open spec fn encoded(m: MachineSpec, s: Seq<int>) -> Seq<int>
    decreases s.len(),
{
    if s.len() == 0 {
        Seq::empty()
    } else {
        seq![signal(stepped(m), s[0])] + encoded(stepped(m), s.skip(1))
    }
}

/// Stepping never disturbs the wiring, the tables, or well-formedness.
pub proof fn lemma_stepped_wf(m: MachineSpec)
    requires
        machine_wf(m),
    ensures
        machine_wf(stepped(m)),
{
    if m.middle.notches.contains(m.middle.pos) {
        lemma_advanced_wf(m.left);
    }
    lemma_advanced_wf(m.middle);
    lemma_advanced_wf(advanced(m.middle));
    lemma_advanced_wf(m.right);
}

/// One keypress of a machine undoes the same keypress of an equally set
/// machine: the signal path is an involution of the alphabet.
pub proof fn lemma_signal_involutive(m: MachineSpec, c: int)
    requires
        machine_wf(m),
        0 <= c < 26,
    ensures
        0 <= signal(m, c) < 26,
        signal(m, signal(m, c)) == c,
{
    let x0 = m.plug[c];
    lemma_transpose_involutive(m.plug, c);
    lemma_rotor_bwd_fwd(m.right, x0);
    let x1 = rotor_fwd(m.right, x0);
    lemma_rotor_bwd_fwd(m.middle, x1);
    let x2 = rotor_fwd(m.middle, x1);
    lemma_rotor_bwd_fwd(m.left, x2);
    let x3 = rotor_fwd(m.left, x2);
    lemma_reflect_involutive(m.reflector, x3);
    let x4 = m.reflector[x3];
    lemma_rotor_fwd_bwd(m.left, x4);
    let x5 = rotor_bwd(m.left, x4);
    lemma_rotor_fwd_bwd(m.middle, x5);
    let x6 = rotor_bwd(m.middle, x5);
    lemma_rotor_fwd_bwd(m.right, x6);
    let x7 = rotor_bwd(m.right, x6);
    lemma_transpose_involutive(m.plug, x7);
    let y = m.plug[x7];
    assert(signal(m, c) == y);
    assert(m.plug[y] == x7);
    assert(rotor_fwd(m.right, x7) == x6);
    assert(rotor_fwd(m.middle, x6) == x5);
    assert(rotor_fwd(m.left, x5) == x4);
    assert(m.reflector[x4] == x3);
    assert(rotor_bwd(m.left, x3) == x2);
    assert(rotor_bwd(m.middle, x2) == x1);
    assert(rotor_bwd(m.right, x1) == x0);
    assert(m.plug[x0] == c);
}

/// Round-trip law: a stream encoded by one machine is decoded by feeding
/// the ciphertext to an equally configured, equally positioned machine,
/// because both machines step identically and each keypress is an
/// involution of the alphabet.
pub proof fn lemma_encoded_involutive(m: MachineSpec, s: Seq<int>)
    requires
        machine_wf(m),
        letters_valid(s),
    ensures
        encoded(m, s).len() == s.len(),
        letters_valid(encoded(m, s)),
        encoded(m, encoded(m, s)) == s,
    decreases s.len(),
{
    if s.len() == 0 {
        assert(encoded(m, s) =~= s);
        assert(encoded(m, encoded(m, s)) =~= s);
    } else {
        let m2 = stepped(m);
        lemma_stepped_wf(m);
        lemma_signal_involutive(m2, s[0]);
        assert(letters_valid(s.skip(1)));
        lemma_encoded_involutive(m2, s.skip(1));
        let e = encoded(m, s);
        assert(e[0] == signal(m2, s[0]));
        assert(e.skip(1) =~= encoded(m2, s.skip(1)));
        assert(letters_valid(e)) by {
            assert(forall|i: int|
                0 < i < e.len() ==> #[trigger] e[i] == encoded(m2, s.skip(1))[i - 1]);
        }
        assert(encoded(m, e) == seq![signal(m2, e[0])] + encoded(m2, e.skip(1)));
        assert(signal(m2, e[0]) == s[0]);
        assert(encoded(m2, e.skip(1)) == s.skip(1));
        assert(encoded(m, e) =~= s);
    }
}

} // verus!
