//! Display state for a running machine: the rotor window letters and the
//! streams of typed and encoded letters, grouped five to a block.

use crate::alphabet::push_char;
use vstd::prelude::*;

verus! {

/// The rendered rotor positions: one space before each window letter.
pub open spec fn rotor_string(positions: Seq<char>) -> Seq<char>
    decreases positions.len(),
{
    if positions.len() == 0 {
        Seq::empty()
    } else {
        rotor_string(positions.drop_last()) + seq![' ', positions.last()]
    }
}

/// How many letters of the stream are real keys, not group separators.
pub open spec fn raw_count(s: Seq<char>) -> nat
    decreases s.len(),
{
    if s.len() == 0 {
        0
    } else {
        raw_count(s.drop_last()) + (if s.last() == ' ' {
            0nat
        } else {
            1nat
        })
    }
}

/// Counts the characters of `s` that are not spaces.
fn count_raw(s: &String) -> (n: usize)
    ensures
        n == raw_count(s@),
{
    let st = s.as_str();
    let len = st.unicode_len();
    let mut i: usize = 0;
    let mut n: usize = 0;
    while i < len
        invariant
            i <= len,
            len == s@.len(),
            st@ == s@,
            n == raw_count(s@.take(i as int)),
            n <= i,
        decreases len - i,
    {
        let c = st.get_char(i);
        proof {
            assert(s@.take(i + 1).drop_last() =~= s@.take(i as int));
            assert(s@.take(i + 1).last() == s@[i as int]);
        }
        if c != ' ' {
            n = n + 1;
        }
        i = i + 1;
    }
    proof {
        assert(s@.take(len as int) =~= s@);
    }
    n
}

/// What an observer of the machine sees: the rotor windows and the input
/// and output streams typed so far.
pub struct MachineState {
    /// The rotor window letters, each preceded by a space.
    pub machine_state: String,
    /// Keys pressed so far, in five-letter groups.
    pub input_state: String,
    /// Letters produced so far, in five-letter groups.
    pub output_state: String,
}

impl MachineState {
    /// A fresh display for a machine showing the given rotor positions.
    pub fn new(rotor_positions: &[char]) -> (r: Self)
        ensures
            r.machine_state@ == rotor_string(rotor_positions@),
            r.input_state@ == Seq::<char>::empty(),
            r.output_state@ == Seq::<char>::empty(),
    {
        MachineState {
            machine_state: MachineState::build_rotor_string(rotor_positions),
            input_state: String::new(),
            output_state: String::new(),
        }
    }

    /// Records one keypress: refreshes the rotor display, appends the typed
    /// and produced letters, and closes a five-letter group with a space
    /// once the count of real keys reaches a multiple of five.
    pub fn update(&mut self, input: char, output: char, rotor_positions: &[char])
        ensures
            final(self).machine_state@ == rotor_string(rotor_positions@),
            ({
                let base_in = old(self).input_state@.push(input);
                let base_out = old(self).output_state@.push(output);
                if raw_count(base_in) % 5 == 0 {
                    &&& final(self).input_state@ == base_in.push(' ')
                    &&& final(self).output_state@ == base_out.push(' ')
                } else {
                    &&& final(self).input_state@ == base_in
                    &&& final(self).output_state@ == base_out
                }
            }),
    {
        self.machine_state = MachineState::build_rotor_string(rotor_positions);
        push_char(&mut self.input_state, input);
        push_char(&mut self.output_state, output);
        let raw = count_raw(&self.input_state);
        if raw % 5 == 0 {
            push_char(&mut self.input_state, ' ');
            push_char(&mut self.output_state, ' ');
        }
    }

    /// Renders rotor positions with a space before each letter.
    fn build_rotor_string(rotor_positions: &[char]) -> (s: String)
        ensures
            s@ == rotor_string(rotor_positions@),
    {
        let mut s = String::new();
        let len = rotor_positions.len();
        let mut i: usize = 0;
        while i < len
            invariant
                i <= len,
                len == rotor_positions@.len(),
                s@ == rotor_string(rotor_positions@.take(i as int)),
            decreases len - i,
        {
            let c = *vstd::slice::slice_index_get(rotor_positions, i);
            push_char(&mut s, ' ');
            push_char(&mut s, c);
            proof {
                assert(rotor_positions@.take(i + 1).drop_last() =~= rotor_positions@.take(
                    i as int,
                ));
                assert(rotor_positions@.take(i + 1).last() == rotor_positions@[i as int]);
                assert(s@ =~= rotor_string(rotor_positions@.take(i + 1)));
            }
            i = i + 1;
        }
        proof {
            assert(rotor_positions@.take(len as int) =~= rotor_positions@);
        }
        s
    }
}

} // verus!
