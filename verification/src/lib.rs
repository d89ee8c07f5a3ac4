//! A verified emulation of an electromechanical rotor cipher machine.
//!
//! The machine composes three stepping rotors, a fixed reflector and an
//! optional plugboard into a keyed substitution cipher.  Each keypress first
//! steps the rotors (with the historical double-stepping anomaly) and then
//! routes the letter through the plugboard, the rotor stack, the reflector
//! and back out.  Every operation is verified against the abstract model in
//! [`machine`], which also carries the cipher's round-trip law.

pub mod alphabet;
pub mod machine;
pub mod plugboard;
pub mod reflectors;
pub mod rotors;
pub mod state;

use crate::alphabet::{char_of, is_letter, lemma_char_of_val, letter_val, push_char};
use crate::machine::{machine_reset, machine_wf, signal, stepped, MachineSpec};
use crate::plugboard::{identity_table, lemma_identity_wf, plug_wf, Plugboard};
use crate::reflectors::Reflector;
use crate::rotors::{rotor_bwd, rotor_fwd, RotorEncode};
use vstd::prelude::*;

verus! {

/// Why a keypress was rejected; each variant carries the offending
/// character.  A rejected character never moves the rotors.
#[derive(Debug, PartialEq, Eq, Structural)]
pub enum EnigmaError {
    /// The character is outside the 7-bit ASCII range.
    NonAsciiCharacter(char),
    /// The character is ASCII but not a letter.
    NonAlphabeticCharacter(char),
    /// The character is a letter but not uppercase.
    NonUppercaseCharacter(char),
}

/// The text of an error report: the offending character between quotes,
/// followed by what the character fails to be.
pub open spec fn message_spec(e: EnigmaError) -> Seq<char> {
    match e {
        EnigmaError::NonAsciiCharacter(c) => "'"@ + seq![c] + "' is not an ASCII character"@,
        EnigmaError::NonAlphabeticCharacter(c) => "'"@ + seq![c]
            + "' is not an alphabetic character"@,
        EnigmaError::NonUppercaseCharacter(c) => "'"@ + seq![c]
            + "' is not an uppercase character"@,
    }
}

impl EnigmaError {
    /// Renders the error for display.
    pub fn message(&self) -> (r: String)
        ensures
            r@ == message_spec(*self),
    {
        let mut s = String::new();
        s.append("'");
        let pair = match self {
            EnigmaError::NonAsciiCharacter(c) => (*c, "' is not an ASCII character"),
            EnigmaError::NonAlphabeticCharacter(c) => (*c, "' is not an alphabetic character"),
            EnigmaError::NonUppercaseCharacter(c) => (*c, "' is not an uppercase character"),
        };
        push_char(&mut s, pair.0);
        s.append(pair.1);
        proof {
            assert(s@ =~= message_spec(*self));
        }
        s
    }
}

/// `c` is an ASCII letter of either case.
pub open spec fn is_ascii_alpha(c: char) -> bool {
    is_letter(c) || (97 <= c as int <= 122)
}

/// The outcome of input validation: the checks run in order, so the first
/// failing condition names the error.
pub open spec fn check_spec(c: char) -> Result<char, EnigmaError> {
    if c as int >= 128 {
        Err(EnigmaError::NonAsciiCharacter(c))
    } else if !is_ascii_alpha(c) {
        Err(EnigmaError::NonAlphabeticCharacter(c))
    } else if !is_letter(c) {
        Err(EnigmaError::NonUppercaseCharacter(c))
    } else {
        Ok(c)
    }
}

/// Validates one input character for the machine.
fn check_input(input: char) -> (r: Result<char, EnigmaError>)
    ensures
        r == check_spec(input),
{
    let u = input as u32;
    if u >= 128 {
        Err(EnigmaError::NonAsciiCharacter(input))
    } else if !((65 <= u && u <= 90) || (97 <= u && u <= 122)) {
        Err(EnigmaError::NonAlphabeticCharacter(input))
    } else if !(65 <= u && u <= 90) {
        Err(EnigmaError::NonUppercaseCharacter(input))
    } else {
        Ok(input)
    }
}

/// The plugboard table a machine routes its signals through: the fitted
/// board's table, or the identity when none is fitted.
pub open spec fn plug_view(p: Option<Plugboard>) -> Seq<int> {
    match p {
        Some(pb) => pb@,
        None => identity_table(),
    }
}

/// The operations of an assembled cipher machine.
pub trait Enigma: Sized {
    /// The abstract machine this value stands for.
    spec fn mspec(&self) -> MachineSpec;

    /// All components are well formed.
    spec fn wf(&self) -> bool;

    /// A well-formed machine's abstract state is well formed.
    proof fn wf_mspec(&self)
        requires
            self.wf(),
        ensures
            machine_wf(self.mspec()),
    ;

    /// Returns all rotors to their construction-time positions; the
    /// reflector and plugboard carry no state to restore.
    fn reset(&mut self)
        requires
            old(self).wf(),
        ensures
            final(self).wf(),
            final(self).mspec() == machine_reset(old(self).mspec()),
    ;

    /// Presses one key: validates the input, steps the rotors, and routes
    /// the letter through the full signal path.  A rejected character
    /// leaves the machine exactly as it was.
    fn keypress(&mut self, input: char) -> (r: Result<char, EnigmaError>)
        requires
            old(self).wf(),
        ensures
            final(self).wf(),
            (match check_spec(input) {
                Ok(_) => {
                    &&& final(self).mspec() == stepped(old(self).mspec())
                    &&& r == Ok::<char, EnigmaError>(
                        char_of(signal(stepped(old(self).mspec()), letter_val(input))),
                    )
                },
                Err(e) => {
                    &&& r == Err::<char, EnigmaError>(e)
                    &&& *final(self) == *old(self)
                },
            }),
    ;

    /// The plugboard's swap, or the identity where no board is fitted.
    fn plugboard_transpose(&self, input: char) -> (r: char)
        requires
            self.wf(),
        ensures
            is_letter(input) ==> r == char_of(self.mspec().plug[letter_val(input)]),
            !is_letter(input) ==> r == input,
    ;

    /// The visible rotor positions, left to right.
    fn settings(&self) -> (r: Vec<char>)
        requires
            self.wf(),
        ensures
            r@ == seq![
                char_of(self.mspec().left.pos),
                char_of(self.mspec().middle.pos),
                char_of(self.mspec().right.pos),
            ],
    ;
}

/// A three-rotor machine with a reflector and an optional plugboard.
pub struct ArmyEnigma<A, B, C, D, E> {
    rotor1: A,
    rotor2: B,
    rotor3: C,
    reflector: D,
    plugboard: Option<E>,
}

impl<A: RotorEncode, B: RotorEncode, C: RotorEncode, D: Reflector> ArmyEnigma<
    A,
    B,
    C,
    D,
    Plugboard,
> {
    /// Assembles a machine, taking ownership of all components.
    pub fn new(
        rotor1: A,
        rotor2: B,
        rotor3: C,
        reflector: D,
        plugboard: Option<Plugboard>,
    ) -> (r: Self)
        requires
            rotor1.wf(),
            rotor2.wf(),
            rotor3.wf(),
            plugboard matches Some(pb) ==> pb.wf(),
        ensures
            r.wf(),
            r.mspec() == (MachineSpec {
                left: rotor1.rspec(),
                middle: rotor2.rspec(),
                right: rotor3.rspec(),
                reflector: reflector.table(),
                plug: plug_view(plugboard),
            }),
    {
        ArmyEnigma { rotor1, rotor2, rotor3, reflector, plugboard }
    }
}

impl<A: RotorEncode, B: RotorEncode, C: RotorEncode, D: Reflector> Enigma for ArmyEnigma<
    A,
    B,
    C,
    D,
    Plugboard,
> {
    closed spec fn mspec(&self) -> MachineSpec {
        MachineSpec {
            left: self.rotor1.rspec(),
            middle: self.rotor2.rspec(),
            right: self.rotor3.rspec(),
            reflector: self.reflector.table(),
            plug: plug_view(self.plugboard),
        }
    }

    closed spec fn wf(&self) -> bool {
        &&& self.rotor1.wf()
        &&& self.rotor2.wf()
        &&& self.rotor3.wf()
        &&& (self.plugboard matches Some(pb) ==> pb.wf())
    }

    proof fn wf_mspec(&self) {
        self.rotor1.wf_tables();
        self.rotor2.wf_tables();
        self.rotor3.wf_tables();
        self.reflector.table_wf();
        if self.plugboard is None {
            lemma_identity_wf();
        }
    }

    fn reset(&mut self) {
        proof {
            self.rotor1.wf_tables();
            self.rotor2.wf_tables();
            self.rotor3.wf_tables();
            lemma_char_of_val(self.rotor1.rspec().ring);
            lemma_char_of_val(self.rotor1.rspec().init);
            lemma_char_of_val(self.rotor2.rspec().ring);
            lemma_char_of_val(self.rotor2.rspec().init);
            lemma_char_of_val(self.rotor3.rspec().ring);
            lemma_char_of_val(self.rotor3.rspec().init);
        }
        let ring1 = self.rotor1.ring_setting();
        let init1 = self.rotor1.init_position();
        self.rotor1 = A::new(ring1, init1);
        let ring2 = self.rotor2.ring_setting();
        let init2 = self.rotor2.init_position();
        self.rotor2 = B::new(ring2, init2);
        let ring3 = self.rotor3.ring_setting();
        let init3 = self.rotor3.init_position();
        self.rotor3 = C::new(ring3, init3);
        proof {
            assert(self.mspec() == machine_reset(old(self).mspec()));
        }
    }

    fn keypress(&mut self, input: char) -> (r: Result<char, EnigmaError>) {
        let checked = check_input(input);
        match checked {
            Err(e) => {
                return Err(e);
            },
            Ok(_) => {},
        }
        assert(is_letter(input));

        let right_at_notch = self.rotor3.at_notch();
        let middle_at_notch = self.rotor2.at_notch();

        self.rotor3.advance();

        if right_at_notch {
            self.rotor2.advance();
        }

        if middle_at_notch {
            self.rotor2.advance();
            self.rotor1.advance();
        }

        let ghost mm = stepped(old(self).mspec());
        let ghost c0 = letter_val(input);
        proof {
            assert(self.mspec() == mm);
            if self.plugboard is None {
                lemma_identity_wf();
            }
            assert(plug_wf(mm.plug));
        }

        let o1 = self.plugboard_transpose(input);
        let ghost x1 = mm.plug[c0];
        proof {
            lemma_char_of_val(x1);
        }
        let o2 = self.rotor3.transpose_in(o1);
        let ghost x2 = rotor_fwd(mm.right, x1);
        proof {
            lemma_char_of_val(x2);
        }
        let o3 = self.rotor2.transpose_in(o2);
        let ghost x3 = rotor_fwd(mm.middle, x2);
        proof {
            lemma_char_of_val(x3);
        }
        let o4 = self.rotor1.transpose_in(o3);
        let ghost x4 = rotor_fwd(mm.left, x3);
        proof {
            lemma_char_of_val(x4);
        }
        let o5 = self.reflector.transpose(o4);
        let ghost x5 = mm.reflector[x4];
        proof {
            self.reflector.table_wf();
            lemma_char_of_val(x5);
        }
        let o6 = self.rotor1.transpose_out(o5);
        let ghost x6 = rotor_bwd(mm.left, x5);
        proof {
            lemma_char_of_val(x6);
        }
        let o7 = self.rotor2.transpose_out(o6);
        let ghost x7 = rotor_bwd(mm.middle, x6);
        proof {
            lemma_char_of_val(x7);
        }
        let o8 = self.rotor3.transpose_out(o7);
        let ghost x8 = rotor_bwd(mm.right, x7);
        proof {
            lemma_char_of_val(x8);
        }
        let o9 = self.plugboard_transpose(o8);
        proof {
            assert(o9 == char_of(mm.plug[x8]));
            assert(signal(mm, c0) == mm.plug[x8]);
        }

        Ok(o9)
    }

    fn plugboard_transpose(&self, input: char) -> (r: char) {
        match &self.plugboard {
            Some(pb) => pb.transpose(input),
            None => {
                proof {
                    if is_letter(input) {
                        crate::alphabet::lemma_val_char_of(input);
                    }
                }
                input
            },
        }
    }

    fn settings(&self) -> (r: Vec<char>) {
        let mut positions = Vec::new();
        positions.push(self.rotor1.position());
        positions.push(self.rotor2.position());
        positions.push(self.rotor3.position());
        proof {
            assert(positions@ =~= seq![
                char_of(self.mspec().left.pos),
                char_of(self.mspec().middle.pos),
                char_of(self.mspec().right.pos),
            ]);
        }
        positions
    }
}

} // verus!


