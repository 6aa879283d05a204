//! Pitch names: the twelve letters of the chromatic scale and the octave number.

use vstd::prelude::*;

verus! {

/// The number of an octave. It may be negative.
pub type Octave = i32;

/// The number of semitones in an octave.
pub const SEMITONES_PER_OCTAVE: u8 = 12;

/// The twelve pitch classes of the chromatic scale, sharps only.
#[derive(Copy, Clone, Debug, PartialEq, Eq, Hash, Structural)]
pub enum Letter {
    C,
    Csh,
    D,
    Dsh,
    E,
    F,
    Fsh,
    G,
    Gsh,
    A,
    Ash,
    B,
}

impl Letter {
    /// How many semitones the letter lies above C.
    pub open spec fn semitone(self) -> int {
        match self {
            Letter::C => 0,
            Letter::Csh => 1,
            Letter::D => 2,
            Letter::Dsh => 3,
            Letter::E => 4,
            Letter::F => 5,
            Letter::Fsh => 6,
            Letter::G => 7,
            Letter::Gsh => 8,
            Letter::A => 9,
            Letter::Ash => 10,
            Letter::B => 11,
        }
    }
}

} // verus!
