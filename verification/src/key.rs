//! The keys that the keyboard accepts, and the note that each one plays.

use vstd::prelude::*;
use crate::pitch::Letter;

verus! {

/// The number of keys that play a note.
pub const NOTE_KEYS: u8 = 18;

/// Keys accepted by the keyboard.
#[derive(Copy, Clone, Debug, Hash, PartialEq, Eq, Structural)]
pub enum Key {
    // Keys that play a note, in rising pitch.
    A,
    W,
    S,
    E,
    D,
    F,
    T,
    G,
    Y,
    H,
    U,
    J,
    K,
    O,
    L,
    P,
    Semicolon,
    Quote,
    // Octave down and up.
    Z,
    X,
    // Velocity down and up.
    C,
    V,
}

impl Key {
    /// The note of the key: the octave it lies above the base octave, and its
    /// letter. `None` for a key that plays no note.
    pub open spec fn note(self) -> Option<(int, Letter)> {
        match self {
            Key::A => Some((0, Letter::C)),
            Key::W => Some((0, Letter::Csh)),
            Key::S => Some((0, Letter::D)),
            Key::E => Some((0, Letter::Dsh)),
            Key::D => Some((0, Letter::E)),
            Key::F => Some((0, Letter::F)),
            Key::T => Some((0, Letter::Fsh)),
            Key::G => Some((0, Letter::G)),
            Key::Y => Some((0, Letter::Gsh)),
            Key::H => Some((0, Letter::A)),
            Key::U => Some((0, Letter::Ash)),
            Key::J => Some((0, Letter::B)),
            Key::K => Some((1, Letter::C)),
            Key::O => Some((1, Letter::Csh)),
            Key::L => Some((1, Letter::D)),
            Key::P => Some((1, Letter::Dsh)),
            Key::Semicolon => Some((1, Letter::E)),
            Key::Quote => Some((1, Letter::F)),
            Key::Z | Key::X | Key::C | Key::V => None,
        }
    }

    /// Whether the key plays a note.
    pub open spec fn is_note_key(self) -> bool {
        self.note() is Some
    }

    /// Whether the key changes the octave or the velocity.
    pub open spec fn is_modifier(self) -> bool {
        self == Key::Z || self == Key::X || self == Key::C || self == Key::V
    }

    /// The position of the key in the declaration order, from 0.
    pub open spec fn ordinal(self) -> u8 {
        match self {
            Key::A => 0,
            Key::W => 1,
            Key::S => 2,
            Key::E => 3,
            Key::D => 4,
            Key::F => 5,
            Key::T => 6,
            Key::G => 7,
            Key::Y => 8,
            Key::H => 9,
            Key::U => 10,
            Key::J => 11,
            Key::K => 12,
            Key::O => 13,
            Key::L => 14,
            Key::P => 15,
            Key::Semicolon => 16,
            Key::Quote => 17,
            Key::Z => 18,
            Key::X => 19,
            Key::C => 20,
            Key::V => 21,
        }
    }

    /// The key at a position of the declaration order.
    pub open spec fn at(ordinal: u8) -> Option<Key> {
        match ordinal {
            0 => Some(Key::A),
            1 => Some(Key::W),
            2 => Some(Key::S),
            3 => Some(Key::E),
            4 => Some(Key::D),
            5 => Some(Key::F),
            6 => Some(Key::T),
            7 => Some(Key::G),
            8 => Some(Key::Y),
            9 => Some(Key::H),
            10 => Some(Key::U),
            11 => Some(Key::J),
            12 => Some(Key::K),
            13 => Some(Key::O),
            14 => Some(Key::L),
            15 => Some(Key::P),
            16 => Some(Key::Semicolon),
            17 => Some(Key::Quote),
            18 => Some(Key::Z),
            19 => Some(Key::X),
            20 => Some(Key::C),
            21 => Some(Key::V),
            _ => None,
        }
    }

    /// The position of the key in the declaration order, from 0. The
    /// keyboard files a held key under this number.
    pub fn index(self) -> (i: u8)
        ensures
            i == self.ordinal(),
            Key::at(i) == Some(self),
            self.is_note_key() <==> i < NOTE_KEYS,
    {
        match self {
            Key::A => 0,
            Key::W => 1,
            Key::S => 2,
            Key::E => 3,
            Key::D => 4,
            Key::F => 5,
            Key::T => 6,
            Key::G => 7,
            Key::Y => 8,
            Key::H => 9,
            Key::U => 10,
            Key::J => 11,
            Key::K => 12,
            Key::O => 13,
            Key::L => 14,
            Key::P => 15,
            Key::Semicolon => 16,
            Key::Quote => 17,
            Key::Z => 18,
            Key::X => 19,
            Key::C => 20,
            Key::V => 21,
        }
    }
}

/// A key is found again from its position: no two keys share one.
pub proof fn lemma_ordinal_round_trip(key: Key)
    ensures
        Key::at(key.ordinal()) == Some(key),
        key.ordinal() < 22,
        key.is_note_key() <==> key.ordinal() < NOTE_KEYS,
{
}

/// Every position below 22 has its key.
pub proof fn lemma_at_round_trip(ordinal: u8)
    ensures
        Key::at(ordinal) is Some <==> ordinal < 22,
        Key::at(ordinal) matches Some(key) ==> key.ordinal() == ordinal,
{
}

/// Two keys at the same position are the same key.
pub proof fn lemma_ordinal_injective(a: Key, b: Key)
    requires
        a.ordinal() == b.ordinal(),
    ensures
        a == b,
{
    lemma_ordinal_round_trip(a);
    lemma_ordinal_round_trip(b);
}

} // verus!
