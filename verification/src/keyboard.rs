//! The keyboard: its base octave, its velocity and the keys that are held.

use std::collections::HashMap;
use vstd::prelude::*;
use crate::key::{
    lemma_at_round_trip, lemma_ordinal_injective, lemma_ordinal_round_trip, Key, NOTE_KEYS,
};
use crate::model::{KeyboardState, OCTAVE_MAX, OCTAVE_MIN};
use crate::note::{NoteOff, NoteOn, Velocity, VELOCITY_FULL, VELOCITY_STEP, VELOCITY_ZERO};
use crate::pitch::{Letter, Octave};

verus! {

broadcast use vstd::std_specs::hash::group_hash_axioms;

/// The base octave of a keyboard made by `default`.
pub const DEFAULT_OCTAVE: Octave = 2;

/// Turns the keys of a computer keyboard into musical notes.
#[derive(Debug)]
pub struct MusicalKeyboard {
    /// The current base octave for the keyboard.
    pub octave: Octave,
    /// The current velocity for the generated notes.
    pub velocity: Velocity,
    /// The currently pressed keys, each filed under `Key::index` with the
    /// octave of the note it started.
    pub currently_pressed_keys: HashMap<u8, Octave>,
}

impl View for MusicalKeyboard {
    type V = KeyboardState;

    open spec fn view(&self) -> KeyboardState {
        KeyboardState {
            octave: self.octave as int,
            velocity: self.velocity as int,
            pressed: Map::new(
                |k: Key| self.currently_pressed_keys@.contains_key(k.ordinal()),
                |k: Key| self.currently_pressed_keys@[k.ordinal()] as int,
            ),
        }
    }
}

impl Clone for MusicalKeyboard {
    /// A keyboard in the same state, with the same keys held.
    fn clone(&self) -> (copy: MusicalKeyboard)
        ensures
            copy.octave == self.octave,
            copy.velocity == self.velocity,
            copy.currently_pressed_keys@ == self.currently_pressed_keys@,
            copy@ == self@,
            copy.wf() == self.wf(),
    {
        MusicalKeyboard {
            octave: self.octave,
            velocity: self.velocity,
            currently_pressed_keys: self.currently_pressed_keys.clone(),
        }
    }
}

impl Default for MusicalKeyboard {
    /// A keyboard at octave 2 and full velocity, with no key held.
    fn default() -> (keyboard: MusicalKeyboard)
        ensures
            keyboard.wf(),
            keyboard@ == KeyboardState::initial(DEFAULT_OCTAVE as int, VELOCITY_FULL as int),
    {
        MusicalKeyboard::new(DEFAULT_OCTAVE, VELOCITY_FULL)
    }
}

impl MusicalKeyboard {
    /// The invariant of the keyboard: that of its state, and every held key is
    /// filed under the position of a note key.
    pub open spec fn wf(&self) -> bool {
        &&& self@.wf()
        &&& forall|slot: u8| #[trigger]
            self.currently_pressed_keys@.contains_key(slot) ==> slot < NOTE_KEYS
    }

    /// Constructor for MusicalKeyboard. No key is held. The keyboard is well
    /// formed when the octave and the velocity are within their bounds.
    pub fn new(octave: Octave, velocity: Velocity) -> (keyboard: MusicalKeyboard)
        ensures
            keyboard@ == KeyboardState::initial(octave as int, velocity as int),
            keyboard.currently_pressed_keys@ == Map::<u8, Octave>::empty(),
            OCTAVE_MIN <= octave <= OCTAVE_MAX && VELOCITY_ZERO <= velocity <= VELOCITY_FULL
                ==> keyboard.wf(),
    {
        let keyboard = MusicalKeyboard {
            octave: octave,
            velocity: velocity,
            currently_pressed_keys: HashMap::new(),
        };
        assert(keyboard@.pressed =~= Map::<Key, int>::empty());
        keyboard
    }

    /// Whether the keyboard is well formed. The fields are open to callers:
    /// this tells whether the key operations may be used on what they hold.
    pub fn is_well_formed(&self) -> (ok: bool)
        ensures
            ok == self.wf(),
    {
        if self.octave < OCTAVE_MIN || self.octave > OCTAVE_MAX {
            return false;
        }
        if self.velocity <= VELOCITY_ZERO - VELOCITY_STEP || self.velocity >= VELOCITY_FULL
            + VELOCITY_STEP {
            return false;
        }
        let mut next: u16 = 0;
        while next < 256
            invariant
                next <= 256,
                forall|slot: u8|
                    slot < next && #[trigger] self.currently_pressed_keys@.contains_key(slot)
                        ==> slot < NOTE_KEYS && OCTAVE_MIN
                        <= self.currently_pressed_keys@[slot] <= OCTAVE_MAX + 1,
            decreases 256 - next,
        {
            let slot: u8 = next as u8;
            match self.currently_pressed_keys.get(&slot) {
                Some(octave) => {
                    if slot >= NOTE_KEYS || *octave < OCTAVE_MIN || *octave > OCTAVE_MAX + 1 {
                        proof {
                            lemma_at_round_trip(slot);
                            if slot < NOTE_KEYS {
                                let key = Key::at(slot)->Some_0;
                                assert(self@.pressed.contains_key(key));
                            }
                        }
                        return false;
                    }
                },
                None => {},
            }
            next += 1;
        }
        proof {
            assert forall|k: Key| #[trigger] self@.pressed.contains_key(k) implies k.is_note_key()
                && OCTAVE_MIN <= self@.pressed[k] <= OCTAVE_MAX + 1 by {
                lemma_ordinal_round_trip(k);
            }
        }
        true
    }

    /// Return a NoteOn given some pressed key.
    ///
    /// - Z will step the octave down.
    /// - X will step the octave up.
    /// - C will step the velocity down.
    /// - V will step the velocity up.
    /// - Home-row and some of the top row will start a note, unless the key
    ///   is held already.
    pub fn key_pressed(&mut self, key: Key) -> (event: Option<NoteOn>)
        requires
            old(self).wf(),
        ensures
            final(self).wf(),
            final(self)@ == old(self)@.after_press(key),
            match event {
                Some(on) => old(self)@.note_on(key) == Some(on@),
                None => old(self)@.note_on(key) is None,
            },
    {
        match key {
            Key::Z => if self.octave > OCTAVE_MIN {
                self.octave -= 1
            },
            Key::X => if self.octave < OCTAVE_MAX {
                self.octave += 1
            },
            Key::C => if self.velocity > VELOCITY_ZERO {
                self.velocity -= VELOCITY_STEP
            },
            Key::V => if self.velocity < VELOCITY_FULL {
                self.velocity += VELOCITY_STEP
            },
            other => return self.maybe_note_on(other),
        }
        assert(self@.pressed =~= old(self)@.pressed);
        None
    }

    /// Return a NoteOff given some released key.
    pub fn key_released(&mut self, key: Key) -> (event: Option<NoteOff>)
        requires
            old(self).wf(),
        ensures
            final(self).wf(),
            final(self)@ == old(self)@.after_release(key),
            match event {
                Some(off) => old(self)@.note_off(key) == Some(off@),
                None => old(self)@.note_off(key) is None,
            },
    {
        self.maybe_note_off(key)
    }

    /// The note of a key at the current base octave, if it plays one.
    /// The key pattern models a piano's keys, where Key::A is a piano's C.
    /// The keyboard is left as it was.
    pub fn maybe_note(&mut self, key: Key) -> (note: Option<(Letter, Octave)>)
        requires
            old(self).wf(),
        ensures
            *final(self) == *old(self),
            match note {
                Some((letter, octave)) => old(self)@.resolve(key) == Some((letter, octave as int)),
                None => old(self)@.resolve(key) is None,
            },
    {
        let (octave, letter): (Octave, Letter) = match key {
            Key::A => (0, Letter::C),
            Key::W => (0, Letter::Csh),
            Key::S => (0, Letter::D),
            Key::E => (0, Letter::Dsh),
            Key::D => (0, Letter::E),
            Key::F => (0, Letter::F),
            Key::T => (0, Letter::Fsh),
            Key::G => (0, Letter::G),
            Key::Y => (0, Letter::Gsh),
            Key::H => (0, Letter::A),
            Key::U => (0, Letter::Ash),
            Key::J => (0, Letter::B),
            Key::K => (1, Letter::C),
            Key::O => (1, Letter::Csh),
            Key::L => (1, Letter::D),
            Key::P => (1, Letter::Dsh),
            Key::Semicolon => (1, Letter::E),
            Key::Quote => (1, Letter::F),
            _ => return None,
        };
        Some((letter, octave + self.octave))
    }

    /// Starts the note of a pressed key and gives its note on event.
    ///
    /// If the given key is already pressed, it is ignored. This helps to avoid
    /// triggering notes from a window's key-repeat function.
    pub fn maybe_note_on(&mut self, key: Key) -> (event: Option<NoteOn>)
        requires
            old(self).wf(),
        ensures
            final(self).wf(),
            final(self)@ == old(self)@.after_note_on(key),
            match event {
                Some(on) => old(self)@.note_on(key) == Some(on@),
                None => old(self)@.note_on(key) is None,
            },
    {
        match self.maybe_note(key) {
            None => None,
            Some((letter, octave)) => {
                let slot: u8 = key.index();
                if self.currently_pressed_keys.contains_key(&slot) {
                    None
                } else {
                    self.currently_pressed_keys.insert(slot, octave);
                    proof {
                        assert forall|k: Key| k.ordinal() == slot implies k == key by {
                            lemma_ordinal_injective(k, key);
                        }
                        assert(self@.pressed =~= old(self)@.pressed.insert(
                            key,
                            octave as int,
                        ));
                    }
                    Some(NoteOn { letter: letter, octave: octave, velocity: self.velocity })
                }
            },
        }
    }

    /// Ends the note of a released key and gives its note off event, with
    /// the octave the note was started at. A note key that is not held gives
    /// a note off event at its current octave.
    pub fn maybe_note_off(&mut self, key: Key) -> (event: Option<NoteOff>)
        requires
            old(self).wf(),
        ensures
            final(self).wf(),
            final(self)@ == old(self)@.after_note_off(key),
            match event {
                Some(off) => old(self)@.note_off(key) == Some(off@),
                None => old(self)@.note_off(key) is None,
            },
    {
        match self.maybe_note(key) {
            None => None,
            Some((letter, octave)) => {
                let slot: u8 = key.index();
                let held = self.currently_pressed_keys.remove(&slot);
                proof {
                    assert forall|k: Key| k.ordinal() == slot implies k == key by {
                        lemma_ordinal_injective(k, key);
                    }
                    assert(self@.pressed =~= old(self)@.pressed.remove(key));
                }
                match held {
                    None => Some(NoteOff { letter: letter, octave: octave }),
                    Some(old_octave) => Some(NoteOff { letter: letter, octave: old_octave }),
                }
            },
        }
    }
}

} // verus!
