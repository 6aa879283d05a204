//! The keyboard as a state machine over unbounded integers.
//!
//! The executable keyboard is specified against these functions: each of its
//! operations says which state follows and which event is emitted.

use vstd::prelude::*;
use crate::key::Key;
use crate::note::{NoteOffView, NoteOnView, VELOCITY_FULL, VELOCITY_STEP, VELOCITY_ZERO};
use crate::pitch::{Letter, Octave};

verus! {

/// The lowest base octave.
pub const OCTAVE_MIN: Octave = -2;

/// The highest base octave.
pub const OCTAVE_MAX: Octave = 12;

/// The state of a keyboard.
pub struct KeyboardState {
    /// The base octave.
    pub octave: int,
    /// The velocity given to the notes that start.
    pub velocity: int,
    /// The keys that are held, each with the octave of the note it started.
    pub pressed: Map<Key, int>,
}

/// A key going down or coming up.
pub enum KeyEvent {
    Press(Key),
    Release(Key),
}

impl KeyboardState {
    /// The state of a new keyboard: no key is held.
    pub open spec fn initial(octave: int, velocity: int) -> KeyboardState {
        KeyboardState { octave, velocity, pressed: Map::empty() }
    }

    /// The invariant of the keyboard. The base octave is within its bounds.
    /// The velocity lies less than one step outside its bounds: a step is
    /// taken whenever the velocity is strictly inside the bound, and is not
    /// shortened. Only note keys are held, each with an octave that a note key
    /// can have.
    pub open spec fn wf(self) -> bool {
        &&& OCTAVE_MIN <= self.octave <= OCTAVE_MAX
        &&& VELOCITY_ZERO - VELOCITY_STEP < self.velocity < VELOCITY_FULL + VELOCITY_STEP
        &&& forall|k: Key| #[trigger]
            self.pressed.contains_key(k) ==> k.is_note_key() && OCTAVE_MIN <= self.pressed[k]
                <= OCTAVE_MAX + 1
    }

    /// Whether the key is held.
    pub open spec fn is_held(self, key: Key) -> bool {
        self.pressed.contains_key(key)
    }

    /// The letter and the octave that the key plays at the current base
    /// octave. `None` for a key that plays no note.
    pub open spec fn resolve(self, key: Key) -> Option<(Letter, int)> {
        match key.note() {
            Some((offset, letter)) => Some((letter, offset + self.octave)),
            None => None,
        }
    }

    /// The event that starting the key's note emits: none for a key that
    /// plays no note, and none for a key that is held already.
    pub open spec fn note_on(self, key: Key) -> Option<NoteOnView> {
        match self.resolve(key) {
            Some((letter, octave)) if !self.is_held(key) => Some(
                NoteOnView { letter, octave, velocity: self.velocity },
            ),
            _ => None,
        }
    }

    /// The state after starting the key's note: a note key that was not held
    /// is now held, with the octave of its note. Nothing else changes.
    pub open spec fn after_note_on(self, key: Key) -> KeyboardState {
        match self.resolve(key) {
            Some((_, octave)) if !self.is_held(key) => KeyboardState {
                pressed: self.pressed.insert(key, octave),
                ..self
            },
            _ => self,
        }
    }

    /// The event that ending the key's note emits: none for a key that plays
    /// no note; for a held key, its letter and the octave it is held with;
    /// for a note key that is not held, its letter and its current octave.
    pub open spec fn note_off(self, key: Key) -> Option<NoteOffView> {
        match self.resolve(key) {
            Some((letter, octave)) => Some(
                NoteOffView {
                    letter,
                    octave: if self.is_held(key) {
                        self.pressed[key]
                    } else {
                        octave
                    },
                },
            ),
            None => None,
        }
    }

    /// The state after ending the key's note: a note key is no longer held.
    /// Nothing else changes.
    pub open spec fn after_note_off(self, key: Key) -> KeyboardState {
        if key.is_note_key() {
            KeyboardState { pressed: self.pressed.remove(key), ..self }
        } else {
            self
        }
    }

    /// The velocity after one step down, taken only above zero.
    pub open spec fn velocity_down(self) -> int {
        if self.velocity > VELOCITY_ZERO {
            self.velocity - VELOCITY_STEP
        } else {
            self.velocity
        }
    }

    /// The velocity after one step up, taken only below full amplitude.
    pub open spec fn velocity_up(self) -> int {
        if self.velocity < VELOCITY_FULL {
            self.velocity + VELOCITY_STEP
        } else {
            self.velocity
        }
    }

    /// The state after the key goes down. `Z` and `X` move the base octave by
    /// one within its bounds, `C` and `V` move the velocity by one step, and
    /// any other key starts its note.
    pub open spec fn after_press(self, key: Key) -> KeyboardState {
        match key {
            Key::Z => KeyboardState {
                octave: if self.octave > OCTAVE_MIN {
                    self.octave - 1
                } else {
                    self.octave
                },
                ..self
            },
            Key::X => KeyboardState {
                octave: if self.octave < OCTAVE_MAX {
                    self.octave + 1
                } else {
                    self.octave
                },
                ..self
            },
            Key::C => KeyboardState { velocity: self.velocity_down(), ..self },
            Key::V => KeyboardState { velocity: self.velocity_up(), ..self },
            _ => self.after_note_on(key),
        }
    }

    /// The state after the key comes up.
    pub open spec fn after_release(self, key: Key) -> KeyboardState {
        self.after_note_off(key)
    }

    /// The state after one event.
    pub open spec fn step(self, event: KeyEvent) -> KeyboardState {
        match event {
            KeyEvent::Press(key) => self.after_press(key),
            KeyEvent::Release(key) => self.after_release(key),
        }
    }

    /// The state after a sequence of events, first to last.
    pub open spec fn run(self, events: Seq<KeyEvent>) -> KeyboardState
        decreases events.len(),
    {
        if events.len() == 0 {
            self
        } else {
            self.run(events.drop_last()).step(events.last())
        }
    }
}

} // verus!
