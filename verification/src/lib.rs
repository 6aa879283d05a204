//! A musical keyboard played from a computer keyboard.
//!
//! Key presses and releases are turned into note-on and note-off events on a
//! piano-like layout of eighteen keys, with two keys that shift the base
//! octave and two that adjust the velocity of the notes that follow.
//!
//! Velocities are whole numbers of hundredths of full amplitude, so that every
//! step of the velocity keys is exact.

pub mod key;
pub mod keyboard;
pub mod laws;
pub mod model;
pub mod note;
pub mod pitch;

pub use crate::key::Key;
pub use crate::keyboard::MusicalKeyboard;
pub use crate::note::{NoteEvent, NoteOff, NoteOn, Velocity};
pub use crate::pitch::{Letter, Octave};
