//! The events that the keyboard emits.

use vstd::prelude::*;
use vstd::std_specs::convert::FromSpecImpl;
use crate::pitch::{Letter, Octave};

verus! {

/// The loudness of a note, in hundredths of full amplitude.
pub type Velocity = i32;

/// Silence.
pub const VELOCITY_ZERO: Velocity = 0;

/// Full amplitude.
pub const VELOCITY_FULL: Velocity = 100;

/// How far one press of a velocity key moves the velocity.
pub const VELOCITY_STEP: Velocity = 5;

/// The start of a note.
#[derive(Copy, Clone, Debug, PartialEq, Eq, Structural)]
pub struct NoteOn {
    pub letter: Letter,
    pub octave: Octave,
    pub velocity: Velocity,
}

/// The end of a note.
#[derive(Copy, Clone, Debug, PartialEq, Eq, Structural)]
pub struct NoteOff {
    pub letter: Letter,
    pub octave: Octave,
}

/// Either of the two events, for callers that keep one stream of both.
#[derive(Copy, Clone, Debug, PartialEq, Eq, Structural)]
pub enum NoteEvent {
    On(NoteOn),
    Off(NoteOff),
}

/// What a `NoteOn` stands for, over unbounded integers.
pub struct NoteOnView {
    pub letter: Letter,
    pub octave: int,
    pub velocity: int,
}

/// What a `NoteOff` stands for, over unbounded integers.
pub struct NoteOffView {
    pub letter: Letter,
    pub octave: int,
}

impl View for NoteOn {
    type V = NoteOnView;

    open spec fn view(&self) -> NoteOnView {
        NoteOnView { letter: self.letter, octave: self.octave as int, velocity: self.velocity as int }
    }
}

impl View for NoteOff {
    type V = NoteOffView;

    open spec fn view(&self) -> NoteOffView {
        NoteOffView { letter: self.letter, octave: self.octave as int }
    }
}

impl From<NoteOn> for NoteEvent {
    fn from(on: NoteOn) -> (event: NoteEvent) {
        NoteEvent::On(on)
    }
}

impl FromSpecImpl<NoteOn> for NoteEvent {
    open spec fn obeys_from_spec() -> bool {
        true
    }

    open spec fn from_spec(on: NoteOn) -> NoteEvent {
        NoteEvent::On(on)
    }
}

impl From<NoteOff> for NoteEvent {
    fn from(off: NoteOff) -> (event: NoteEvent) {
        NoteEvent::Off(off)
    }
}

impl FromSpecImpl<NoteOff> for NoteEvent {
    open spec fn obeys_from_spec() -> bool {
        true
    }

    open spec fn from_spec(off: NoteOff) -> NoteEvent {
        NoteEvent::Off(off)
    }
}

} // verus!
