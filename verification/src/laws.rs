//! What holds of the keyboard over whole sequences of key events.
//!
//! Every operation of the executable keyboard moves its state as
//! `KeyboardState::step` says, so what is proved here of `run` holds of any
//! sequence of calls.

use vstd::prelude::*;
use crate::key::{lemma_ordinal_round_trip, Key, NOTE_KEYS};
use crate::model::{KeyEvent, KeyboardState, OCTAVE_MAX, OCTAVE_MIN};
use crate::note::{NoteOffView, VELOCITY_FULL, VELOCITY_STEP, VELOCITY_ZERO};
use crate::pitch::{Letter, SEMITONES_PER_OCTAVE};

verus! {

impl KeyboardState {
    /// How many note-on events the presses of `key` emit over the events.
    pub open spec fn note_ons(self, events: Seq<KeyEvent>, key: Key) -> nat
        decreases events.len(),
    {
        if events.len() == 0 {
            0
        } else {
            let before = self.run(events.drop_last());
            let emitted: nat = if events.last() == KeyEvent::Press(key) && before.note_on(key)
                is Some {
                1
            } else {
                0
            };
            self.note_ons(events.drop_last(), key) + emitted
        }
    }

    /// How many releases of `key` over the events emit a note-off and find the
    /// key held, so that the note-off has the octave the key was held with.
    pub open spec fn paired_note_offs(self, events: Seq<KeyEvent>, key: Key) -> nat
        decreases events.len(),
    {
        if events.len() == 0 {
            0
        } else {
            let before = self.run(events.drop_last());
            let emitted: nat = if events.last() == KeyEvent::Release(key) && before.is_held(key)
                && before.note_off(key) is Some {
                1
            } else {
                0
            };
            self.paired_note_offs(events.drop_last(), key) + emitted
        }
    }

    /// 1 if the key is held, else 0.
    pub open spec fn held_count(self, key: Key) -> nat {
        if self.is_held(key) {
            1
        } else {
            0
        }
    }
}

proof fn lemma_contains_last(events: Seq<KeyEvent>, event: KeyEvent)
    requires
        events.len() > 0,
    ensures
        events.contains(event) <==> events.drop_last().contains(event) || events.last() == event,
{
    let front = events.drop_last();
    if front.contains(event) {
        let i = choose|i: int| 0 <= i < front.len() && front[i] == event;
        assert(events[i] == event);
    }
    if events.contains(event) && events.last() != event {
        let i = choose|i: int| 0 <= i < events.len() && events[i] == event;
        assert(front[i] == event);
    }
}

/// One event keeps the invariant of the keyboard.
pub proof fn lemma_step_preserves_wf(state: KeyboardState, event: KeyEvent)
    requires
        state.wf(),
    ensures
        state.step(event).wf(),
{
}

/// Any sequence of events keeps the invariant of the keyboard.
pub proof fn lemma_run_preserves_wf(state: KeyboardState, events: Seq<KeyEvent>)
    requires
        state.wf(),
    ensures
        state.run(events).wf(),
    decreases events.len(),
{
    if events.len() > 0 {
        lemma_run_preserves_wf(state, events.drop_last());
        lemma_step_preserves_wf(state.run(events.drop_last()), events.last());
    }
}

/// A base octave within its bounds stays within them over any sequence of
/// events, whatever the rest of the state.
pub proof fn lemma_octave_stays_in_bounds(state: KeyboardState, events: Seq<KeyEvent>)
    requires
        OCTAVE_MIN <= state.octave <= OCTAVE_MAX,
    ensures
        OCTAVE_MIN <= state.run(events).octave <= OCTAVE_MAX,
    decreases events.len(),
{
    if events.len() > 0 {
        lemma_octave_stays_in_bounds(state, events.drop_last());
    }
}

/// The guards of the velocity keys: at or above full amplitude `V` changes
/// nothing, at or below zero `C` changes nothing, and no other key ever
/// moves the velocity.
pub proof fn lemma_velocity_guards(state: KeyboardState, key: Key)
    ensures
        key == Key::V && state.velocity >= VELOCITY_FULL ==> state.after_press(key) == state,
        key == Key::C && state.velocity <= VELOCITY_ZERO ==> state.after_press(key) == state,
        key != Key::V ==> state.after_press(key).velocity <= state.velocity,
        key != Key::C ==> state.after_press(key).velocity >= state.velocity,
        state.after_release(key).velocity == state.velocity,
{
}

/// The velocity leaves its bounds by less than one step: a velocity that is
/// within its bounds, or less than a step outside them, is so after any
/// sequence of events.
pub proof fn lemma_velocity_overshoot_is_bounded(state: KeyboardState, events: Seq<KeyEvent>)
    requires
        VELOCITY_ZERO - VELOCITY_STEP < state.velocity < VELOCITY_FULL + VELOCITY_STEP,
    ensures
        VELOCITY_ZERO - VELOCITY_STEP < state.run(events).velocity < VELOCITY_FULL
            + VELOCITY_STEP,
    decreases events.len(),
{
    if events.len() > 0 {
        lemma_velocity_overshoot_is_bounded(state, events.drop_last());
    }
}

/// A velocity within its bounds that is a whole number of steps stays
/// within its bounds, and a whole number of steps, over any sequence of
/// events.
pub proof fn lemma_velocity_stays_in_bounds(state: KeyboardState, events: Seq<KeyEvent>)
    requires
        VELOCITY_ZERO <= state.velocity <= VELOCITY_FULL,
        state.velocity % (VELOCITY_STEP as int) == 0,
    ensures
        VELOCITY_ZERO <= state.run(events).velocity <= VELOCITY_FULL,
        state.run(events).velocity % (VELOCITY_STEP as int) == 0,
    decreases events.len(),
{
    if events.len() > 0 {
        lemma_velocity_stays_in_bounds(state, events.drop_last());
    }
}

/// Over any sequence of events, every note-on of a key either leaves the key
/// held or is answered by one release that finds it held: the notes started,
/// with the key if it was held before, are as many as the paired note-offs,
/// with the key if it is held after.
pub proof fn lemma_note_ons_are_paired(state: KeyboardState, events: Seq<KeyEvent>, key: Key)
    ensures
        state.held_count(key) + state.note_ons(events, key) == state.run(events).held_count(key)
            + state.paired_note_offs(events, key),
    decreases events.len(),
{
    if events.len() > 0 {
        lemma_note_ons_are_paired(state, events.drop_last(), key);
    }
}

/// Repeated presses of a key with no release of it between them start one
/// note: over events that hold no release of the key, its presses emit one
/// note-on if the key was not held and is pressed at all, and none otherwise.
/// The key is held afterwards exactly if it was held or has been pressed.
pub proof fn lemma_repeat_suppression(state: KeyboardState, events: Seq<KeyEvent>, key: Key)
    requires
        key.is_note_key(),
        !events.contains(KeyEvent::Release(key)),
    ensures
        state.note_ons(events, key) == if !state.is_held(key) && events.contains(
            KeyEvent::Press(key),
        ) {
            1nat
        } else {
            0nat
        },
        state.run(events).is_held(key) <==> state.is_held(key) || events.contains(
            KeyEvent::Press(key),
        ),
    decreases events.len(),
{
    if events.len() > 0 {
        lemma_contains_last(events, KeyEvent::Release(key));
        lemma_contains_last(events, KeyEvent::Press(key));
        lemma_repeat_suppression(state, events.drop_last(), key);
    }
}

/// Between two presses of a key at most one release is paired: over events
/// that hold no press of the key, one release finds it held if the key was
/// held and is released at all, and none otherwise. The key is held
/// afterwards exactly if it was held and has not been released.
pub proof fn lemma_pairing(state: KeyboardState, events: Seq<KeyEvent>, key: Key)
    requires
        key.is_note_key(),
        !events.contains(KeyEvent::Press(key)),
    ensures
        state.paired_note_offs(events, key) == if state.is_held(key) && events.contains(
            KeyEvent::Release(key),
        ) {
            1nat
        } else {
            0nat
        },
        state.run(events).is_held(key) <==> state.is_held(key) && !events.contains(
            KeyEvent::Release(key),
        ),
    decreases events.len(),
{
    if events.len() > 0 {
        lemma_contains_last(events, KeyEvent::Release(key));
        lemma_contains_last(events, KeyEvent::Press(key));
        lemma_pairing(state, events.drop_last(), key);
    }
}

/// The octave and velocity keys never emit a note-on or a note-off, and
/// never change which keys are held.
pub proof fn lemma_modifiers_are_silent(state: KeyboardState, key: Key)
    requires
        key.is_modifier(),
    ensures
        state.note_on(key) is None,
        state.note_off(key) is None,
        state.after_press(key).pressed == state.pressed,
        state.after_release(key) == state,
{
}

/// A held key keeps the octave it is held with until it is released,
/// whatever else is pressed or released.
pub proof fn lemma_held_octave_is_kept(state: KeyboardState, events: Seq<KeyEvent>, key: Key)
    requires
        state.is_held(key),
        !events.contains(KeyEvent::Release(key)),
    ensures
        state.run(events).is_held(key),
        state.run(events).pressed[key] == state.pressed[key],
    decreases events.len(),
{
    if events.len() > 0 {
        lemma_contains_last(events, KeyEvent::Release(key));
        lemma_held_octave_is_kept(state, events.drop_last(), key);
    }
}

/// The note-off of a key carries the letter and the octave of the note-on
/// that its press emitted, however the base octave has moved since: after a
/// press that starts a note and any events that hold no release of the key,
/// releasing the key emits that letter and that octave.
pub proof fn lemma_note_off_matches_note_on(
    state: KeyboardState,
    events: Seq<KeyEvent>,
    key: Key,
)
    requires
        state.note_on(key) is Some,
        !events.contains(KeyEvent::Release(key)),
    ensures
        state.after_press(key).run(events).note_off(key) == Some(
            NoteOffView {
                letter: state.note_on(key)->Some_0.letter,
                octave: state.note_on(key)->Some_0.octave,
            },
        ),
{
    lemma_held_octave_is_kept(state.after_press(key), events, key);
}

/// The note keys rise by one semitone from each to the next: a note key's
/// note lies as many semitones above the note of the first key as the key
/// stands after it.
pub proof fn lemma_note_keys_are_chromatic(key: Key)
    requires
        key.is_note_key(),
    ensures
        key.ordinal() < NOTE_KEYS,
        key.note() matches Some((offset, letter)) && SEMITONES_PER_OCTAVE * offset
            + letter.semitone() == key.ordinal(),
{
}

/// No two note keys play the same letter at the same octave.
pub proof fn lemma_note_mapping_is_injective(a: Key, b: Key)
    requires
        a.is_note_key(),
        a.note() == b.note(),
    ensures
        a == b,
{
    lemma_note_keys_are_chromatic(a);
    lemma_note_keys_are_chromatic(b);
    lemma_ordinal_round_trip(a);
    lemma_ordinal_round_trip(b);
}

/// The note keys leave no gap: every letter of the base octave has its key,
/// and so has every letter of the octave above up to the last note key.
pub proof fn lemma_note_mapping_is_complete(offset: int, letter: Letter)
    requires
        0 <= offset,
        SEMITONES_PER_OCTAVE * offset + letter.semitone() < NOTE_KEYS,
    ensures
        Key::at((SEMITONES_PER_OCTAVE * offset + letter.semitone()) as u8) matches Some(key)
            && key.note() == Some((offset, letter)),
{
}

} // verus!
