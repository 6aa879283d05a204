use musical_keyboard::{Key, Letter, MusicalKeyboard, NoteEvent, NoteOff, NoteOn};

#[test]
fn default_is_octave_two_full_velocity() {
    let kb = MusicalKeyboard::default();
    assert_eq!(kb.octave, 2);
    assert_eq!(kb.velocity, 100);
    assert!(kb.currently_pressed_keys.is_empty());
}

#[test]
fn new_keeps_its_arguments() {
    let kb = MusicalKeyboard::new(-1, 35);
    assert_eq!(kb.octave, -1);
    assert_eq!(kb.velocity, 35);
    assert!(kb.currently_pressed_keys.is_empty());
}

#[test]
fn press_then_release_a() {
    let mut kb = MusicalKeyboard::default();
    assert_eq!(
        kb.key_pressed(Key::A),
        Some(NoteOn { letter: Letter::C, octave: 2, velocity: 100 })
    );
    assert_eq!(kb.currently_pressed_keys.get(&Key::A.index()), Some(&2));
    assert_eq!(kb.key_released(Key::A), Some(NoteOff { letter: Letter::C, octave: 2 }));
    assert!(kb.currently_pressed_keys.is_empty());
}

#[test]
fn second_press_is_suppressed() {
    let mut kb = MusicalKeyboard::default();
    assert!(kb.key_pressed(Key::A).is_some());
    assert_eq!(kb.key_pressed(Key::A), None);
    assert_eq!(kb.currently_pressed_keys.len(), 1);
    assert_eq!(kb.key_released(Key::A), Some(NoteOff { letter: Letter::C, octave: 2 }));
}

#[test]
fn release_keeps_the_octave_of_the_press() {
    let mut kb = MusicalKeyboard::default();
    assert_eq!(
        kb.key_pressed(Key::A),
        Some(NoteOn { letter: Letter::C, octave: 2, velocity: 100 })
    );
    assert_eq!(kb.key_pressed(Key::X), None);
    assert_eq!(kb.octave, 3);
    assert_eq!(kb.key_released(Key::A), Some(NoteOff { letter: Letter::C, octave: 2 }));
}

#[test]
fn suppressed_press_does_not_move_the_held_octave() {
    let mut kb = MusicalKeyboard::default();
    assert!(kb.key_pressed(Key::A).is_some());
    assert_eq!(kb.key_pressed(Key::X), None);
    assert_eq!(kb.key_pressed(Key::A), None);
    assert_eq!(kb.currently_pressed_keys.get(&Key::A.index()), Some(&2));
    assert_eq!(kb.key_released(Key::A), Some(NoteOff { letter: Letter::C, octave: 2 }));
    assert_eq!(
        kb.key_pressed(Key::A),
        Some(NoteOn { letter: Letter::C, octave: 3, velocity: 100 })
    );
}

#[test]
fn octave_up_stops_at_twelve() {
    let mut kb = MusicalKeyboard::new(12, 100);
    for _ in 0..12 {
        assert_eq!(kb.key_pressed(Key::X), None);
        assert_eq!(kb.octave, 12);
    }
    assert!(kb.currently_pressed_keys.is_empty());
}

#[test]
fn octave_down_stops_at_minus_two() {
    let mut kb = MusicalKeyboard::new(-1, 100);
    assert_eq!(kb.key_pressed(Key::Z), None);
    assert_eq!(kb.octave, -2);
    assert_eq!(kb.key_pressed(Key::Z), None);
    assert_eq!(kb.octave, -2);
}

#[test]
fn velocity_guard_then_step_down() {
    let mut kb = MusicalKeyboard::default();
    assert_eq!(kb.key_pressed(Key::V), None);
    assert_eq!(kb.velocity, 100);
    assert_eq!(kb.key_pressed(Key::C), None);
    assert_eq!(kb.velocity, 95);
    assert_eq!(
        kb.key_pressed(Key::A),
        Some(NoteOn { letter: Letter::C, octave: 2, velocity: 95 })
    );
}

#[test]
fn k_is_c_of_the_next_octave() {
    let mut kb = MusicalKeyboard::default();
    assert_eq!(
        kb.key_pressed(Key::K),
        Some(NoteOn { letter: Letter::C, octave: 3, velocity: 100 })
    );
}

#[test]
fn release_of_a_key_never_pressed() {
    let mut kb = MusicalKeyboard::default();
    assert_eq!(kb.key_released(Key::F), Some(NoteOff { letter: Letter::F, octave: 2 }));
    assert!(kb.currently_pressed_keys.is_empty());
}

#[test]
fn second_release_uses_the_current_octave() {
    let mut kb = MusicalKeyboard::default();
    assert!(kb.key_pressed(Key::D).is_some());
    assert_eq!(kb.key_pressed(Key::Z), None);
    assert_eq!(kb.key_released(Key::D), Some(NoteOff { letter: Letter::E, octave: 2 }));
    assert_eq!(kb.key_released(Key::D), Some(NoteOff { letter: Letter::E, octave: 1 }));
}

#[test]
fn velocity_overshoots_by_less_than_a_step() {
    let mut kb = MusicalKeyboard::new(2, 99);
    assert_eq!(kb.key_pressed(Key::V), None);
    assert_eq!(kb.velocity, 104);
    assert_eq!(kb.key_pressed(Key::V), None);
    assert_eq!(kb.velocity, 104);

    let mut low = MusicalKeyboard::new(2, 3);
    assert_eq!(low.key_pressed(Key::C), None);
    assert_eq!(low.velocity, -2);
    assert_eq!(low.key_pressed(Key::C), None);
    assert_eq!(low.velocity, -2);
}

#[test]
fn velocity_down_stops_at_zero() {
    let mut kb = MusicalKeyboard::new(2, 5);
    assert_eq!(kb.key_pressed(Key::C), None);
    assert_eq!(kb.velocity, 0);
    assert_eq!(kb.key_pressed(Key::C), None);
    assert_eq!(kb.velocity, 0);
    assert_eq!(kb.key_pressed(Key::V), None);
    assert_eq!(kb.velocity, 5);
}

#[test]
fn note_events_wrap_both_kinds() {
    let on = NoteOn { letter: Letter::Gsh, octave: 4, velocity: 60 };
    let off = NoteOff { letter: Letter::Gsh, octave: 4 };
    assert_eq!(NoteEvent::from(on), NoteEvent::On(on));
    assert_eq!(NoteEvent::from(off), NoteEvent::Off(off));
    let through_into: NoteEvent = off.into();
    assert_eq!(through_into, NoteEvent::Off(off));
    assert_ne!(NoteEvent::from(on), NoteEvent::from(off));
}

#[test]
fn clone_has_the_same_state() {
    let mut kb = MusicalKeyboard::new(5, 40);
    assert!(kb.key_pressed(Key::G).is_some());
    let mut copy = kb.clone();
    assert_eq!(copy.octave, 5);
    assert_eq!(copy.velocity, 40);
    assert_eq!(copy.currently_pressed_keys, kb.currently_pressed_keys);
    assert_eq!(copy.key_pressed(Key::G), None);
    assert_eq!(copy.key_released(Key::G), Some(NoteOff { letter: Letter::G, octave: 5 }));
    assert_eq!(kb.currently_pressed_keys.len(), 1);
}
