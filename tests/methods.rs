use miditoqwerty::dispatch::{AvailableInputMethod, MidiMessage, OutputMethod};
use miditoqwerty::generic;
use miditoqwerty::key_state::PressCounts;
use miditoqwerty::keycodes::{Key, KeyEvent};
use miditoqwerty::modifiers::ModifierFlags;
use miditoqwerty::output_methods::InputMethod;
use miditoqwerty::piano_rooms::{self, encode_pair};
use miditoqwerty::pv::{self, events_for_velocity, string_for_velocity, velocity_bucket};

fn press(code: u16) -> KeyEvent {
    KeyEvent::Press(Key { code, shifted: false })
}

fn release(code: u16) -> KeyEvent {
    KeyEvent::Release(Key { code, shifted: false })
}

fn codes(events: &[KeyEvent]) -> Vec<(bool, u16)> {
    events.iter().map(|e| (matches!(e, KeyEvent::Press(_)), e.code())).collect()
}

#[test]
fn press_counts_step_on_edges() {
    let mut c = PressCounts::new();
    assert!(c.acquire(7));
    assert!(!c.acquire(7));
    assert_eq!(c.count(7), 2);
    assert!(!c.release(7));
    assert!(c.release(7));
    assert!(!c.release(7));
    assert_eq!(c.count(7), 0);
}

#[test]
fn press_counts_saturate() {
    let mut c = PressCounts::new();
    for _ in 0..300 {
        c.acquire(1);
    }
    assert_eq!(c.count(1), 255);
    c.clear();
    assert_eq!(c.count(1), 0);
}

#[test]
fn generic_lowest_note_press_and_release() {
    let mut m = generic::Inner::new();
    let p = m.press_note(36, 100);
    assert_eq!(codes(&p), vec![(false, 2), (true, 2)]);
    assert!(p.iter().all(|e| match e {
        KeyEvent::Press(k) | KeyEvent::Release(k) => !k.shifted,
    }));
    let r = m.release_note(36);
    assert_eq!(codes(&r), vec![(false, 2)]);
    assert!(m.release_note(36).is_empty());
}

#[test]
fn generic_shifted_note_is_bracketed() {
    let mut m = generic::Inner::new();
    let p = m.press_note(37, 90);
    assert_eq!(codes(&p), vec![(false, 2), (true, 42), (true, 2), (false, 42)]);
    assert_eq!(codes(&m.press_note(96, 90)), vec![(false, 50), (true, 50)]);
}

#[test]
fn generic_shared_key_overlap() {
    let mut m = generic::Inner::new();
    m.press_note(36, 100);
    m.press_note(37, 100);
    assert!(m.release_note(36).is_empty());
    assert_eq!(codes(&m.release_note(37)), vec![(false, 2)]);
}

#[test]
fn generic_rejects_notes_outside_window() {
    let mut m = generic::Inner::new();
    assert!(m.press_note(35, 100).is_empty());
    assert!(m.press_note(97, 100).is_empty());
    assert!(m.release_note(97).is_empty());
    assert!(m.release_note(40).is_empty());
}

#[test]
fn generic_sustain_is_edge_triggered() {
    let mut m = generic::Inner::new();
    assert_eq!(m.process_sustain(64), vec![press(57)]);
    assert!(m.process_sustain(100).is_empty());
    assert!(m.process_sustain(127).is_empty());
    assert_eq!(m.process_sustain(63), vec![release(57)]);
    assert!(m.process_sustain(0).is_empty());
}

#[test]
fn generic_reset_forgets_held_keys() {
    let mut m = generic::Inner::new();
    m.press_note(60, 100);
    m.process_sustain(100);
    m.reset();
    assert!(m.release_note(60).is_empty());
    assert_eq!(m.process_sustain(100), vec![press(57)]);
    assert_eq!(m.get_name(), "Generic");
}

#[test]
fn velocity_bucket_is_deterministic_and_ties_go_low() {
    assert_eq!(velocity_bucket(66), 15);
    assert_eq!(velocity_bucket(66), 15);
    assert_eq!(string_for_velocity(66), "y");
    assert_eq!(string_for_velocity(66), string_for_velocity(66));
    assert_eq!(velocity_bucket(6), 0);
    assert_eq!(velocity_bucket(0), 0);
    assert_eq!(velocity_bucket(125), 30);
    assert_eq!(velocity_bucket(126), 31);
    assert_eq!(velocity_bucket(127), 31);
    assert_eq!(velocity_bucket(67), 16);
    assert_eq!(string_for_velocity(127), "c");
}

#[test]
fn pv_velocity_bracket() {
    let taps = events_for_velocity(66);
    assert_eq!(codes(&taps), vec![(true, 56), (false, 21), (true, 21), (false, 21), (false, 56)]);
    let mut m = pv::Inner::new();
    let p = m.press_note(60, 66);
    assert_eq!(
        codes(&p),
        vec![(true, 56), (false, 21), (true, 21), (false, 21), (false, 56), (false, 20), (true, 20)]
    );
}

#[test]
fn pv_outer_notes_use_ctrl() {
    let mut m = pv::Inner::new();
    let p = m.press_note(21, 4);
    assert_eq!(
        codes(&p),
        vec![(true, 56), (false, 2), (true, 2), (false, 2), (false, 56), (true, 29), (false, 2), (true, 2), (false, 29)]
    );
    let high = m.press_note(108, 4);
    assert_eq!(codes(&high[5..]), vec![(true, 29), (false, 36), (true, 36), (false, 29)]);
    assert!(m.press_note(20, 4).is_empty());
    assert!(m.press_note(109, 4).is_empty());
    assert_eq!(codes(&m.release_note(108)), vec![(false, 36)]);
    assert_eq!(m.get_name(), "Piano Visualizations");
}

#[test]
fn pv_shared_key_and_sustain() {
    let mut m = pv::Inner::new();
    m.press_note(36, 100);
    m.press_note(37, 100);
    assert!(m.release_note(36).is_empty());
    assert_eq!(codes(&m.release_note(37)), vec![(false, 2)]);
    assert_eq!(m.process_sustain(70), vec![press(57)]);
    assert!(m.process_sustain(80).is_empty());
    assert_eq!(m.process_sustain(10), vec![release(57)]);
}

#[test]
fn piano_rooms_press_encoding() {
    let mut m = piano_rooms::Inner::new();
    let p = m.press_note(60, 100);
    assert_eq!(
        codes(&p),
        vec![
            (true, 55), (false, 55),
            (true, 76), (false, 76),
            (true, 82), (false, 82),
            (true, 72), (false, 72),
            (true, 75), (false, 75),
        ]
    );
}

#[test]
fn piano_rooms_release_and_sustain_encoding() {
    let mut m = piano_rooms::Inner::new();
    let r = m.release_note(60);
    assert_eq!(codes(&r[2..]), vec![(true, 76), (false, 76), (true, 82), (false, 82), (true, 82), (false, 82), (true, 82), (false, 82)]);
    let s = m.process_sustain(127);
    assert_eq!(codes(&s[2..]), vec![(true, 78), (false, 78), (true, 78), (false, 78), (true, 74), (false, 74), (true, 71), (false, 71)]);
    assert_eq!(encode_pair(0, 0).len(), 10);
    assert_eq!(m.get_name(), "Piano Rooms");
}

#[test]
fn dispatch_routes_events() {
    let mut m = OutputMethod::new(AvailableInputMethod::Generic);
    assert_eq!(codes(&m.handle(MidiMessage::NoteOn(36, 100))), vec![(false, 2), (true, 2)]);
    assert_eq!(codes(&m.handle(MidiMessage::NoteOff(36, 0))), vec![(false, 2)]);
    assert!(m.handle(MidiMessage::Controller(1, 100)).is_empty());
    assert_eq!(m.handle(MidiMessage::Controller(64, 100)), vec![press(57)]);
    assert!(m.handle(MidiMessage::Other).is_empty());
    assert_eq!(m.get_name(), "Generic");
    let mut rooms = OutputMethod::new(AvailableInputMethod::PianoRooms);
    assert_eq!(rooms.handle(MidiMessage::NoteOn(60, 100)).len(), 10);
    let mut pvm = OutputMethod::new(AvailableInputMethod::PV);
    assert_eq!(pvm.handle(MidiMessage::NoteOn(60, 66)).len(), 7);
}

#[test]
fn modifier_flags_follow_modifier_keys() {
    let mut f = ModifierFlags::new();
    f.track(&press(42));
    assert!(f.shift && !f.alt && !f.ctrl);
    f.track(&press(56));
    f.track(&press(2));
    assert!(f.shift && f.alt && !f.ctrl);
    f.track(&release(42));
    f.track(&press(29));
    assert!(!f.shift && f.alt && f.ctrl);
    f.track(&release(56));
    f.track(&release(29));
    assert!(!f.shift && !f.alt && !f.ctrl);
}

fn apply(down: &mut std::collections::BTreeSet<u16>, events: &[KeyEvent]) {
    for e in events {
        match e {
            KeyEvent::Press(k) => {
                down.insert(k.code);
            }
            KeyEvent::Release(k) => {
                down.remove(&k.code);
            }
        }
    }
}

#[test]
fn no_key_left_down_after_overlapping_notes() {
    let mut m = generic::Inner::new();
    let mut down = std::collections::BTreeSet::new();
    apply(&mut down, &m.press_note(36, 100));
    apply(&mut down, &m.press_note(37, 100));
    apply(&mut down, &m.press_note(60, 100));
    apply(&mut down, &m.process_sustain(90));
    assert_eq!(down.iter().copied().collect::<Vec<u16>>(), vec![2, 20, 57]);
    apply(&mut down, &m.release_note(37));
    assert!(down.contains(&2));
    apply(&mut down, &m.release_note(36));
    apply(&mut down, &m.release_note(36));
    apply(&mut down, &m.release_note(60));
    apply(&mut down, &m.process_sustain(10));
    assert!(down.is_empty());

    let mut rooms = piano_rooms::Inner::new();
    let mut quiet = std::collections::BTreeSet::new();
    apply(&mut quiet, &rooms.press_note(60, 100));
    apply(&mut quiet, &rooms.process_sustain(127));
    assert!(quiet.is_empty());
}
