//! The Piano Rooms method: every event becomes a burst of keypad taps that
//! spell two numbers in base 12.

use vstd::prelude::*;
use crate::keycodes::{named_key, Key, KeyEvent, KeyEvents, NamedKey};
use crate::output_methods::InputMethod;

verus! {

/// The number sent in place of a note for sustain pedal values.
pub const SUSTAIN_CONTROL: u8 = 143;

/// The keypad key of each base-12 digit.
pub open spec fn keypad_digit(d: u8) -> NamedKey {
    match d {
        0 => NamedKey::Kp0,
        1 => NamedKey::Kp1,
        2 => NamedKey::Kp2,
        3 => NamedKey::Kp3,
        4 => NamedKey::Kp4,
        5 => NamedKey::Kp5,
        6 => NamedKey::Kp6,
        7 => NamedKey::Kp7,
        8 => NamedKey::Kp8,
        9 => NamedKey::Kp9,
        10 => NamedKey::KpMinus,
        _ => NamedKey::KpPlus,
    }
}

fn keypad_digit_at(d: u8) -> (r: NamedKey)
    ensures
        r == keypad_digit(d),
{
    match d {
        0 => NamedKey::Kp0,
        1 => NamedKey::Kp1,
        2 => NamedKey::Kp2,
        3 => NamedKey::Kp3,
        4 => NamedKey::Kp4,
        5 => NamedKey::Kp5,
        6 => NamedKey::Kp6,
        7 => NamedKey::Kp7,
        8 => NamedKey::Kp8,
        9 => NamedKey::Kp9,
        10 => NamedKey::KpMinus,
        _ => NamedKey::KpPlus,
    }
}

/// A press immediately followed by its release.
pub open spec fn tap(k: Key) -> Seq<KeyEvent> {
    seq![KeyEvent::Press(k), KeyEvent::Release(k)]
}

/// The tap of the keypad key of digit `d`.
pub open spec fn digit_tap(d: u8) -> Seq<KeyEvent> {
    tap(named_key(keypad_digit(d)))
}

/// The delimiter tap, then the base-12 digits of `a` and of `b`, high digit first.
pub open spec fn burst(a: u8, b: u8) -> Seq<KeyEvent> {
    tap(named_key(NamedKey::KpAsterisk)) + digit_tap(a / 12) + digit_tap(a % 12) + digit_tap(b / 12)
        + digit_tap(b % 12)
}

fn push_tap(events: &mut KeyEvents, k: Key)
    ensures
        final(events)@ == old(events)@ + tap(k),
{
    events.push(KeyEvent::Press(k));
    events.push(KeyEvent::Release(k));
    assert(final(events)@ =~= old(events)@ + tap(k));
}

/// Builds the burst that sends `a` and `b`; each has two base-12 digits.
pub fn encode_pair(a: u8, b: u8) -> (r: KeyEvents)
    requires
        a < 144,
        b < 144,
    ensures
        r@ == burst(a, b),
{
    let mut events: KeyEvents = Vec::new();
    push_tap(&mut events, Key::named(NamedKey::KpAsterisk));
    push_tap(&mut events, Key::named(keypad_digit_at(a / 12)));
    push_tap(&mut events, Key::named(keypad_digit_at(a % 12)));
    push_tap(&mut events, Key::named(keypad_digit_at(b / 12)));
    push_tap(&mut events, Key::named(keypad_digit_at(b % 12)));
    assert(events@ =~= burst(a, b));
    events
}

/// The Piano Rooms method holds no keys, so it has no state.
pub struct Inner;

impl Inner {
    pub fn new() -> (r: Inner) {
        Inner
    }
}

impl InputMethod for Inner {
    open spec fn wf(&self) -> bool {
        true
    }

    fn get_name(&self) -> (r: String)
        ensures
            r@ == "Piano Rooms"@,
    {
        "Piano Rooms".to_owned()
    }

    fn press_note(&mut self, note: u8, velocity: u8) -> (r: KeyEvents)
        ensures
            r@ == burst(note, velocity),
    {
        encode_pair(note, velocity)
    }

    fn release_note(&mut self, note: u8) -> (r: KeyEvents)
        ensures
            r@ == burst(note, 0),
    {
        encode_pair(note, 0)
    }

    fn reset(&mut self) {
    }

    fn process_sustain(&mut self, value: u8) -> (r: KeyEvents)
        ensures
            r@ == burst(SUSTAIN_CONTROL, value),
    {
        encode_pair(SUSTAIN_CONTROL, value)
    }
}

} // verus!
