//! The contract shared by the output methods, and the state and transition
//! sequences that the methods holding note keys have in common.

use vstd::prelude::*;
use crate::keycodes::{named_key, Key, KeyEvent, KeyEvents, NamedKey};
use crate::key_state::{acquired, no_presses, released, PressCounts};

verus! {

/// A strategy that turns musical events into key transitions. Notes,
/// velocities and pedal values are seven-bit MIDI data.
pub trait InputMethod {
    /// Whether the method's internal state is well formed.
    spec fn wf(&self) -> bool;

    /// Display name of the method.
    fn get_name(&self) -> String;

    /// Transitions for a note being struck.
    fn press_note(&mut self, note: u8, velocity: u8) -> (r: KeyEvents)
        requires
            old(self).wf(),
            note <= 127,
            velocity <= 127,
        ensures
            final(self).wf(),
    ;

    /// Transitions for a note being let go.
    fn release_note(&mut self, note: u8) -> (r: KeyEvents)
        requires
            old(self).wf(),
            note <= 127,
        ensures
            final(self).wf(),
    ;

    /// Forgets every held key and latch, without emitting anything.
    fn reset(&mut self)
        requires
            old(self).wf(),
        ensures
            final(self).wf(),
    ;

    /// Transitions for a new sustain pedal value.
    fn process_sustain(&mut self, value: u8) -> (r: KeyEvents)
        requires
            old(self).wf(),
            value <= 127,
        ensures
            final(self).wf(),
    ;
}

/// State of a method that holds note keys: the press count of every key
/// code, and whether the sustain pedal is logically down.
pub struct HeldState {
    pub counts: Seq<u8>,
    pub sustain_down: bool,
}

/// Nothing held, pedal up.
pub open spec fn initial_held() -> HeldState {
    HeldState { counts: no_presses(), sustain_down: false }
}

pub open spec fn shift_key() -> Key {
    named_key(NamedKey::Shift)
}

pub open spec fn space_key() -> Key {
    named_key(NamedKey::Space)
}

/// The pedal threshold: values at or above it mean the pedal is down.
pub const SUSTAIN_THRESHOLD: u8 = 64;

/// Puts a note key down: a defensive release first, then the press, held
/// inside a shift bracket when the symbol is shifted.
pub open spec fn strike(k: Key) -> Seq<KeyEvent> {
    if k.shifted {
        seq![
            KeyEvent::Release(k),
            KeyEvent::Press(shift_key()),
            KeyEvent::Press(k),
            KeyEvent::Release(shift_key()),
        ]
    } else {
        seq![KeyEvent::Release(k), KeyEvent::Press(k)]
    }
}

/// One more note holds `k`.
pub open spec fn hold(s: HeldState, k: Key) -> HeldState {
    HeldState { counts: acquired(s.counts, k.code), sustain_down: s.sustain_down }
}

/// Transitions when one note holding `k` lets go: the key is released only
/// when that note was the last one holding it.
pub open spec fn lift_events(counts: Seq<u8>, k: Key) -> Seq<KeyEvent> {
    if counts[k.code as int] == 1 {
        seq![KeyEvent::Release(k)]
    } else {
        Seq::empty()
    }
}

/// One note holding `k` lets go.
pub open spec fn lift(s: HeldState, k: Key) -> (HeldState, Seq<KeyEvent>) {
    (
        HeldState { counts: released(s.counts, k.code), sustain_down: s.sustain_down },
        lift_events(s.counts, k),
    )
}

/// The pedal's logical state after `value`.
pub open spec fn sustain_next(down: bool, value: u8) -> bool {
    value >= SUSTAIN_THRESHOLD
}

/// Transitions for a pedal value: only a crossing of the threshold emits.
pub open spec fn sustain_events(down: bool, value: u8) -> Seq<KeyEvent> {
    if value >= SUSTAIN_THRESHOLD && !down {
        seq![KeyEvent::Press(space_key())]
    } else if value < SUSTAIN_THRESHOLD && down {
        seq![KeyEvent::Release(space_key())]
    } else {
        Seq::empty()
    }
}

/// A pedal value applied to a held state.
pub open spec fn sustain_step(s: HeldState, value: u8) -> (HeldState, Seq<KeyEvent>) {
    (
        HeldState { counts: s.counts, sustain_down: sustain_next(s.sustain_down, value) },
        sustain_events(s.sustain_down, value),
    )
}

/// Appends the transitions that put `k` down.
pub(crate) fn push_strike(events: &mut KeyEvents, k: Key)
    ensures
        final(events)@ == old(events)@ + strike(k),
{
    let shift = Key::named(NamedKey::Shift);
    events.push(KeyEvent::Release(k));
    if k.shifted {
        events.push(KeyEvent::Press(shift));
    }
    events.push(KeyEvent::Press(k));
    if k.shifted {
        events.push(KeyEvent::Release(shift));
    }
    assert(final(events)@ =~= old(events)@ + strike(k));
}

/// Drops one demand on `k` and returns the transitions that follow.
pub(crate) fn lift_key(counts: &mut PressCounts, k: Key) -> (r: KeyEvents)
    requires
        old(counts).wf(),
    ensures
        final(counts).wf(),
        final(counts)@ == released(old(counts)@, k.code),
        r@ == lift_events(old(counts)@, k),
{
    if counts.release(k.code) {
        let r = vec![KeyEvent::Release(k)];
        assert(r@ =~= lift_events(old(counts)@, k));
        r
    } else {
        let r: KeyEvents = Vec::new();
        assert(r@ =~= lift_events(old(counts)@, k));
        r
    }
}

/// Applies a pedal value to the latched pedal state.
pub(crate) fn sustain_edge(down: &mut bool, value: u8) -> (r: KeyEvents)
    ensures
        *final(down) == sustain_next(*old(down), value),
        r@ == sustain_events(*old(down), value),
{
    if value >= SUSTAIN_THRESHOLD && !*down {
        *down = true;
        let r = vec![KeyEvent::Press(Key::named(NamedKey::Space))];
        assert(r@ =~= sustain_events(*old(down), value));
        r
    } else if value < SUSTAIN_THRESHOLD && *down {
        *down = false;
        let r = vec![KeyEvent::Release(Key::named(NamedKey::Space))];
        assert(r@ =~= sustain_events(*old(down), value));
        r
    } else {
        let r: KeyEvents = Vec::new();
        assert(r@ =~= sustain_events(*old(down), value));
        r
    }
}

} // verus!
