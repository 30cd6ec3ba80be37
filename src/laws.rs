//! What the output methods guarantee about the keyboard that the operating
//! system sees: which keys end up held, and when a key goes up.

use vstd::prelude::*;
use crate::keycodes::{char_key, named_key, Key, KeyEvent, NamedKey};
use crate::key_state::{acquired, released, KEY_SLOTS};
use crate::output_methods::{
    hold, initial_held, lift, shift_key, space_key, strike, sustain_step, HeldState,
    SUSTAIN_THRESHOLD,
};
use crate::generic::{
    generic_char, generic_press, generic_release, lemma_regular_chars_resolve, HIGHEST_NOTE,
    LOWEST_NOTE,
};
use crate::pv::{
    alt_key, ctrl_key, is_88_key, lemma_nearest_bucket, lemma_outer_chars_resolve, nearest_bucket,
    note_strike, pv_char, pv_press, pv_release, velocity_char, velocity_key, velocity_taps,
    LOWEST_PIANO_NOTE,
};
use crate::piano_rooms::{burst, digit_tap, keypad_digit, tap};

verus! {

/// The keys held down after one transition.
pub open spec fn apply_event(down: Set<u16>, e: KeyEvent) -> Set<u16> {
    match e {
        KeyEvent::Press(k) => down.insert(k.code),
        KeyEvent::Release(k) => down.remove(k.code),
    }
}

/// The keys held down after a sequence of transitions, applied in order.
pub open spec fn apply_events(down: Set<u16>, events: Seq<KeyEvent>) -> Set<u16>
    decreases events.len(),
{
    if events.len() == 0 {
        down
    } else {
        apply_events(apply_event(down, events[0]), events.drop_first())
    }
}

pub proof fn lemma_apply_concat(down: Set<u16>, a: Seq<KeyEvent>, b: Seq<KeyEvent>)
    ensures
        apply_events(down, a + b) == apply_events(apply_events(down, a), b),
    decreases a.len(),
{
    if a.len() == 0 {
        assert(a + b =~= b);
    } else {
        assert((a + b).drop_first() =~= a.drop_first() + b);
        assert((a + b)[0] == a[0]);
        lemma_apply_concat(apply_event(down, a[0]), a.drop_first(), b);
    }
}

proof fn lemma_apply1(d: Set<u16>, a: KeyEvent)
    ensures
        apply_events(d, seq![a]) == apply_event(d, a),
{
    assert(seq![a].drop_first() =~= Seq::<KeyEvent>::empty());
    reveal_with_fuel(apply_events, 2);
}

proof fn lemma_apply2(d: Set<u16>, a: KeyEvent, b: KeyEvent)
    ensures
        apply_events(d, seq![a, b]) == apply_event(apply_event(d, a), b),
{
    assert(seq![a, b] =~= seq![a] + seq![b]);
    lemma_apply_concat(d, seq![a], seq![b]);
    lemma_apply1(d, a);
    lemma_apply1(apply_event(d, a), b);
}

proof fn lemma_apply3(d: Set<u16>, a: KeyEvent, b: KeyEvent, c: KeyEvent)
    ensures
        apply_events(d, seq![a, b, c]) == apply_event(apply_event(apply_event(d, a), b), c),
{
    assert(seq![a, b, c] =~= seq![a, b] + seq![c]);
    lemma_apply_concat(d, seq![a, b], seq![c]);
    lemma_apply2(d, a, b);
    lemma_apply1(apply_event(apply_event(d, a), b), c);
}

proof fn lemma_apply4(d: Set<u16>, a: KeyEvent, b: KeyEvent, c: KeyEvent, e: KeyEvent)
    ensures
        apply_events(d, seq![a, b, c, e]) == apply_event(
            apply_event(apply_event(apply_event(d, a), b), c),
            e,
        ),
{
    assert(seq![a, b, c, e] =~= seq![a, b, c] + seq![e]);
    lemma_apply_concat(d, seq![a, b, c], seq![e]);
    lemma_apply3(d, a, b, c);
    lemma_apply1(apply_event(apply_event(apply_event(d, a), b), c), e);
}

/// The keys that notes never hold: the modifiers and the pedal's key.
pub open spec fn is_reserved(code: u16) -> bool {
    code == shift_key().code || code == space_key().code || code == alt_key().code
        || code == ctrl_key().code
}

/// A note's key is never a reserved key.
pub proof fn lemma_char_keys_unreserved(c: char)
    ensures
        char_key(c) is Some ==> !is_reserved(char_key(c).unwrap().code),
{
}

/// The keyboard the system sees agrees with the method's state: a key is
/// down exactly when a held note or the latched pedal accounts for it, and
/// no note holds a reserved key.
pub open spec fn keyboard_matches(s: HeldState, down: Set<u16>) -> bool {
    &&& s.counts.len() == KEY_SLOTS
    &&& forall|code: u16| is_reserved(code) ==> s.counts[code as int] == 0
    &&& forall|code: u16|
        #[trigger] down.contains(code) <==> (s.counts[code as int] > 0 || (s.sustain_down && code
            == space_key().code))
}

/// A fresh method and a keyboard with every key up agree.
pub proof fn lemma_initial_keyboard_matches()
    ensures
        keyboard_matches(initial_held(), Set::empty()),
{
}

/// One more hold of `k` agrees with `k` going down.
proof fn lemma_hold_matches(s: HeldState, down: Set<u16>, k: Key)
    requires
        keyboard_matches(s, down),
        !is_reserved(k.code),
    ensures
        keyboard_matches(hold(s, k), down.insert(k.code)),
{
    let after = down.insert(k.code);
    let t = hold(s, k);
    assert forall|code: u16| #[trigger] after.contains(code) <==> (t.counts[code as int] > 0 || (
    t.sustain_down && code == space_key().code)) by {
        if code != k.code {
            assert(t.counts[code as int] == s.counts[code as int]);
            assert(down.contains(code) <==> (s.counts[code as int] > 0 || (s.sustain_down && code
                == space_key().code)));
        }
    }
    assert forall|code: u16| is_reserved(code) implies t.counts[code as int] == 0 by {
        assert(t.counts[code as int] == s.counts[code as int]);
    }
}

/// Striking `k` leaves exactly `k` added, when shift was up.
proof fn lemma_strike_effect(d: Set<u16>, k: Key)
    requires
        k.code != shift_key().code,
        !d.contains(shift_key().code),
    ensures
        apply_events(d, strike(k)) == d.insert(k.code),
{
    let sh = shift_key();
    if k.shifted {
        lemma_apply4(d, KeyEvent::Release(k), KeyEvent::Press(sh), KeyEvent::Press(k), KeyEvent::Release(sh));
        assert(d.remove(k.code).insert(sh.code).insert(k.code).remove(sh.code) =~= d.insert(k.code));
    } else {
        lemma_apply2(d, KeyEvent::Release(k), KeyEvent::Press(k));
        assert(d.remove(k.code).insert(k.code) =~= d.insert(k.code));
    }
}

proof fn lemma_strike_keeps_match(s: HeldState, down: Set<u16>, k: Key)
    requires
        keyboard_matches(s, down),
        !is_reserved(k.code),
    ensures
        keyboard_matches(hold(s, k), apply_events(down, strike(k))),
{
    let sh = shift_key();
    assert(is_reserved(sh.code));
    assert(s.counts[sh.code as int] == 0);
    assert(!down.contains(sh.code));
    lemma_strike_effect(down, k);
    lemma_hold_matches(s, down, k);
}

proof fn lemma_lift_keeps_match(s: HeldState, down: Set<u16>, k: Key)
    requires
        keyboard_matches(s, down),
        !is_reserved(k.code),
    ensures
        keyboard_matches(lift(s, k).0, apply_events(down, lift(s, k).1)),
{
    if s.counts[k.code as int] == 1 {
        lemma_apply1(down, KeyEvent::Release(k));
    }
    let after = apply_events(down, lift(s, k).1);
    let t = lift(s, k).0;
    assert forall|code: u16| is_reserved(code) implies t.counts[code as int] == 0 by {
        assert(t.counts[code as int] == s.counts[code as int]);
    }
    assert forall|code: u16| #[trigger] after.contains(code) <==> (t.counts[code as int] > 0 || (
    t.sustain_down && code == space_key().code)) by {
        if code == k.code {
        } else {
        }
    }
}

/// A pedal value keeps the keyboard in agreement with the method's state.
pub proof fn lemma_sustain_keeps_match(s: HeldState, down: Set<u16>, value: u8)
    requires
        keyboard_matches(s, down),
    ensures
        keyboard_matches(sustain_step(s, value).0, apply_events(down, sustain_step(s, value).1)),
{
    let sp = space_key();
    if value >= SUSTAIN_THRESHOLD && !s.sustain_down {
        lemma_apply1(down, KeyEvent::Press(sp));
    } else if value < SUSTAIN_THRESHOLD && s.sustain_down {
        lemma_apply1(down, KeyEvent::Release(sp));
    }
    let after = apply_events(down, sustain_step(s, value).1);
    let t = sustain_step(s, value).0;
    assert(is_reserved(sp.code));
    assert(s.counts[sp.code as int] == 0);
    assert forall|code: u16| #[trigger] after.contains(code) <==> (t.counts[code as int] > 0 || (
    t.sustain_down && code == space_key().code)) by {
        assert(down.contains(code) <==> (s.counts[code as int] > 0 || (s.sustain_down && code
            == space_key().code)));
    }
}

/// Under the generic method, every press, release and pedal value keeps
/// the keyboard in agreement with the method's state: no key is left down
/// that no note or pedal holds, and none goes up while one still does.
pub proof fn lemma_generic_keeps_keyboard(s: HeldState, down: Set<u16>, note: u8, value: u8)
    requires
        keyboard_matches(s, down),
    ensures
        keyboard_matches(generic_press(s, note).0, apply_events(down, generic_press(s, note).1)),
        keyboard_matches(generic_release(s, note).0, apply_events(down, generic_release(s, note).1)),
        keyboard_matches(sustain_step(s, value).0, apply_events(down, sustain_step(s, value).1)),
{
    if let Some(c) = generic_char(note) {
        lemma_regular_chars_resolve((note - LOWEST_NOTE) as u8);
        lemma_char_keys_unreserved(c);
        lemma_strike_keeps_match(s, down, char_key(c).unwrap());
        lemma_lift_keeps_match(s, down, char_key(c).unwrap());
    }
    lemma_sustain_keeps_match(s, down, value);
}

/// The alt-bracketed velocity tap takes the bucket key up, when alt was up.
proof fn lemma_taps_effect(d: Set<u16>, velocity: u8)
    requires
        !d.contains(alt_key().code),
        velocity_key(velocity).code != alt_key().code,
    ensures
        apply_events(d, velocity_taps(velocity)) == d.remove(velocity_key(velocity).code),
{
    let alt = alt_key();
    let v = velocity_key(velocity);
    let first = seq![KeyEvent::Press(alt), KeyEvent::Release(v), KeyEvent::Press(v), KeyEvent::Release(v)];
    assert(velocity_taps(velocity) =~= first + seq![KeyEvent::Release(alt)]);
    lemma_apply_concat(d, first, seq![KeyEvent::Release(alt)]);
    lemma_apply4(d, KeyEvent::Press(alt), KeyEvent::Release(v), KeyEvent::Press(v), KeyEvent::Release(v));
    lemma_apply1(apply_events(d, first), KeyEvent::Release(alt));
    assert(d.insert(alt.code).remove(v.code).insert(v.code).remove(v.code).remove(alt.code) =~= d.remove(v.code));
}

/// Striking a note's key, inside a ctrl bracket where the note needs one,
/// leaves exactly that key added, when shift and ctrl were up.
proof fn lemma_note_strike_effect(d: Set<u16>, note: u8, k: Key)
    requires
        !is_reserved(k.code),
        !d.contains(shift_key().code),
        !d.contains(ctrl_key().code),
    ensures
        apply_events(d, note_strike(note, k)) == d.insert(k.code),
{
    let ctrl = ctrl_key();
    if is_88_key(note) {
        let a = seq![KeyEvent::Press(ctrl)];
        let c = seq![KeyEvent::Release(ctrl)];
        lemma_apply_concat(d, a + strike(k), c);
        lemma_apply_concat(d, a, strike(k));
        lemma_apply1(d, KeyEvent::Press(ctrl));
        lemma_strike_effect(d.insert(ctrl.code), k);
        lemma_apply1(d.insert(ctrl.code).insert(k.code), KeyEvent::Release(ctrl));
        assert(d.insert(ctrl.code).insert(k.code).remove(ctrl.code) =~= d.insert(k.code));
    } else {
        lemma_strike_effect(d, k);
    }
}

/// Under the piano-visualization method, every press, release and pedal
/// value keeps the keyboard in agreement with the method's state, as long
/// as the velocity's bucket key is not held by another note (the velocity
/// tap releases that key).
pub proof fn lemma_pv_keeps_keyboard(s: HeldState, down: Set<u16>, note: u8, velocity: u8, value: u8)
    requires
        keyboard_matches(s, down),
        pv_char(note) is Some ==> (s.counts[velocity_key(velocity).code as int] == 0
            || velocity_key(velocity).code == char_key(pv_char(note).unwrap()).unwrap().code),
    ensures
        keyboard_matches(pv_press(s, note, velocity).0, apply_events(down, pv_press(s, note, velocity).1)),
        keyboard_matches(pv_release(s, note).0, apply_events(down, pv_release(s, note).1)),
        keyboard_matches(sustain_step(s, value).0, apply_events(down, sustain_step(s, value).1)),
{
    if let Some(c) = pv_char(note) {
        if LOWEST_PIANO_NOTE <= note < LOWEST_NOTE {
            lemma_outer_chars_resolve((LOWEST_NOTE - 1 - note) as u8);
        } else if LOWEST_NOTE <= note <= HIGHEST_NOTE {
            lemma_regular_chars_resolve((note - LOWEST_NOTE) as u8);
        } else {
            lemma_outer_chars_resolve((note - HIGHEST_NOTE - 1) as u8);
        }
        lemma_char_keys_unreserved(c);
        let k = char_key(c).unwrap();
        lemma_lift_keeps_match(s, down, k);
        lemma_nearest_bucket(velocity);
        lemma_outer_chars_resolve(nearest_bucket(velocity) as u8);
        lemma_char_keys_unreserved(velocity_char(nearest_bucket(velocity) as u8));
        let v = velocity_key(velocity);
        assert(is_reserved(alt_key().code) && is_reserved(shift_key().code) && is_reserved(ctrl_key().code));
        assert(s.counts[alt_key().code as int] == 0 && s.counts[shift_key().code as int] == 0);
        assert(s.counts[ctrl_key().code as int] == 0);
        assert(!down.contains(alt_key().code) && !down.contains(shift_key().code));
        assert(!down.contains(ctrl_key().code));
        lemma_apply_concat(down, velocity_taps(velocity), note_strike(note, k));
        lemma_taps_effect(down, velocity);
        let d1 = down.remove(v.code);
        lemma_note_strike_effect(d1, note, k);
        if s.counts[v.code as int] == 0 {
            assert(!down.contains(v.code));
            assert(d1 =~= down);
        } else {
            assert(d1.insert(k.code) =~= down.insert(k.code));
        }
        lemma_hold_matches(s, down, k);
    }
    lemma_sustain_keeps_match(s, down, value);
}

/// A call made on an output method.
pub enum MethodCall {
    Press(u8, u8),
    Release(u8),
    Sustain(u8),
}

/// What one call does under the generic method.
pub open spec fn generic_step(s: HeldState, call: MethodCall) -> (HeldState, Seq<KeyEvent>) {
    match call {
        MethodCall::Press(note, _) => generic_press(s, note),
        MethodCall::Release(note) => generic_release(s, note),
        MethodCall::Sustain(value) => sustain_step(s, value),
    }
}

/// The state after a sequence of calls under the generic method, and every
/// transition they emit, in order.
pub open spec fn generic_run(s: HeldState, calls: Seq<MethodCall>) -> (HeldState, Seq<KeyEvent>)
    decreases calls.len(),
{
    if calls.len() == 0 {
        (s, Seq::empty())
    } else {
        let first = generic_step(s, calls[0]);
        let rest = generic_run(first.0, calls.drop_first());
        (rest.0, first.1 + rest.1)
    }
}

/// Under the generic method, for every sequence of calls from a state that
/// agrees with the keyboard, the keyboard after all emitted transitions
/// agrees with the final state: no key is left down that nothing holds and
/// no key is released while a note still holds it.
pub proof fn lemma_generic_run_keeps_keyboard(s: HeldState, down: Set<u16>, calls: Seq<MethodCall>)
    requires
        keyboard_matches(s, down),
    ensures
        keyboard_matches(generic_run(s, calls).0, apply_events(down, generic_run(s, calls).1)),
    decreases calls.len(),
{
    if calls.len() > 0 {
        let first = generic_step(s, calls[0]);
        match calls[0] {
            MethodCall::Press(note, _) => lemma_generic_keeps_keyboard(s, down, note, 0),
            MethodCall::Release(note) => lemma_generic_keeps_keyboard(s, down, note, 0),
            MethodCall::Sustain(value) => lemma_generic_keeps_keyboard(s, down, 0, value),
        }
        let d1 = apply_events(down, first.1);
        lemma_generic_run_keeps_keyboard(first.0, d1, calls.drop_first());
        lemma_apply_concat(down, first.1, generic_run(first.0, calls.drop_first()).1);
    }
}

proof fn lemma_tap_effect(d: Set<u16>, k: Key)
    ensures
        apply_events(d, tap(k)) == d.insert(k.code).remove(k.code),
{
    lemma_apply2(d, KeyEvent::Press(k), KeyEvent::Release(k));
}

/// A Piano Rooms burst holds nothing: from a keyboard with every key up,
/// every key is up again after it.
pub proof fn lemma_burst_holds_nothing(a: u8, b: u8)
    ensures
        apply_events(Set::empty(), burst(a, b)) == Set::<u16>::empty(),
{
    let e = Set::<u16>::empty();
    let t0 = tap(named_key(NamedKey::KpAsterisk));
    let t1 = digit_tap(a / 12);
    let t2 = digit_tap(a % 12);
    let t3 = digit_tap(b / 12);
    let t4 = digit_tap(b % 12);
    lemma_apply_concat(e, t0 + t1 + t2 + t3, t4);
    lemma_apply_concat(e, t0 + t1 + t2, t3);
    lemma_apply_concat(e, t0 + t1, t2);
    lemma_apply_concat(e, t0, t1);
    lemma_tap_effect(e, named_key(NamedKey::KpAsterisk));
    let k0 = named_key(NamedKey::KpAsterisk);
    assert(e.insert(k0.code).remove(k0.code) =~= e);
    let k1 = named_key(keypad_digit(a / 12));
    let k2 = named_key(keypad_digit(a % 12));
    let k3 = named_key(keypad_digit(b / 12));
    let k4 = named_key(keypad_digit(b % 12));
    lemma_tap_effect(e, k1);
    assert(e.insert(k1.code).remove(k1.code) =~= e);
    lemma_tap_effect(e, k2);
    assert(e.insert(k2.code).remove(k2.code) =~= e);
    lemma_tap_effect(e, k3);
    assert(e.insert(k3.code).remove(k3.code) =~= e);
    lemma_tap_effect(e, k4);
    assert(e.insert(k4.code).remove(k4.code) =~= e);
}

/// The key a note in the generic window is typed with.
pub open spec fn generic_key(note: u8) -> Key {
    char_key(generic_char(note).unwrap()).unwrap()
}

/// Under the generic method, when notes `a` and `b` share a key that was up:
/// after pressing both, releasing `a` emits nothing, and releasing `b` then
/// releases the key.
pub proof fn lemma_generic_shared_key(s: HeldState, a: u8, b: u8)
    requires
        s.counts.len() == KEY_SLOTS,
        generic_char(a) is Some,
        generic_char(b) is Some,
        generic_key(a).code == generic_key(b).code,
        s.counts[generic_key(a).code as int] == 0,
    ensures
        generic_release(generic_press(generic_press(s, a).0, b).0, a).1 == Seq::<KeyEvent>::empty(),
        generic_release(generic_release(generic_press(generic_press(s, a).0, b).0, a).0, b).1
            == seq![KeyEvent::Release(generic_key(b))],
        generic_release(generic_release(generic_press(generic_press(s, a).0, b).0, a).0, b).0.counts[
        generic_key(a).code as int] == 0,
{
}

/// The key a note in the 88-key range is typed with.
pub open spec fn pv_key(note: u8) -> Key {
    char_key(pv_char(note).unwrap()).unwrap()
}

/// Under the piano-visualization method, when notes `a` and `b` share a key
/// that was up: after pressing both, releasing `a` emits nothing, and
/// releasing `b` then releases the key.
pub proof fn lemma_pv_shared_key(s: HeldState, a: u8, va: u8, b: u8, vb: u8)
    requires
        s.counts.len() == KEY_SLOTS,
        pv_char(a) is Some,
        pv_char(b) is Some,
        pv_key(a).code == pv_key(b).code,
        s.counts[pv_key(a).code as int] == 0,
    ensures
        pv_release(pv_press(pv_press(s, a, va).0, b, vb).0, a).1 == Seq::<KeyEvent>::empty(),
        pv_release(pv_release(pv_press(pv_press(s, a, va).0, b, vb).0, a).0, b).1
            == seq![KeyEvent::Release(pv_key(b))],
        pv_release(pv_release(pv_press(pv_press(s, a, va).0, b, vb).0, a).0, b).0.counts[
        pv_key(a).code as int] == 0,
{
}

/// The state after a run of pedal values, and the transitions they emit.
pub open spec fn sustain_run(s: HeldState, values: Seq<u8>) -> (HeldState, Seq<KeyEvent>)
    decreases values.len(),
{
    if values.len() == 0 {
        (s, Seq::empty())
    } else {
        let first = sustain_step(s, values[0]);
        let rest = sustain_run(first.0, values.drop_first());
        (rest.0, first.1 + rest.1)
    }
}

proof fn lemma_held_pedal_quiet(s: HeldState, values: Seq<u8>)
    requires
        s.sustain_down,
        forall|i: int| 0 <= i < values.len() ==> values[i] >= SUSTAIN_THRESHOLD,
    ensures
        sustain_run(s, values).1 == Seq::<KeyEvent>::empty(),
        sustain_run(s, values).0 == s,
    decreases values.len(),
{
    if values.len() > 0 {
        let first = sustain_step(s, values[0]);
        assert(first.0 == s);
        assert forall|i: int| 0 <= i < values.drop_first().len() implies values.drop_first()[i] >= SUSTAIN_THRESHOLD by {
            assert(values.drop_first()[i] == values[i + 1]);
        }
        lemma_held_pedal_quiet(s, values.drop_first());
        assert(first.1 + Seq::<KeyEvent>::empty() =~= Seq::<KeyEvent>::empty());
    }
}

/// From the pedal up, a run of values all at or above the threshold emits
/// exactly one press of space; a following value below it emits exactly one
/// release of space.
pub proof fn lemma_sustain_edge_triggered(s: HeldState, values: Seq<u8>, low: u8)
    requires
        !s.sustain_down,
        values.len() >= 1,
        forall|i: int| 0 <= i < values.len() ==> values[i] >= SUSTAIN_THRESHOLD,
        low < SUSTAIN_THRESHOLD,
    ensures
        sustain_run(s, values).1 == seq![KeyEvent::Press(space_key())],
        sustain_run(s, values).0.sustain_down,
        sustain_step(sustain_run(s, values).0, low).1 == seq![KeyEvent::Release(space_key())],
{
    let first = sustain_step(s, values[0]);
    assert forall|i: int| 0 <= i < values.drop_first().len() implies values.drop_first()[i] >= SUSTAIN_THRESHOLD by {
        assert(values.drop_first()[i] == values[i + 1]);
    }
    lemma_held_pedal_quiet(first.0, values.drop_first());
    assert(first.1 + Seq::<KeyEvent>::empty() =~= seq![KeyEvent::Press(space_key())]);
}

} // verus!
