//! The piano-visualization method: all 88 keys through three symbol tables,
//! with the velocity sent as a tap of a bucket key under alt.

use vstd::prelude::*;
use crate::keycodes::{char_key, named_key, Key, KeyEvent, KeyEvents, NamedKey};
use crate::key_state::{PressCounts, KEY_SLOTS};
use crate::generic::{lemma_regular_chars_resolve, regular_char, regular_char_at, HIGHEST_NOTE, LOWEST_NOTE};
use crate::output_methods::{
    hold, initial_held, lift, lift_key, push_strike, strike, sustain_edge, sustain_step,
    HeldState, InputMethod,
};

verus! {

/// Lowest note of the 88-key range (A0).
pub const LOWEST_PIANO_NOTE: u8 = 21;

/// Highest note of the 88-key range (C8).
pub const HIGHEST_PIANO_NOTE: u8 = 108;

/// Number of velocity buckets.
pub const BUCKETS: usize = 32;

/// Symbols below the core window, counted down from B1.
pub open spec fn low_char(i: u8) -> char {
    match i {
        0 => 't',
        1 => 'r',
        2 => 'e',
        3 => 'w',
        4 => 'q',
        5 => '0',
        6 => '9',
        7 => '8',
        8 => '7',
        9 => '6',
        10 => '5',
        11 => '4',
        12 => '3',
        13 => '2',
        14 => '1',
        _ => ' ',
    }
}

fn low_char_at(i: u8) -> (r: char)
    ensures
        r == low_char(i),
{
    match i {
        0 => 't',
        1 => 'r',
        2 => 'e',
        3 => 'w',
        4 => 'q',
        5 => '0',
        6 => '9',
        7 => '8',
        8 => '7',
        9 => '6',
        10 => '5',
        11 => '4',
        12 => '3',
        13 => '2',
        14 => '1',
        _ => ' ',
    }
}

/// Symbols above the core window, counted up from C#7.
pub open spec fn high_char(i: u8) -> char {
    match i {
        0 => 'y',
        1 => 'u',
        2 => 'i',
        3 => 'o',
        4 => 'p',
        5 => 'a',
        6 => 's',
        7 => 'd',
        8 => 'f',
        9 => 'g',
        10 => 'h',
        11 => 'j',
        _ => ' ',
    }
}

fn high_char_at(i: u8) -> (r: char)
    ensures
        r == high_char(i),
{
    match i {
        0 => 'y',
        1 => 'u',
        2 => 'i',
        3 => 'o',
        4 => 'p',
        5 => 'a',
        6 => 's',
        7 => 'd',
        8 => 'f',
        9 => 'g',
        10 => 'h',
        11 => 'j',
        _ => ' ',
    }
}

/// The key of each velocity bucket, lowest bucket first.
pub open spec fn velocity_char(i: u8) -> char {
    match i {
        0 => '1',
        1 => '2',
        2 => '3',
        3 => '4',
        4 => '5',
        5 => '6',
        6 => '7',
        7 => '8',
        8 => '9',
        9 => '0',
        10 => 'q',
        11 => 'w',
        12 => 'e',
        13 => 'r',
        14 => 't',
        15 => 'y',
        16 => 'u',
        17 => 'i',
        18 => 'o',
        19 => 'p',
        20 => 'a',
        21 => 's',
        22 => 'd',
        23 => 'f',
        24 => 'g',
        25 => 'h',
        26 => 'j',
        27 => 'k',
        28 => 'l',
        29 => 'z',
        30 => 'x',
        31 => 'c',
        _ => ' ',
    }
}

fn velocity_char_at(i: u8) -> (r: char)
    ensures
        r == velocity_char(i),
{
    match i {
        0 => '1',
        1 => '2',
        2 => '3',
        3 => '4',
        4 => '5',
        5 => '6',
        6 => '7',
        7 => '8',
        8 => '9',
        9 => '0',
        10 => 'q',
        11 => 'w',
        12 => 'e',
        13 => 'r',
        14 => 't',
        15 => 'y',
        16 => 'u',
        17 => 'i',
        18 => 'o',
        19 => 'p',
        20 => 'a',
        21 => 's',
        22 => 'd',
        23 => 'f',
        24 => 'g',
        25 => 'h',
        26 => 'j',
        27 => 'k',
        28 => 'l',
        29 => 'z',
        30 => 'x',
        31 => 'c',
        _ => ' ',
    }
}

/// The velocity key of a bucket, as a one-character name.
fn velocity_name(i: u8) -> (r: &'static str)
    requires
        i < 32,
    ensures
        r@ == seq![velocity_char(i)],
{
    match i {
        0 => {
            proof {
                reveal_strlit("1");
            }
            "1"
        },
        1 => {
            proof {
                reveal_strlit("2");
            }
            "2"
        },
        2 => {
            proof {
                reveal_strlit("3");
            }
            "3"
        },
        3 => {
            proof {
                reveal_strlit("4");
            }
            "4"
        },
        4 => {
            proof {
                reveal_strlit("5");
            }
            "5"
        },
        5 => {
            proof {
                reveal_strlit("6");
            }
            "6"
        },
        6 => {
            proof {
                reveal_strlit("7");
            }
            "7"
        },
        7 => {
            proof {
                reveal_strlit("8");
            }
            "8"
        },
        8 => {
            proof {
                reveal_strlit("9");
            }
            "9"
        },
        9 => {
            proof {
                reveal_strlit("0");
            }
            "0"
        },
        10 => {
            proof {
                reveal_strlit("q");
            }
            "q"
        },
        11 => {
            proof {
                reveal_strlit("w");
            }
            "w"
        },
        12 => {
            proof {
                reveal_strlit("e");
            }
            "e"
        },
        13 => {
            proof {
                reveal_strlit("r");
            }
            "r"
        },
        14 => {
            proof {
                reveal_strlit("t");
            }
            "t"
        },
        15 => {
            proof {
                reveal_strlit("y");
            }
            "y"
        },
        16 => {
            proof {
                reveal_strlit("u");
            }
            "u"
        },
        17 => {
            proof {
                reveal_strlit("i");
            }
            "i"
        },
        18 => {
            proof {
                reveal_strlit("o");
            }
            "o"
        },
        19 => {
            proof {
                reveal_strlit("p");
            }
            "p"
        },
        20 => {
            proof {
                reveal_strlit("a");
            }
            "a"
        },
        21 => {
            proof {
                reveal_strlit("s");
            }
            "s"
        },
        22 => {
            proof {
                reveal_strlit("d");
            }
            "d"
        },
        23 => {
            proof {
                reveal_strlit("f");
            }
            "f"
        },
        24 => {
            proof {
                reveal_strlit("g");
            }
            "g"
        },
        25 => {
            proof {
                reveal_strlit("h");
            }
            "h"
        },
        26 => {
            proof {
                reveal_strlit("j");
            }
            "j"
        },
        27 => {
            proof {
                reveal_strlit("k");
            }
            "k"
        },
        28 => {
            proof {
                reveal_strlit("l");
            }
            "l"
        },
        29 => {
            proof {
                reveal_strlit("z");
            }
            "z"
        },
        30 => {
            proof {
                reveal_strlit("x");
            }
            "x"
        },
        31 => {
            proof {
                reveal_strlit("c");
            }
            "c"
        },
        _ => {
            proof {
                reveal_strlit("c");
            }
            "c"
        },
    }
}

/// Every symbol of the two outer tables and of the bucket keys has a key.
pub proof fn lemma_outer_chars_resolve(i: u8)
    ensures
        i < 15 ==> char_key(low_char(i)) is Some,
        i < 12 ==> char_key(high_char(i)) is Some,
        i < 32 ==> char_key(velocity_char(i)) is Some,
{
}

/// The symbol a note maps to, if it lies in the 88-key range.
pub open spec fn pv_char(note: u8) -> Option<char> {
    if LOWEST_PIANO_NOTE <= note < LOWEST_NOTE {
        Some(low_char((LOWEST_NOTE - 1 - note) as u8))
    } else if LOWEST_NOTE <= note <= HIGHEST_NOTE {
        Some(regular_char((note - LOWEST_NOTE) as u8))
    } else if HIGHEST_NOTE < note <= HIGHEST_PIANO_NOTE {
        Some(high_char((note - HIGHEST_NOTE - 1) as u8))
    } else {
        None
    }
}

/// Whether a note lies outside the core window, which the receiver learns
/// from ctrl held around the note key.
pub open spec fn is_88_key(note: u8) -> bool {
    note < LOWEST_NOTE || note > HIGHEST_NOTE
}

/// The velocity that bucket `i` stands for.
pub open spec fn bucket_value(i: int) -> int {
    if i < 31 {
        4 * (i + 1)
    } else {
        127
    }
}

pub open spec fn bucket_distance(v: u8, i: int) -> int {
    let d = v - bucket_value(i);
    if d >= 0 {
        d
    } else {
        -d
    }
}

/// Bucket `i` is nearest to `v`, and strictly nearer than every earlier one.
pub open spec fn is_nearest_bucket(v: u8, i: int) -> bool {
    &&& 0 <= i < BUCKETS
    &&& forall|j: int| 0 <= j < BUCKETS ==> bucket_distance(v, i) <= #[trigger] bucket_distance(v, j)
    &&& forall|j: int| 0 <= j < i ==> bucket_distance(v, i) < #[trigger] bucket_distance(v, j)
}

/// The first bucket among the first `n` at the least distance from `v`.
pub open spec fn first_nearest(v: u8, n: nat) -> nat
    decreases n,
{
    if n <= 1 {
        0
    } else {
        let b = first_nearest(v, (n - 1) as nat);
        if bucket_distance(v, n - 1) < bucket_distance(v, b as int) {
            (n - 1) as nat
        } else {
            b
        }
    }
}

/// The bucket a velocity is sent as.
pub open spec fn nearest_bucket(v: u8) -> nat {
    first_nearest(v, BUCKETS as nat)
}

proof fn lemma_first_nearest(v: u8, n: nat)
    requires
        1 <= n <= BUCKETS,
    ensures
        first_nearest(v, n) < n,
        forall|j: int| 0 <= j < n ==> bucket_distance(v, first_nearest(v, n) as int) <= #[trigger] bucket_distance(v, j),
        forall|j: int| 0 <= j < first_nearest(v, n) ==> bucket_distance(v, first_nearest(v, n) as int) < #[trigger] bucket_distance(v, j),
    decreases n,
{
    if n > 1 {
        lemma_first_nearest(v, (n - 1) as nat);
    }
}

/// The bucket chosen for a velocity is the nearest one, ties going to the
/// lower bucket, and it is the only bucket with that property.
pub proof fn lemma_nearest_bucket(v: u8)
    ensures
        is_nearest_bucket(v, nearest_bucket(v) as int),
        forall|i: int| is_nearest_bucket(v, i) ==> i == nearest_bucket(v),
{
    lemma_first_nearest(v, BUCKETS as nat);
    assert forall|i: int| is_nearest_bucket(v, i) implies i == nearest_bucket(v) by {
        let b = nearest_bucket(v) as int;
        if i < b {
            assert(bucket_distance(v, b) < bucket_distance(v, i));
        } else if i > b {
            assert(bucket_distance(v, i) < bucket_distance(v, b));
        }
    }
}

pub open spec fn alt_key() -> Key {
    named_key(NamedKey::LeftAlt)
}

pub open spec fn ctrl_key() -> Key {
    named_key(NamedKey::LeftCtrl)
}

/// The key of the bucket a velocity falls in.
pub open spec fn velocity_key(v: u8) -> Key {
    char_key(velocity_char(nearest_bucket(v) as u8)).unwrap()
}

/// The alt-bracketed tap of the velocity's bucket key.
pub open spec fn velocity_taps(v: u8) -> Seq<KeyEvent> {
    seq![
        KeyEvent::Press(alt_key()),
        KeyEvent::Release(velocity_key(v)),
        KeyEvent::Press(velocity_key(v)),
        KeyEvent::Release(velocity_key(v)),
        KeyEvent::Release(alt_key()),
    ]
}

/// Transitions that put a note's key down, inside a ctrl bracket for the
/// notes outside the core window.
pub open spec fn note_strike(note: u8, k: Key) -> Seq<KeyEvent> {
    if is_88_key(note) {
        seq![KeyEvent::Press(ctrl_key())] + strike(k) + seq![KeyEvent::Release(ctrl_key())]
    } else {
        strike(k)
    }
}

/// New state and transitions for a struck note.
pub open spec fn pv_press(s: HeldState, note: u8, velocity: u8) -> (HeldState, Seq<KeyEvent>) {
    match pv_char(note) {
        Some(c) => (
            hold(s, char_key(c).unwrap()),
            velocity_taps(velocity) + note_strike(note, char_key(c).unwrap()),
        ),
        None => (s, Seq::empty()),
    }
}

/// New state and transitions for a released note.
pub open spec fn pv_release(s: HeldState, note: u8) -> (HeldState, Seq<KeyEvent>) {
    match pv_char(note) {
        Some(c) => lift(s, char_key(c).unwrap()),
        None => (s, Seq::empty()),
    }
}

/// The velocity that bucket `i` stands for.
fn bucket_value_at(i: usize) -> (r: u8)
    requires
        i < BUCKETS,
    ensures
        r == bucket_value(i as int),
{
    if i < 31 {
        (4 * (i + 1)) as u8
    } else {
        127
    }
}

/// How far `velocity` lies from bucket `i`.
fn distance_to_bucket(velocity: u8, i: usize) -> (r: u8)
    requires
        i < BUCKETS,
    ensures
        r == bucket_distance(velocity, i as int),
{
    let b = bucket_value_at(i);
    if velocity >= b {
        velocity - b
    } else {
        b - velocity
    }
}

/// The bucket a velocity is sent as.
pub fn velocity_bucket(velocity: u8) -> (r: usize)
    ensures
        r == nearest_bucket(velocity),
        r < BUCKETS,
{
    let mut best: usize = 0;
    let mut best_distance: u8 = distance_to_bucket(velocity, 0);
    let mut i: usize = 1;
    while i < BUCKETS
        invariant
            1 <= i <= BUCKETS,
            best == first_nearest(velocity, i as nat),
            best < i,
            best_distance == bucket_distance(velocity, best as int),
        decreases BUCKETS - i,
    {
        let d: u8 = distance_to_bucket(velocity, i);
        if d < best_distance {
            best = i;
            best_distance = d;
        }
        i = i + 1;
    }
    best
}

/// The name of the key that a velocity's bucket is tapped with.
pub fn string_for_velocity(velocity: u8) -> (r: String)
    ensures
        r@ == seq![velocity_char(nearest_bucket(velocity) as u8)],
{
    let i = velocity_bucket(velocity);
    velocity_name(i as u8).to_owned()
}

/// The alt-bracketed tap of the velocity's bucket key.
pub fn events_for_velocity(velocity: u8) -> (r: KeyEvents)
    ensures
        r@ == velocity_taps(velocity),
{
    let i = velocity_bucket(velocity);
    proof {
        lemma_outer_chars_resolve(i as u8);
    }
    let v = Key::for_char(velocity_char_at(i as u8)).unwrap();
    let alt = Key::named(NamedKey::LeftAlt);
    let mut events: KeyEvents = Vec::new();
    events.push(KeyEvent::Press(alt));
    events.push(KeyEvent::Release(v));
    events.push(KeyEvent::Press(v));
    events.push(KeyEvent::Release(v));
    events.push(KeyEvent::Release(alt));
    assert(events@ =~= velocity_taps(velocity));
    events
}

/// The symbol a note maps to, if it lies in the 88-key range.
fn str_for_note(note: u8) -> (r: Option<char>)
    ensures
        r == pv_char(note),
        r is Some ==> char_key(r.unwrap()) is Some,
{
    if LOWEST_PIANO_NOTE <= note && note < LOWEST_NOTE {
        proof {
            lemma_outer_chars_resolve((LOWEST_NOTE - 1 - note) as u8);
        }
        Some(low_char_at(LOWEST_NOTE - 1 - note))
    } else if LOWEST_NOTE <= note && note <= HIGHEST_NOTE {
        proof {
            lemma_regular_chars_resolve((note - LOWEST_NOTE) as u8);
        }
        Some(regular_char_at(note - LOWEST_NOTE))
    } else if HIGHEST_NOTE < note && note <= HIGHEST_PIANO_NOTE {
        proof {
            lemma_outer_chars_resolve((note - HIGHEST_NOTE - 1) as u8);
        }
        Some(high_char_at(note - HIGHEST_NOTE - 1))
    } else {
        None
    }
}

/// The piano-visualization method's state.
pub struct Inner {
    pressed_chars: PressCounts,
    space_down: bool,
}

impl View for Inner {
    type V = HeldState;

    closed spec fn view(&self) -> HeldState {
        HeldState { counts: self.pressed_chars@, sustain_down: self.space_down }
    }
}

impl Inner {
    /// Nothing held, pedal up.
    pub fn new() -> (r: Inner)
        ensures
            r.wf(),
            r@ == initial_held(),
    {
        Inner { pressed_chars: PressCounts::new(), space_down: false }
    }
}

impl InputMethod for Inner {
    open spec fn wf(&self) -> bool {
        self@.counts.len() == KEY_SLOTS
    }

    fn get_name(&self) -> (r: String)
        ensures
            r@ == "Piano Visualizations"@,
    {
        "Piano Visualizations".to_owned()
    }

    fn press_note(&mut self, note: u8, velocity: u8) -> (r: KeyEvents)
        ensures
            (final(self)@, r@) == pv_press(old(self)@, note, velocity),
    {
        match str_for_note(note) {
            None => Vec::new(),
            Some(c) => {
                let k = Key::for_char(c).unwrap();
                let mut events = events_for_velocity(velocity);
                let wide = note < LOWEST_NOTE || note > HIGHEST_NOTE;
                let ctrl = Key::named(NamedKey::LeftCtrl);
                if wide {
                    events.push(KeyEvent::Press(ctrl));
                }
                push_strike(&mut events, k);
                if wide {
                    events.push(KeyEvent::Release(ctrl));
                }
                self.pressed_chars.acquire(k.code);
                assert(events@ =~= velocity_taps(velocity) + note_strike(note, k));
                events
            }
        }
    }

    fn release_note(&mut self, note: u8) -> (r: KeyEvents)
        ensures
            (final(self)@, r@) == pv_release(old(self)@, note),
    {
        match str_for_note(note) {
            None => Vec::new(),
            Some(c) => {
                let k = Key::for_char(c).unwrap();
                lift_key(&mut self.pressed_chars, k)
            }
        }
    }

    fn reset(&mut self)
        ensures
            final(self)@ == initial_held(),
    {
        self.pressed_chars.clear();
        self.space_down = false;
    }

    fn process_sustain(&mut self, value: u8) -> (r: KeyEvents)
        ensures
            (final(self)@, r@) == sustain_step(old(self)@, value),
    {
        sustain_edge(&mut self.space_down, value)
    }
}

} // verus!
