//! The generic method: a five-octave window of notes, one symbol each.

use vstd::prelude::*;
use crate::keycodes::{char_key, Key, KeyEvents};
use crate::key_state::{PressCounts, KEY_SLOTS};
use crate::output_methods::{
    hold, initial_held, lift, lift_key, push_strike, strike, sustain_edge, sustain_step,
    HeldState, InputMethod,
};

verus! {

/// Lowest note of the window (C2).
pub const LOWEST_NOTE: u8 = 36;

/// Highest note of the window (C7).
pub const HIGHEST_NOTE: u8 = 96;

/// The symbol of each position in the five-octave window, lowest first.
pub open spec fn regular_char(i: u8) -> char {
    match i {
        0 => '1',
        1 => '!',
        2 => '2',
        3 => '@',
        4 => '3',
        5 => '4',
        6 => '$',
        7 => '5',
        8 => '%',
        9 => '6',
        10 => '^',
        11 => '7',
        12 => '8',
        13 => '*',
        14 => '9',
        15 => '(',
        16 => '0',
        17 => 'q',
        18 => 'Q',
        19 => 'w',
        20 => 'W',
        21 => 'e',
        22 => 'E',
        23 => 'r',
        24 => 't',
        25 => 'T',
        26 => 'y',
        27 => 'Y',
        28 => 'u',
        29 => 'i',
        30 => 'I',
        31 => 'o',
        32 => 'O',
        33 => 'p',
        34 => 'P',
        35 => 'a',
        36 => 's',
        37 => 'S',
        38 => 'd',
        39 => 'D',
        40 => 'f',
        41 => 'g',
        42 => 'G',
        43 => 'h',
        44 => 'H',
        45 => 'j',
        46 => 'J',
        47 => 'k',
        48 => 'l',
        49 => 'L',
        50 => 'z',
        51 => 'Z',
        52 => 'x',
        53 => 'c',
        54 => 'C',
        55 => 'v',
        56 => 'V',
        57 => 'b',
        58 => 'B',
        59 => 'n',
        60 => 'm',
        _ => ' ',
    }
}

pub(crate) fn regular_char_at(i: u8) -> (r: char)
    ensures
        r == regular_char(i),
{
    match i {
        0 => '1',
        1 => '!',
        2 => '2',
        3 => '@',
        4 => '3',
        5 => '4',
        6 => '$',
        7 => '5',
        8 => '%',
        9 => '6',
        10 => '^',
        11 => '7',
        12 => '8',
        13 => '*',
        14 => '9',
        15 => '(',
        16 => '0',
        17 => 'q',
        18 => 'Q',
        19 => 'w',
        20 => 'W',
        21 => 'e',
        22 => 'E',
        23 => 'r',
        24 => 't',
        25 => 'T',
        26 => 'y',
        27 => 'Y',
        28 => 'u',
        29 => 'i',
        30 => 'I',
        31 => 'o',
        32 => 'O',
        33 => 'p',
        34 => 'P',
        35 => 'a',
        36 => 's',
        37 => 'S',
        38 => 'd',
        39 => 'D',
        40 => 'f',
        41 => 'g',
        42 => 'G',
        43 => 'h',
        44 => 'H',
        45 => 'j',
        46 => 'J',
        47 => 'k',
        48 => 'l',
        49 => 'L',
        50 => 'z',
        51 => 'Z',
        52 => 'x',
        53 => 'c',
        54 => 'C',
        55 => 'v',
        56 => 'V',
        57 => 'b',
        58 => 'B',
        59 => 'n',
        60 => 'm',
        _ => ' ',
    }
}

/// Every symbol of the window has a key.
pub proof fn lemma_regular_chars_resolve(i: u8)
    requires
        i < 61,
    ensures
        char_key(regular_char(i)) is Some,
{
}

/// The symbol a note maps to, if it lies in the window.
pub open spec fn generic_char(note: u8) -> Option<char> {
    if LOWEST_NOTE <= note <= HIGHEST_NOTE {
        Some(regular_char((note - LOWEST_NOTE) as u8))
    } else {
        None
    }
}

/// New state and transitions for a struck note.
pub open spec fn generic_press(s: HeldState, note: u8) -> (HeldState, Seq<crate::keycodes::KeyEvent>) {
    match generic_char(note) {
        Some(c) => (hold(s, char_key(c).unwrap()), strike(char_key(c).unwrap())),
        None => (s, Seq::empty()),
    }
}

/// New state and transitions for a released note.
pub open spec fn generic_release(s: HeldState, note: u8) -> (HeldState, Seq<crate::keycodes::KeyEvent>) {
    match generic_char(note) {
        Some(c) => lift(s, char_key(c).unwrap()),
        None => (s, Seq::empty()),
    }
}

/// The symbol a note maps to, if it lies in the window.
fn str_for_note(note: u8) -> (r: Option<char>)
    ensures
        r == generic_char(note),
{
    if LOWEST_NOTE <= note && note <= HIGHEST_NOTE {
        Some(regular_char_at(note - LOWEST_NOTE))
    } else {
        None
    }
}

/// The generic method's state.
pub struct Inner {
    pressed_chars: PressCounts,
    space_down: bool,
}

impl View for Inner {
    type V = HeldState;

    closed spec fn view(&self) -> HeldState {
        HeldState { counts: self.pressed_chars@, sustain_down: self.space_down }
    }
}

impl Inner {
    /// Nothing held, pedal up.
    pub fn new() -> (r: Inner)
        ensures
            r.wf(),
            r@ == initial_held(),
    {
        Inner { pressed_chars: PressCounts::new(), space_down: false }
    }
}

impl InputMethod for Inner {
    open spec fn wf(&self) -> bool {
        self@.counts.len() == KEY_SLOTS
    }

    fn get_name(&self) -> (r: String)
        ensures
            r@ == "Generic"@,
    {
        "Generic".to_owned()
    }

    fn press_note(&mut self, note: u8, velocity: u8) -> (r: KeyEvents)
        ensures
            (final(self)@, r@) == generic_press(old(self)@, note),
    {
        match str_for_note(note) {
            None => Vec::new(),
            Some(c) => {
                proof {
                    lemma_regular_chars_resolve((note - LOWEST_NOTE) as u8);
                }
                let k = Key::for_char(c).unwrap();
                let mut events: KeyEvents = Vec::new();
                push_strike(&mut events, k);
                self.pressed_chars.acquire(k.code);
                assert(events@ =~= strike(k));
                events
            }
        }
    }

    fn release_note(&mut self, note: u8) -> (r: KeyEvents)
        ensures
            (final(self)@, r@) == generic_release(old(self)@, note),
    {
        match str_for_note(note) {
            None => Vec::new(),
            Some(c) => {
                proof {
                    lemma_regular_chars_resolve((note - LOWEST_NOTE) as u8);
                }
                let k = Key::for_char(c).unwrap();
                lift_key(&mut self.pressed_chars, k)
            }
        }
    }

    fn reset(&mut self)
        ensures
            final(self)@ == initial_held(),
    {
        self.pressed_chars.clear();
        self.space_down = false;
    }

    fn process_sustain(&mut self, value: u8) -> (r: KeyEvents)
        ensures
            (final(self)@, r@) == sustain_step(old(self)@, value),
    {
        sustain_edge(&mut self.space_down, value)
    }
}

} // verus!
