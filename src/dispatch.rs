//! The active output method, and the routing of incoming musical events to it.

use vstd::prelude::*;
use crate::keycodes::{KeyEvent, KeyEvents};
use crate::output_methods::{initial_held, sustain_step, InputMethod};
use crate::generic::{self, generic_press, generic_release};
use crate::pv::{self, pv_press, pv_release};
use crate::piano_rooms::{self, burst, SUSTAIN_CONTROL};

verus! {

/// The controller number of the sustain pedal.
pub const SUSTAIN_CONTROLLER: u8 = 64;

/// The output methods on offer.
#[derive(Debug, Clone, Copy, PartialEq, Eq)]
pub enum AvailableInputMethod {
    Generic,
    PV,
    PianoRooms,
}

/// A parsed musical event, with seven-bit data.
#[derive(Debug, Clone, Copy, PartialEq, Eq)]
pub enum MidiMessage {
    NoteOn(u8, u8),
    NoteOff(u8, u8),
    Controller(u8, u8),
    Other,
}

impl MidiMessage {
    /// Every data value fits in seven bits.
    pub open spec fn wf(self) -> bool {
        match self {
            MidiMessage::NoteOn(n, v) => n <= 127 && v <= 127,
            MidiMessage::NoteOff(n, v) => n <= 127 && v <= 127,
            MidiMessage::Controller(c, v) => c <= 127 && v <= 127,
            MidiMessage::Other => true,
        }
    }
}

/// The selected output method and its state.
pub enum OutputMethod {
    Generic(generic::Inner),
    Pv(pv::Inner),
    PianoRooms(piano_rooms::Inner),
}

/// `after` and `out` are what striking `note` does to `before`.
pub open spec fn pressed(before: OutputMethod, after: OutputMethod, note: u8, velocity: u8, out: Seq<KeyEvent>) -> bool {
    match (before, after) {
        (OutputMethod::Generic(a), OutputMethod::Generic(b)) => (b@, out) == generic_press(a@, note),
        (OutputMethod::Pv(a), OutputMethod::Pv(b)) => (b@, out) == pv_press(a@, note, velocity),
        (OutputMethod::PianoRooms(_), OutputMethod::PianoRooms(_)) => out == burst(note, velocity),
        _ => false,
    }
}

/// `after` and `out` are what letting go of `note` does to `before`.
pub open spec fn released(before: OutputMethod, after: OutputMethod, note: u8, out: Seq<KeyEvent>) -> bool {
    match (before, after) {
        (OutputMethod::Generic(a), OutputMethod::Generic(b)) => (b@, out) == generic_release(a@, note),
        (OutputMethod::Pv(a), OutputMethod::Pv(b)) => (b@, out) == pv_release(a@, note),
        (OutputMethod::PianoRooms(_), OutputMethod::PianoRooms(_)) => out == burst(note, 0),
        _ => false,
    }
}

/// `after` and `out` are what pedal value `value` does to `before`.
pub open spec fn sustained(before: OutputMethod, after: OutputMethod, value: u8, out: Seq<KeyEvent>) -> bool {
    match (before, after) {
        (OutputMethod::Generic(a), OutputMethod::Generic(b)) => (b@, out) == sustain_step(a@, value),
        (OutputMethod::Pv(a), OutputMethod::Pv(b)) => (b@, out) == sustain_step(a@, value),
        (OutputMethod::PianoRooms(_), OutputMethod::PianoRooms(_)) => out == burst(SUSTAIN_CONTROL, value),
        _ => false,
    }
}

/// `m` is a fresh method of the given kind.
pub open spec fn is_fresh(m: OutputMethod, kind: AvailableInputMethod) -> bool {
    match (kind, m) {
        (AvailableInputMethod::Generic, OutputMethod::Generic(a)) => a@ == initial_held(),
        (AvailableInputMethod::PV, OutputMethod::Pv(a)) => a@ == initial_held(),
        (AvailableInputMethod::PianoRooms, OutputMethod::PianoRooms(_)) => true,
        _ => false,
    }
}

/// The kind of a method.
pub open spec fn kind_of(m: OutputMethod) -> AvailableInputMethod {
    match m {
        OutputMethod::Generic(_) => AvailableInputMethod::Generic,
        OutputMethod::Pv(_) => AvailableInputMethod::PV,
        OutputMethod::PianoRooms(_) => AvailableInputMethod::PianoRooms,
    }
}

impl OutputMethod {
    /// A fresh method of the given kind.
    pub fn new(kind: AvailableInputMethod) -> (r: OutputMethod)
        ensures
            r.wf(),
            is_fresh(r, kind),
    {
        match kind {
            AvailableInputMethod::Generic => OutputMethod::Generic(generic::Inner::new()),
            AvailableInputMethod::PV => OutputMethod::Pv(pv::Inner::new()),
            AvailableInputMethod::PianoRooms => OutputMethod::PianoRooms(piano_rooms::Inner::new()),
        }
    }

    /// The transitions for one incoming event. Note events go to the method;
    /// of the controllers only the sustain pedal does; the rest emit nothing.
    pub fn handle(&mut self, msg: MidiMessage) -> (r: KeyEvents)
        requires
            old(self).wf(),
            msg.wf(),
        ensures
            final(self).wf(),
            match msg {
                MidiMessage::NoteOn(n, v) => pressed(*old(self), *final(self), n, v, r@),
                MidiMessage::NoteOff(n, _) => released(*old(self), *final(self), n, r@),
                MidiMessage::Controller(c, v) => if c == SUSTAIN_CONTROLLER {
                    sustained(*old(self), *final(self), v, r@)
                } else {
                    *final(self) == *old(self) && r@ == Seq::<KeyEvent>::empty()
                },
                MidiMessage::Other => *final(self) == *old(self) && r@ == Seq::<KeyEvent>::empty(),
            },
    {
        match msg {
            MidiMessage::NoteOn(n, v) => self.press_note(n, v),
            MidiMessage::NoteOff(n, _) => self.release_note(n),
            MidiMessage::Controller(c, v) => {
                if c == SUSTAIN_CONTROLLER {
                    self.process_sustain(v)
                } else {
                    Vec::new()
                }
            },
            MidiMessage::Other => Vec::new(),
        }
    }
}

impl InputMethod for OutputMethod {
    open spec fn wf(&self) -> bool {
        match self {
            OutputMethod::Generic(m) => m.wf(),
            OutputMethod::Pv(m) => m.wf(),
            OutputMethod::PianoRooms(m) => m.wf(),
        }
    }

    fn get_name(&self) -> (r: String)
        ensures
            r@ == match self {
                OutputMethod::Generic(_) => "Generic"@,
                OutputMethod::Pv(_) => "Piano Visualizations"@,
                OutputMethod::PianoRooms(_) => "Piano Rooms"@,
            },
    {
        match self {
            OutputMethod::Generic(m) => m.get_name(),
            OutputMethod::Pv(m) => m.get_name(),
            OutputMethod::PianoRooms(m) => m.get_name(),
        }
    }

    fn press_note(&mut self, note: u8, velocity: u8) -> (r: KeyEvents)
        ensures
            pressed(*old(self), *final(self), note, velocity, r@),
    {
        match self {
            OutputMethod::Generic(m) => m.press_note(note, velocity),
            OutputMethod::Pv(m) => m.press_note(note, velocity),
            OutputMethod::PianoRooms(m) => m.press_note(note, velocity),
        }
    }

    fn release_note(&mut self, note: u8) -> (r: KeyEvents)
        ensures
            released(*old(self), *final(self), note, r@),
    {
        match self {
            OutputMethod::Generic(m) => m.release_note(note),
            OutputMethod::Pv(m) => m.release_note(note),
            OutputMethod::PianoRooms(m) => m.release_note(note),
        }
    }

    fn reset(&mut self)
        ensures
            is_fresh(*final(self), kind_of(*old(self))),
    {
        match self {
            OutputMethod::Generic(m) => m.reset(),
            OutputMethod::Pv(m) => m.reset(),
            OutputMethod::PianoRooms(m) => m.reset(),
        }
    }

    fn process_sustain(&mut self, value: u8) -> (r: KeyEvents)
        ensures
            sustained(*old(self), *final(self), value, r@),
    {
        match self {
            OutputMethod::Generic(m) => m.process_sustain(value),
            OutputMethod::Pv(m) => m.process_sustain(value),
            OutputMethod::PianoRooms(m) => m.process_sustain(value),
        }
    }
}

} // verus!
