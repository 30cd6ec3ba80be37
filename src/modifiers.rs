//! Modifier state for injection mechanisms that must set modifier flags on
//! every event themselves, having no way to query them.

use vstd::prelude::*;
use crate::keycodes::{named_key, Key, KeyEvent, NamedKey};

verus! {

/// Which modifiers are currently held.
#[derive(Debug, Clone, Copy, PartialEq, Eq)]
pub struct ModifierFlags {
    pub shift: bool,
    pub alt: bool,
    pub ctrl: bool,
}

/// Whether a transition puts its key down.
pub open spec fn is_press(e: KeyEvent) -> bool {
    e is Press
}

/// The flags after one transition: a transition of a modifier key sets its
/// flag to whether the key went down; other keys leave the flags alone.
pub open spec fn flags_after(m: ModifierFlags, e: KeyEvent) -> ModifierFlags {
    let code = e.key().code;
    ModifierFlags {
        shift: if code == named_key(NamedKey::Shift).code { is_press(e) } else { m.shift },
        alt: if code == named_key(NamedKey::LeftAlt).code { is_press(e) } else { m.alt },
        ctrl: if code == named_key(NamedKey::LeftCtrl).code { is_press(e) } else { m.ctrl },
    }
}

impl ModifierFlags {
    /// No modifier held.
    pub fn new() -> (r: ModifierFlags)
        ensures
            !r.shift && !r.alt && !r.ctrl,
    {
        ModifierFlags { shift: false, alt: false, ctrl: false }
    }

    /// Records one transition.
    pub fn track(&mut self, event: &KeyEvent)
        ensures
            *final(self) == flags_after(*old(self), *event),
    {
        let code = event.code();
        let down = match event {
            KeyEvent::Press(_) => true,
            KeyEvent::Release(_) => false,
        };
        if code == Key::named(NamedKey::Shift).code {
            self.shift = down;
        }
        if code == Key::named(NamedKey::LeftAlt).code {
            self.alt = down;
        }
        if code == Key::named(NamedKey::LeftCtrl).code {
            self.ctrl = down;
        }
    }
}

} // verus!
