//! Per-key press counts that reconcile overlapping demand for one physical key.

use vstd::prelude::*;

verus! {

/// One slot for every possible key code.
pub const KEY_SLOTS: usize = 65536;

/// The count that one more acquisition leaves; it stays at the largest `u8`.
pub open spec fn count_after_acquire(n: u8) -> u8 {
    if n == 255 {
        255
    } else {
        (n + 1) as u8
    }
}

/// The count that one release leaves; it never goes below zero.
pub open spec fn count_after_release(n: u8) -> u8 {
    if n == 0 {
        0
    } else {
        (n - 1) as u8
    }
}

/// The table in which no key is held.
pub open spec fn no_presses() -> Seq<u8> {
    Seq::new(KEY_SLOTS as nat, |i: int| 0u8)
}

/// Counts after acquiring `code`.
pub open spec fn acquired(counts: Seq<u8>, code: u16) -> Seq<u8> {
    counts.update(code as int, count_after_acquire(counts[code as int]))
}

/// Counts after releasing `code`.
pub open spec fn released(counts: Seq<u8>, code: u16) -> Seq<u8> {
    counts.update(code as int, count_after_release(counts[code as int]))
}

/// How many active notes currently hold each key code.
pub struct PressCounts {
    counts: Vec<u8>,
}

impl View for PressCounts {
    type V = Seq<u8>;

    closed spec fn view(&self) -> Seq<u8> {
        self.counts@
    }
}

impl PressCounts {
    pub open spec fn wf(&self) -> bool {
        self@.len() == KEY_SLOTS
    }

    /// A table in which no key is held.
    pub fn new() -> (r: PressCounts)
        ensures
            r.wf(),
            r@ == no_presses(),
    {
        let counts = vec![0u8; KEY_SLOTS];
        let r = PressCounts { counts };
        assert(r@ =~= no_presses());
        r
    }

    /// The current count of `code`.
    pub fn count(&self, code: u16) -> (r: u8)
        requires
            self.wf(),
        ensures
            r == self@[code as int],
    {
        self.counts[code as usize]
    }

    /// Records one more demand on `code`; true exactly on the step from 0 to 1.
    pub fn acquire(&mut self, code: u16) -> (r: bool)
        requires
            old(self).wf(),
        ensures
            final(self).wf(),
            final(self)@ == acquired(old(self)@, code),
            r == (old(self)@[code as int] == 0),
    {
        let i = code as usize;
        let n = self.counts[i];
        if n < 255 {
            self.counts[i] = n + 1;
        }
        n == 0
    }

    /// Drops one demand on `code`; true exactly on the step from 1 to 0.
    pub fn release(&mut self, code: u16) -> (r: bool)
        requires
            old(self).wf(),
        ensures
            final(self).wf(),
            final(self)@ == released(old(self)@, code),
            r == (old(self)@[code as int] == 1),
    {
        let i = code as usize;
        let n = self.counts[i];
        if n > 0 {
            self.counts[i] = n - 1;
        }
        n == 1
    }

    /// Forgets every demand.
    pub fn clear(&mut self)
        requires
            old(self).wf(),
        ensures
            final(self).wf(),
            final(self)@ == no_presses(),
    {
        *self = PressCounts::new();
    }
}

} // verus!
