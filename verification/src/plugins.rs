//! The bookkeeping cores of the UI plugins: the counter value, window
//! identifier assignment, and the system probe marker. Binding them to
//! UI callbacks is the runtime's work.

use vstd::prelude::*;

verus! {

/// The counter the UI increments and resets.
pub struct CounterPlugin {
    pub value: i32,
}

impl CounterPlugin {
    /// A fresh counter at zero.
    pub fn new() -> (p: Self)
        ensures
            p.value == 0,
    {
        CounterPlugin { value: 0 }
    }

    /// The current value.
    pub fn get_value(&self) -> (r: i32)
        ensures
            r == self.value,
    {
        self.value
    }

    /// Adds one and returns the new value.
    pub fn increment(&mut self) -> (r: i32)
        requires
            old(self).value < i32::MAX,
        ensures
            final(self).value == old(self).value + 1,
            r == final(self).value,
    {
        self.value = self.value + 1;
        self.value
    }

    /// Back to zero.
    pub fn reset(&mut self)
        ensures
            final(self).value == 0,
    {
        self.value = 0;
    }
}

impl Default for CounterPlugin {
    /// The default counter is a fresh one.
    fn default() -> (p: Self)
        ensures
            p.value == 0,
    {
        Self::new()
    }
}

/// Hands out window identifiers, starting at 1.
pub struct WindowPlugin {
    pub next_id: usize,
}

impl WindowPlugin {
    /// A fresh dispenser whose first identifier is 1.
    pub fn new() -> (p: Self)
        ensures
            p.next_id == 1,
    {
        WindowPlugin { next_id: 1 }
    }

    /// The next identifier; each call returns one more than the last.
    pub fn get_next_id(&mut self) -> (r: usize)
        requires
            old(self).next_id < usize::MAX,
        ensures
            r == old(self).next_id,
            final(self).next_id == old(self).next_id + 1,
    {
        let id = self.next_id;
        self.next_id = self.next_id + 1;
        id
    }
}

impl Default for WindowPlugin {
    /// The default dispenser is a fresh one.
    fn default() -> (p: Self)
        ensures
            p.next_id == 1,
    {
        Self::new()
    }
}

/// The system probe plugin; its callbacks live with the runtime.
pub struct SystemPlugin;

impl SystemPlugin {
    /// A fresh probe.
    pub fn new() -> Self {
        SystemPlugin
    }
}

impl Default for SystemPlugin {
    /// The default probe is a fresh one.
    fn default() -> Self {
        Self::new()
    }
}

} // verus!
