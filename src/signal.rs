//! A shared stop flag for cooperative shutdown.

use std::sync::atomic::{AtomicBool, Ordering};
use std::sync::Arc;
use vstd::prelude::*;

verus! {

/// A boolean flag shared by all of its clones: activating one clone is seen
/// by every other. Reads and writes use relaxed ordering, which is enough
/// for a flag that only asks a loop to end.
///
/// Other holders may change the flag at any time, so nothing is stated of
/// what `status` returns; every operation keeps the handle on the same
/// shared flag.
#[derive(Clone)]
pub struct Signal {
    value: Arc<AtomicBool>,
}

impl Signal {
    /// A new signal, not shared with any other, and inactive.
    pub fn new() -> (r: Signal) {
        Signal { value: Arc::new(AtomicBool::new(false)) }
    }

    /// Whether the flag is set now.
    pub fn status(&self) -> bool {
        self.value.load(Ordering::Relaxed)
    }

    /// Sets the flag, for this handle and all of its clones.
    pub fn activate(&mut self)
        ensures
            *final(self) == *old(self),
    {
        self.set(true);
    }

    /// Clears the flag, for this handle and all of its clones.
    pub fn deactivate(&mut self)
        ensures
            *final(self) == *old(self),
    {
        self.set(false);
    }

    fn set(&mut self, value: bool)
        ensures
            *final(self) == *old(self),
    {
        self.value.store(value, Ordering::Relaxed);
    }
}

} // verus!
