//! The control unit: the interrupt master enable flag.
use vstd::prelude::*;

verus! {

/// Holds the interrupt master enable flag (IME).
pub struct ControlUnit {
    pub ime: bool,
}

impl ControlUnit {
    /// A control unit with interrupts disabled.
    pub fn new() -> (unit: ControlUnit)
        ensures
            !unit.ime,
    {
        ControlUnit { ime: false }
    }

    pub fn enable_interrupts(&mut self)
        ensures
            final(self).ime,
    {
        self.ime = true;
    }

    pub fn disable_interrupts(&mut self)
        ensures
            !final(self).ime,
    {
        self.ime = false;
    }
}

} // verus!
