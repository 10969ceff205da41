//! A single-slot signal line.
use vstd::prelude::*;

verus! {

/// A latched wire that holds at most one value.
///
/// A value that was written stays readable until it is overwritten or the
/// line is cleared; reading never consumes it.
pub struct Bus<T: Copy> {
    pub value: Option<T>,
}

impl<T: Copy> View for Bus<T> {
    type V = Option<T>;

    /// The value currently on the line, if any.
    open spec fn view(&self) -> Option<T> {
        self.value
    }
}

impl<T: Copy> Default for Bus<T> {
    fn default() -> (bus: Bus<T>)
        ensures
            bus@ is None,
    {
        Bus { value: None }
    }
}

impl<T: Copy> Bus<T> {
    /// An empty line.
    pub fn new() -> (bus: Self)
        ensures
            bus@ is None,
    {
        Bus { value: None }
    }

    /// Drives `data` onto the line, replacing whatever was there.
    pub fn write(&mut self, data: T)
        ensures
            final(self)@ == Some(data),
    {
        self.value = Some(data);
    }

    /// Empties the line.
    pub fn clear(&mut self)
        ensures
            final(self)@ is None,
    {
        self.value = None;
    }

    /// Samples the line without disturbing it.
    pub fn read(&self) -> (value: Option<T>)
        ensures
            value == self@,
    {
        self.value
    }
}

} // verus!
