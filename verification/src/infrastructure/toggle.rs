use vstd::prelude::*;

verus! {

/// A boolean flag that can be flipped, set and cleared.
pub struct Toggle(pub bool);

impl Toggle {
    /// Flips the flag and returns its new value.
    pub fn toggle(&mut self) -> (r: bool)
        ensures
            final(self).0 == !old(self).0,
            r == final(self).0,
    {
        self.0 = !self.0;
        self.0
    }

    /// Flips the flag and returns the value it had before.
    pub fn inspect_and_toggle(&mut self) -> (r: bool)
        ensures
            final(self).0 == !old(self).0,
            r == old(self).0,
    {
        self.0 = !self.0;
        !self.0
    }

    /// Clears the flag and returns the value it had before.
    pub fn inspect_and_clear(&mut self) -> (r: bool)
        ensures
            !final(self).0,
            r == old(self).0,
    {
        let result = self.0;
        self.0 = false;
        result
    }

    pub fn checked(&self) -> (r: bool)
        ensures
            r == self.0,
    {
        self.0
    }

    pub fn clear(&mut self)
        ensures
            !final(self).0,
    {
        self.0 = false;
    }

    pub fn check(&mut self)
        ensures
            final(self).0,
    {
        self.0 = true;
    }
}

} // verus!
