use vstd::prelude::*;

verus! {

/// Units in which a span of time is counted.
#[derive(Copy, Clone, PartialEq, Eq, Structural, Debug)]
pub enum TimeUnit {
    Nanoseconds,
    Microseconds,
    Milliseconds,
    Seconds,
}

impl TimeUnit {
    /// Nanoseconds in one unit.
    pub open spec fn nanoseconds_spec(self) -> u64 {
        match self {
            TimeUnit::Nanoseconds => 1,
            TimeUnit::Microseconds => 1_000,
            TimeUnit::Milliseconds => 1_000_000,
            TimeUnit::Seconds => 1_000_000_000,
        }
    }

    pub fn to_nanoseconds(&self) -> (r: u64)
        ensures
            r == self.nanoseconds_spec(),
    {
        match self {
            TimeUnit::Nanoseconds => 1,
            TimeUnit::Microseconds => 1_000,
            TimeUnit::Milliseconds => 1_000_000,
            TimeUnit::Seconds => 1_000_000_000,
        }
    }
}

/// A component driven by the machine clock.
pub trait ClockAware {
    /// The component can take its next tick.
    spec fn ready_to_tick(&self) -> bool;

    /// Advances the component by one clock tick.
    fn handle_tick(&mut self, double_speed: bool)
        requires
            old(self).ready_to_tick(),
    ;

    /// A tick at normal speed.
    fn tick(&mut self)
        requires
            old(self).ready_to_tick(),
    ;
}

} // verus!
