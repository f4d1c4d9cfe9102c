//! The vocabulary in which a host reports input.

use vstd::prelude::*;

verus! {

/// One of the two scroll directions.
#[derive(Clone, Copy, Debug, PartialEq, Eq, Structural)]
pub enum Axis {
    Horizontal,
    Vertical,
}

/// An input event, stamped with the tick at which the host observed it.
#[derive(Clone, Copy, Debug)]
pub enum Event {
    /// A discrete delta on one axis.
    Pan { timestamp: u64, axis: Axis, amount: i32 },
    /// Input has ceased; momentum animation begins.
    Fling { timestamp: u64 },
    /// Cancels momentum in flight and forgets recent history.
    Interrupt { timestamp: u64 },
}

/// One raw pan delta on one axis, as it is kept in a pan log.
pub struct AxisSample<T> {
    pub timestamp: u64,
    pub magnitude: T,
}

impl<T: Copy> Clone for AxisSample<T> {
    fn clone(&self) -> (r: Self)
        ensures
            r == *self,
    {
        *self
    }
}

impl<T: Copy> Copy for AxisSample<T> {

}

impl Axis {
    /// The other axis.
    pub open spec fn spec_other(self) -> Axis {
        match self {
            Axis::Horizontal => Axis::Vertical,
            Axis::Vertical => Axis::Horizontal,
        }
    }
}

} // verus!
