//! Two-axis magnitudes with the thresholds and flag that drive momentum decay.

use vstd::prelude::*;
use crate::event::Axis;
use crate::scalar::Curved;
use crate::scalar::Scalar;

verus! {

/// A value on each of the two axes, the threshold under which each magnitude
/// counts as settled, and whether momentum decay has been started.
///
/// This is a plain value: every field is part of its meaning, and two vectors
/// are equal when all five fields are.
pub struct AxisVector<T: Scalar> {
    pub x: T,
    pub y: T,
    pub x_threshold: T,
    pub y_threshold: T,
    pub decaying: bool,
}

impl<T: Scalar> AxisVector<T> {
    /// The vector with every magnitude and threshold zero, not decaying.
    pub open spec fn spec_default() -> Self {
        AxisVector {
            x: T::spec_zero(),
            y: T::spec_zero(),
            x_threshold: T::spec_zero(),
            y_threshold: T::spec_zero(),
            decaying: false,
        }
    }

    /// Component-wise `self - other`; thresholds and flag are those of `self`.
    pub open spec fn spec_difference(self, other: Self) -> Self {
        AxisVector { x: self.x.spec_minus(other.x), y: self.y.spec_minus(other.y), ..self }
    }

    /// Component-wise `self + rhs`; thresholds and flag are those of `self`.
    pub open spec fn spec_sum(self, rhs: Self) -> Self {
        AxisVector { x: self.x.spec_plus(rhs.x), y: self.y.spec_plus(rhs.y), ..self }
    }

    /// The magnitude on `axis`.
    pub open spec fn spec_get_at(self, axis: Axis) -> T {
        match axis {
            Axis::Horizontal => self.x,
            Axis::Vertical => self.y,
        }
    }

    /// `self` with the magnitude on `axis` replaced by `magnitude`.
    pub open spec fn spec_update(self, axis: Axis, magnitude: T) -> Self {
        match axis {
            Axis::Horizontal => AxisVector { x: magnitude, ..self },
            Axis::Vertical => AxisVector { y: magnitude, ..self },
        }
    }

    /// `self` with `magnitude` added to the magnitude on `axis`.
    pub open spec fn spec_append(self, axis: Axis, magnitude: T) -> Self {
        self.spec_update(axis, magnitude.spec_plus(self.spec_get_at(axis)))
    }

    /// Decay is active while the flag is set and both magnitudes are strictly
    /// above their thresholds. The test is conjunctive: as soon as one axis is
    /// at or under its threshold, neither axis decays any further.
    pub open spec fn spec_decay_active(self) -> bool {
        &&& self.decaying
        &&& self.x_threshold.spec_below(self.x)
        &&& self.y_threshold.spec_below(self.y)
    }

    /// Both magnitudes are strictly under their thresholds.
    pub open spec fn spec_settled(self) -> bool {
        &&& self.x.spec_below(self.x_threshold)
        &&& self.y.spec_below(self.y_threshold)
    }

    /// `self` with the decay flag set.
    pub open spec fn spec_decay_start(self) -> Self {
        AxisVector { decaying: true, ..self }
    }

    /// `self` with the decay flag cleared if both magnitudes are settled.
    pub open spec fn spec_settle(self) -> Self {
        if self.spec_settled() {
            AxisVector { decaying: false, ..self }
        } else {
            self
        }
    }

    /// One frame of decay, given the values `decayed_x` and `decayed_y` that the
    /// decay curve produced for the two magnitudes: while decay is active the
    /// magnitudes are replaced by them; then the flag is cleared if both
    /// magnitudes are settled.
    pub open spec fn spec_step(self, decayed_x: T, decayed_y: T) -> Self {
        if self.spec_decay_active() {
            (AxisVector { x: decayed_x, y: decayed_y, ..self }).spec_settle()
        } else {
            self.spec_settle()
        }
    }

    /// A vector that is not decaying.
    pub fn new(x: T, y: T, x_threshold: T, y_threshold: T) -> (r: Self)
        ensures
            r == (AxisVector { x, y, x_threshold, y_threshold, decaying: false }),
    {
        AxisVector { x, y, x_threshold, y_threshold, decaying: false }
    }

    /// Component-wise subtraction.
    pub fn difference(self, other: AxisVector<T>) -> (r: AxisVector<T>)
        ensures
            r == self.spec_difference(other),
    {
        AxisVector { x: self.x.minus(other.x), y: self.y.minus(other.y), ..self }
    }

    /// Overwrites the magnitude on `axis`.
    pub fn update(&mut self, axis: Axis, magnitude: T)
        ensures
            *final(self) == old(self).spec_update(axis, magnitude),
    {
        match axis {
            Axis::Horizontal => self.x = magnitude,
            Axis::Vertical => self.y = magnitude,
        }
    }

    /// Reads the magnitude on `axis`.
    pub fn get_at(&self, axis: Axis) -> (r: T)
        ensures
            r == self.spec_get_at(axis),
    {
        match axis {
            Axis::Horizontal => self.x,
            Axis::Vertical => self.y,
        }
    }

    /// Adds `magnitude` to the magnitude on `axis`.
    pub fn append(&mut self, axis: Axis, magnitude: T)
        ensures
            *final(self) == old(self).spec_append(axis, magnitude),
    {
        match axis {
            Axis::Horizontal => self.x = magnitude.plus(self.x),
            Axis::Vertical => self.y = magnitude.plus(self.y),
        }
    }

    /// Whether momentum decay is in progress.
    pub fn decay_active(&self) -> (r: bool)
        ensures
            r == self.spec_decay_active(),
    {
        self.decaying && self.x_threshold.below(self.x) && self.y_threshold.below(self.y)
    }

    /// Starts momentum decay.
    pub fn decay_start(&mut self)
        ensures
            *final(self) == old(self).spec_decay_start(),
    {
        self.decaying = true;
    }

    /// Advances decay by one frame with curve values computed by the caller.
    /// The two values are ignored unless decay is active.
    pub fn step_with(&mut self, decayed_x: T, decayed_y: T)
        ensures
            *final(self) == old(self).spec_step(decayed_x, decayed_y),
    {
        if self.decay_active() {
            self.x = decayed_x;
            self.y = decayed_y;
        }
        if self.x.below(self.x_threshold) && self.y.below(self.y_threshold) {
            self.decaying = false;
        }
    }
}

impl<T: Curved> AxisVector<T> {
    /// Advances decay by one frame. While decay is active each magnitude is
    /// replaced by what the decay curve makes of it; otherwise the magnitudes
    /// stay. The flag is cleared once both magnitudes are settled.
    pub fn step_frame(&mut self)
        ensures
            *final(self) == old(self).spec_step(final(self).x, final(self).y),
            old(self).spec_decay_active() ==> call_ensures(
                T::fling_decay,
                (old(self).x,),
                final(self).x,
            ) && call_ensures(T::fling_decay, (old(self).y,), final(self).y),
    {
        if self.decay_active() {
            let decayed_x = self.x.fling_decay();
            let decayed_y = self.y.fling_decay();
            self.step_with(decayed_x, decayed_y);
        } else {
            self.step_with(self.x, self.y);
        }
    }
}

impl<T: Scalar> Clone for AxisVector<T> {
    fn clone(&self) -> (r: Self)
        ensures
            r == *self,
    {
        *self
    }
}

impl<T: Scalar> Copy for AxisVector<T> {

}

impl<T: Scalar> Default for AxisVector<T> {
    fn default() -> (r: Self)
        ensures
            r == Self::spec_default(),
    {
        AxisVector {
            x: T::zero(),
            y: T::zero(),
            x_threshold: T::zero(),
            y_threshold: T::zero(),
            decaying: false,
        }
    }
}

impl<T: Scalar> core::ops::Add<AxisVector<T>> for AxisVector<T> {
    type Output = AxisVector<T>;

    /// Component-wise sum; thresholds and flag come from the left operand.
    fn add(self, rhs: AxisVector<T>) -> (r: AxisVector<T>)
        ensures
            r == self.spec_sum(rhs),
    {
        AxisVector { x: self.x.plus(rhs.x), y: self.y.plus(rhs.y), ..self }
    }
}

impl<T: Scalar> vstd::std_specs::ops::AddSpecImpl<AxisVector<T>> for AxisVector<T> {
    open spec fn obeys_add_spec() -> bool {
        true
    }

    open spec fn add_req(self, rhs: AxisVector<T>) -> bool {
        true
    }

    open spec fn add_spec(self, rhs: AxisVector<T>) -> AxisVector<T> {
        self.spec_sum(rhs)
    }
}

} // verus!
