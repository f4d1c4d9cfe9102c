//! The mathematical model of a scroll view: its state, the transition that each
//! operation makes, and what holds of them.

use vstd::prelude::*;
use crate::axis_vector::AxisVector;
use crate::event::Axis;
use crate::event::AxisSample;
use crate::event_log::pushed;
use crate::scalar::ExactScalar;
use crate::scalar::Scalar;

verus! {

/// The number of samples that each pan log of a scroll view keeps.
pub const PAN_LOG_CAPACITY: usize = 10;

/// The timestamp recorded by a frame step that is given none.
pub const DEFAULT_TIMESTAMP: u64 = 1;

/// Everything a scroll view knows, with each pan log as the sequence of its
/// samples, oldest first.
pub ghost struct ScrollState<T: Scalar> {
    pub content_height: u64,
    pub content_width: u64,
    pub viewport_height: u64,
    pub viewport_width: u64,
    pub velocity: AxisVector<T>,
    pub position: AxisVector<T>,
    pub frametime: T,
    pub time_to_pageflip: T,
    pub current_timestamp: u64,
    pub pan_log_x: Seq<AxisSample<T>>,
    pub pan_log_y: Seq<AxisSample<T>>,
}

/// What a frame step or an event did, together with the values that the curves
/// produced for it.
pub ghost enum Transition<T: Scalar> {
    Pan { timestamp: u64, axis: Axis, amount: i32, gain: T },
    Fling,
    Interrupt,
    Frame { stamp: Option<u64>, decayed_x: T, decayed_y: T },
}

impl<T: Scalar> ScrollState<T> {
    /// The state of a freshly made scroll view: everything zero, nothing
    /// logged, not decaying.
    pub open spec fn spec_initial() -> Self {
        ScrollState {
            content_height: 0,
            content_width: 0,
            viewport_height: 0,
            viewport_width: 0,
            velocity: AxisVector::spec_default(),
            position: AxisVector::spec_default(),
            frametime: T::spec_zero(),
            time_to_pageflip: T::spec_zero(),
            current_timestamp: 0,
            pan_log_x: Seq::empty(),
            pan_log_y: Seq::empty(),
        }
    }

    /// What every reachable state satisfies: all thresholds are zero, the
    /// position is never marked as decaying, and neither pan log exceeds its
    /// capacity.
    pub open spec fn wf(self) -> bool {
        &&& self.velocity.x_threshold == T::spec_zero()
        &&& self.velocity.y_threshold == T::spec_zero()
        &&& self.position.x_threshold == T::spec_zero()
        &&& self.position.y_threshold == T::spec_zero()
        &&& !self.position.decaying
        &&& self.pan_log_x.len() <= PAN_LOG_CAPACITY
        &&& self.pan_log_y.len() <= PAN_LOG_CAPACITY
    }

    /// The pan log of `axis`.
    pub open spec fn pan_log(self, axis: Axis) -> Seq<AxisSample<T>> {
        match axis {
            Axis::Horizontal => self.pan_log_x,
            Axis::Vertical => self.pan_log_y,
        }
    }

    /// Whether momentum decay is in progress.
    pub open spec fn animating(self) -> bool {
        self.velocity.spec_decay_active()
    }

    /// The time from now until the current frame is on screen: half a frame
    /// plus the predicted time to the next page flip.
    pub open spec fn time_to_target(self) -> T {
        self.frametime.spec_halved().spec_plus(self.time_to_pageflip)
    }

    /// The distance expected to be travelled before the current frame is on
    /// screen: what the velocity covers in the time to target.
    pub open spec fn overshoot(self) -> AxisVector<T> {
        overshoot_for(self.velocity, self.time_to_target())
    }

    /// The accumulated position plus the overshoot.
    pub open spec fn position_absolute(self) -> AxisVector<T> {
        self.position.spec_sum(self.overshoot())
    }

    /// The state with the average frame duration replaced.
    pub open spec fn with_frametime(self, milliseconds: T) -> Self {
        ScrollState { frametime: milliseconds, ..self }
    }

    /// The state with the predicted time to the page flip replaced.
    pub open spec fn with_prediction(self, milliseconds: T) -> Self {
        ScrollState { time_to_pageflip: milliseconds, ..self }
    }

    /// The state with both velocity magnitudes replaced; the thresholds and the
    /// decay flag stay.
    pub open spec fn with_velocity(self, x: T, y: T) -> Self {
        ScrollState { velocity: AxisVector { x, y, ..self.velocity }, ..self }
    }

    /// The state with its geometry replaced.
    pub open spec fn with_geometry(
        self,
        content_height: u64,
        content_width: u64,
        viewport_height: u64,
        viewport_width: u64,
    ) -> Self {
        ScrollState { content_height, content_width, viewport_height, viewport_width, ..self }
    }

    /// The state after the sample of a pan of `amount` on `axis` is logged on
    /// that axis.
    pub open spec fn logged(self, timestamp: u64, axis: Axis, amount: i32) -> Self {
        let sample = AxisSample { timestamp, magnitude: T::spec_from_i32(amount) };
        match axis {
            Axis::Horizontal => ScrollState {
                pan_log_x: pushed(self.pan_log_x, PAN_LOG_CAPACITY as nat, sample),
                ..self
            },
            Axis::Vertical => ScrollState {
                pan_log_y: pushed(self.pan_log_y, PAN_LOG_CAPACITY as nat, sample),
                ..self
            },
        }
    }

    /// The state after `amount * gain` is added to the position on `axis`.
    pub open spec fn accumulated(self, axis: Axis, amount: i32, gain: T) -> Self {
        ScrollState {
            position: self.position.spec_append(axis, T::spec_from_i32(amount).spec_times(gain)),
            ..self
        }
    }

    /// The state after a pan of `amount` on `axis`, where `gain` is what the
    /// gain curve made of the velocity on that axis: the sample is logged on
    /// that axis, and `amount * gain` is added to the position on that axis.
    pub open spec fn panned(self, timestamp: u64, axis: Axis, amount: i32, gain: T) -> Self {
        self.logged(timestamp, axis, amount).accumulated(axis, amount, gain)
    }

    /// The state after a fling: the velocity is marked as decaying.
    pub open spec fn flung(self) -> Self {
        ScrollState { velocity: self.velocity.spec_decay_start(), ..self }
    }

    /// The state after an interrupt: both pan logs are empty and both velocity
    /// magnitudes are zero; the thresholds and the decay flag stay.
    pub open spec fn interrupted(self) -> Self {
        ScrollState {
            pan_log_x: Seq::empty(),
            pan_log_y: Seq::empty(),
            velocity: AxisVector { x: T::spec_zero(), y: T::spec_zero(), ..self.velocity },
            ..self
        }
    }

    /// The state after a frame step, where `decayed_x` and `decayed_y` are what
    /// the decay curve made of the two velocity magnitudes: the timestamp, or
    /// the default one, is recorded and the velocity advances by one frame.
    pub open spec fn stepped(self, timestamp: Option<u64>, decayed_x: T, decayed_y: T) -> Self {
        ScrollState {
            current_timestamp: match timestamp {
                Some(t) => t,
                None => DEFAULT_TIMESTAMP,
            },
            velocity: self.velocity.spec_step(decayed_x, decayed_y),
            ..self
        }
    }

    /// The state after one transition.
    pub open spec fn after(self, transition: Transition<T>) -> Self {
        match transition {
            Transition::Pan { timestamp, axis, amount, gain } => self.panned(
                timestamp,
                axis,
                amount,
                gain,
            ),
            Transition::Fling => self.flung(),
            Transition::Interrupt => self.interrupted(),
            Transition::Frame { stamp, decayed_x, decayed_y } => self.stepped(
                stamp,
                decayed_x,
                decayed_y,
            ),
        }
    }

    /// The state after a sequence of transitions, first to last.
    pub open spec fn after_all(self, transitions: Seq<Transition<T>>) -> Self
        decreases transitions.len(),
    {
        if transitions.len() == 0 {
            self
        } else {
            self.after_all(transitions.drop_last()).after(transitions.last())
        }
    }
}

/// What `velocity` covers in `time`: each magnitude times `time`, with zero
/// thresholds and not decaying.
pub open spec fn overshoot_for<T: Scalar>(velocity: AxisVector<T>, time: T) -> AxisVector<T> {
    AxisVector {
        x: velocity.x.spec_times(time),
        y: velocity.y.spec_times(time),
        x_threshold: T::spec_zero(),
        y_threshold: T::spec_zero(),
        decaying: false,
    }
}

/// Between `before` and `after`, nothing changed but the pan log and the
/// position magnitude of `axis`.
pub open spec fn only_axis_touched<T: Scalar>(
    before: ScrollState<T>,
    after: ScrollState<T>,
    axis: Axis,
) -> bool {
    &&& after.pan_log(axis.spec_other()) == before.pan_log(axis.spec_other())
    &&& after.position.spec_get_at(axis.spec_other()) == before.position.spec_get_at(
        axis.spec_other(),
    )
    &&& after.position.x_threshold == before.position.x_threshold
    &&& after.position.y_threshold == before.position.y_threshold
    &&& after.position.decaying == before.position.decaying
    &&& after.velocity == before.velocity
    &&& after.frametime == before.frametime
    &&& after.time_to_pageflip == before.time_to_pageflip
    &&& after.current_timestamp == before.current_timestamp
    &&& after.content_height == before.content_height
    &&& after.content_width == before.content_width
    &&& after.viewport_height == before.viewport_height
    &&& after.viewport_width == before.viewport_width
}

/// Whether a transition is a fling.
pub open spec fn is_fling<T: Scalar>(transition: Transition<T>) -> bool {
    transition is Fling
}

/// Every transition keeps a valid state valid.
pub proof fn lemma_after_keeps_wf<T: Scalar>(s: ScrollState<T>, transition: Transition<T>)
    requires
        s.wf(),
    ensures
        s.after(transition).wf(),
{
}

/// Every run of transitions keeps a valid state valid.
pub proof fn lemma_after_all_keeps_wf<T: Scalar>(s: ScrollState<T>, transitions: Seq<Transition<T>>)
    requires
        s.wf(),
    ensures
        s.after_all(transitions).wf(),
    decreases transitions.len(),
{
    if transitions.len() > 0 {
        lemma_after_all_keeps_wf(s, transitions.drop_last());
        lemma_after_keeps_wf(s.after_all(transitions.drop_last()), transitions.last());
    }
}

/// With zero velocity the overshoot is zero on both axes, and the absolute
/// position is the accumulated position, whatever the geometry and the frame
/// timing are.
pub proof fn lemma_zero_velocity_no_overshoot<T: ExactScalar>(s: ScrollState<T>)
    requires
        s.velocity.x == T::spec_zero(),
        s.velocity.y == T::spec_zero(),
    ensures
        s.overshoot() == AxisVector::<T>::spec_default(),
        s.position_absolute() == s.position,
{
    T::lemma_zero_times(s.time_to_target());
    T::lemma_plus_zero(s.position.x);
    T::lemma_plus_zero(s.position.y);
}

/// With zero frame timing the overshoot is zero on both axes, and the absolute
/// position is the accumulated position, whatever the velocity is.
pub proof fn lemma_zero_timing_no_overshoot<T: ExactScalar>(s: ScrollState<T>)
    requires
        s.frametime == T::spec_zero(),
        s.time_to_pageflip == T::spec_zero(),
    ensures
        s.overshoot() == AxisVector::<T>::spec_default(),
        s.position_absolute() == s.position,
{
    T::lemma_halved_zero();
    T::lemma_plus_zero(T::spec_zero());
    T::lemma_times_zero(s.velocity.x);
    T::lemma_times_zero(s.velocity.y);
    T::lemma_plus_zero(s.position.x);
    T::lemma_plus_zero(s.position.y);
}

/// A pan on one axis changes the pan log and the position magnitude of that
/// axis and nothing else: the other axis, the velocity, the timing and the
/// geometry stay as they were.
pub proof fn lemma_pan_touches_one_axis<T: Scalar>(
    s: ScrollState<T>,
    timestamp: u64,
    axis: Axis,
    amount: i32,
    gain: T,
)
    ensures
        only_axis_touched(s, s.panned(timestamp, axis, amount, gain), axis),
        s.panned(timestamp, axis, amount, gain).pan_log(axis) == pushed(
            s.pan_log(axis),
            PAN_LOG_CAPACITY as nat,
            AxisSample { timestamp, magnitude: T::spec_from_i32(amount) },
        ),
        s.panned(timestamp, axis, amount, gain).position.spec_get_at(axis) == T::spec_from_i32(
            amount,
        ).spec_times(gain).spec_plus(s.position.spec_get_at(axis)),
{
}

/// An interrupt zeroes both velocity magnitudes and empties both pan logs,
/// whether or not the velocity was decaying, and the view is not animating
/// afterwards.
pub proof fn lemma_interrupt_stops<T: Scalar>(s: ScrollState<T>)
    requires
        s.wf(),
    ensures
        s.interrupted().velocity.x == T::spec_zero(),
        s.interrupted().velocity.y == T::spec_zero(),
        s.interrupted().pan_log_x.len() == 0,
        s.interrupted().pan_log_y.len() == 0,
        !s.interrupted().animating(),
{
    T::lemma_below_irreflexive(T::spec_zero());
}

/// A fling makes the view animate exactly when both velocity magnitudes are
/// above their thresholds.
pub proof fn lemma_fling_starts<T: Scalar>(s: ScrollState<T>)
    ensures
        s.flung().animating() == (s.velocity.x_threshold.spec_below(s.velocity.x)
            && s.velocity.y_threshold.spec_below(s.velocity.y)),
{
}

/// The frame step at which both decayed magnitudes are under their thresholds
/// ends the animation and clears the decay flag.
pub proof fn lemma_settling_step_stops<T: Scalar>(
    s: ScrollState<T>,
    timestamp: Option<u64>,
    decayed_x: T,
    decayed_y: T,
)
    requires
        s.animating(),
        decayed_x.spec_below(s.velocity.x_threshold),
        decayed_y.spec_below(s.velocity.y_threshold),
    ensures
        !s.stepped(timestamp, decayed_x, decayed_y).velocity.decaying,
        !s.stepped(timestamp, decayed_x, decayed_y).animating(),
{
}

/// After a frame step the decay flag is set only if it was set before and the
/// magnitudes are not both under their thresholds.
pub proof fn lemma_step_clears_settled_flag<T: Scalar>(
    s: ScrollState<T>,
    timestamp: Option<u64>,
    decayed_x: T,
    decayed_y: T,
)
    ensures
        s.stepped(timestamp, decayed_x, decayed_y).velocity.decaying == (s.velocity.decaying
            && !s.stepped(timestamp, decayed_x, decayed_y).velocity.spec_settled()),
{
}

/// The decay flag is raised by a fling and by nothing else: a run without a
/// fling that starts with the flag down ends with the flag down.
pub proof fn lemma_decaying_needs_fling<T: Scalar>(
    s: ScrollState<T>,
    transitions: Seq<Transition<T>>,
)
    requires
        !s.velocity.decaying,
        forall|i: int| 0 <= i < transitions.len() ==> !is_fling(#[trigger] transitions[i]),
    ensures
        !s.after_all(transitions).velocity.decaying,
    decreases transitions.len(),
{
    if transitions.len() > 0 {
        lemma_decaying_needs_fling(s, transitions.drop_last());
    }
}

/// A view that is not animating stays so under every transition but a fling.
pub proof fn lemma_idle_stays_idle<T: Scalar>(s: ScrollState<T>)
    requires
        s.wf(),
        !s.animating(),
    ensures
        forall|transition: Transition<T>|
            !is_fling(transition) ==> !(#[trigger] s.after(transition)).animating(),
{
    T::lemma_below_irreflexive(T::spec_zero());
}

/// Once a view is not animating, no sequence of pans, interrupts and frame
/// steps makes it animate again: only a new fling can.
pub proof fn lemma_no_animation_without_fling<T: Scalar>(
    s: ScrollState<T>,
    transitions: Seq<Transition<T>>,
)
    requires
        s.wf(),
        !s.animating(),
        forall|i: int| 0 <= i < transitions.len() ==> !is_fling(#[trigger] transitions[i]),
    ensures
        s.after_all(transitions).wf(),
        !s.after_all(transitions).animating(),
    decreases transitions.len(),
{
    if transitions.len() > 0 {
        let earlier = transitions.drop_last();
        lemma_no_animation_without_fling(s, earlier);
        lemma_after_keeps_wf(s.after_all(earlier), transitions.last());
        lemma_idle_stays_idle(s.after_all(earlier));
    }
}

/// Running two sequences of transitions one after the other is running their
/// concatenation.
pub proof fn lemma_after_all_concat<T: Scalar>(
    s: ScrollState<T>,
    first: Seq<Transition<T>>,
    second: Seq<Transition<T>>,
)
    ensures
        s.after_all(first + second) == s.after_all(first).after_all(second),
    decreases second.len(),
{
    if second.len() > 0 {
        lemma_after_all_concat(s, first, second.drop_last());
        assert((first + second).drop_last() =~= first + second.drop_last());
    }
}

/// In a run without a fling, the frame step at which both decayed magnitudes
/// are under their thresholds ends the animation for the rest of the run.
pub proof fn lemma_settled_animation_stays_ended<T: Scalar>(
    s: ScrollState<T>,
    transitions: Seq<Transition<T>>,
    at: int,
)
    requires
        s.wf(),
        forall|i: int| 0 <= i < transitions.len() ==> !is_fling(#[trigger] transitions[i]),
        0 <= at < transitions.len(),
        transitions[at] matches Transition::Frame { decayed_x, decayed_y, .. }
            && decayed_x.spec_below(T::spec_zero()) && decayed_y.spec_below(T::spec_zero()),
    ensures
        !s.after_all(transitions).animating(),
{
    let before = transitions.subrange(0, at);
    let upto = transitions.subrange(0, at + 1);
    let rest = transitions.subrange(at + 1, transitions.len() as int);
    assert(upto.drop_last() =~= before);
    assert(upto + rest =~= transitions);
    lemma_after_all_concat(s, upto, rest);
    lemma_after_all_keeps_wf(s, before);
    let reached = s.after_all(before);
    if reached.animating() {
        match transitions[at] {
            Transition::Frame { stamp, decayed_x, decayed_y } => {
                lemma_settling_step_stops(reached, stamp, decayed_x, decayed_y);
            },
            _ => {},
        }
    } else {
        lemma_idle_stays_idle(reached);
    }
    lemma_no_animation_without_fling(s.after_all(upto), rest);
}

/// Overshoot is additive in time: what a velocity covers in `a + b` is what it
/// covers in `a` plus what it covers in `b`.
pub proof fn lemma_overshoot_additive<T: ExactScalar>(velocity: AxisVector<T>, a: T, b: T)
    ensures
        overshoot_for(velocity, a.spec_plus(b)) == overshoot_for(velocity, a).spec_sum(
            overshoot_for(velocity, b),
        ),
{
    T::lemma_times_distributes(velocity.x, a, b);
    T::lemma_times_distributes(velocity.y, a, b);
}

/// At a fixed velocity, doubling the time to target doubles the overshoot.
pub proof fn lemma_overshoot_doubles_with_time<T: ExactScalar>(s: ScrollState<T>, t: ScrollState<T>)
    requires
        t.velocity == s.velocity,
        t.time_to_target() == s.time_to_target().spec_plus(s.time_to_target()),
    ensures
        t.overshoot() == s.overshoot().spec_sum(s.overshoot()),
{
    lemma_overshoot_additive(s.velocity, s.time_to_target(), s.time_to_target());
}

/// The overshoot is a share for half a frame plus a share for the predicted
/// time to the page flip. Predicting twice as far ahead doubles the second
/// share and leaves the first as it is.
pub proof fn lemma_doubled_prediction_doubles_its_share<T: ExactScalar>(s: ScrollState<T>)
    ensures
        ({
            let frame_share = overshoot_for(s.velocity, s.frametime.spec_halved());
            let prediction_share = overshoot_for(s.velocity, s.time_to_pageflip);
            let doubled = s.with_prediction(s.time_to_pageflip.spec_plus(s.time_to_pageflip));
            &&& s.overshoot() == frame_share.spec_sum(prediction_share)
            &&& doubled.overshoot() == frame_share.spec_sum(
                prediction_share.spec_sum(prediction_share),
            )
        }),
{
    let half = s.frametime.spec_halved();
    let ahead = s.time_to_pageflip;
    lemma_overshoot_additive(s.velocity, half, ahead);
    lemma_overshoot_additive(s.velocity, half, ahead.spec_plus(ahead));
    lemma_overshoot_additive(s.velocity, ahead, ahead);
}

} // verus!
