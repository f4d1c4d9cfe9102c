//! The scroll view: event ingestion, frame stepping and the position query.

use vstd::prelude::*;
use crate::axis_vector::AxisVector;
use crate::event::Axis;
use crate::event::AxisSample;
use crate::event::Event;
use crate::event_log::EventLog;
use crate::model::lemma_idle_stays_idle;
use crate::model::lemma_interrupt_stops;
use crate::model::lemma_pan_touches_one_axis;
use crate::model::only_axis_touched;
use crate::model::ScrollState;
use crate::model::DEFAULT_TIMESTAMP;
use crate::model::PAN_LOG_CAPACITY;
use crate::scalar::Curved;
use crate::scalar::Scalar;

verus! {

/// Interprets pan, fling and interrupt events into a predicted scroll offset.
///
/// A new scroll view is all zero; it predicts nothing useful until its geometry
/// and frame timing have been set. Its view is the [`ScrollState`] it stands
/// for.
pub struct Scrollview<T: Scalar> {
    content_height: u64,
    content_width: u64,
    viewport_height: u64,
    viewport_width: u64,
    current_velocity: AxisVector<T>,
    current_position: AxisVector<T>,
    frametime: T,
    time_to_pageflip: T,
    current_timestamp: u64,
    pan_log_x: EventLog<AxisSample<T>>,
    pan_log_y: EventLog<AxisSample<T>>,
}

impl<T: Scalar> View for Scrollview<T> {
    type V = ScrollState<T>;

    closed spec fn view(&self) -> ScrollState<T> {
        ScrollState {
            content_height: self.content_height,
            content_width: self.content_width,
            viewport_height: self.viewport_height,
            viewport_width: self.viewport_width,
            velocity: self.current_velocity,
            position: self.current_position,
            frametime: self.frametime,
            time_to_pageflip: self.time_to_pageflip,
            current_timestamp: self.current_timestamp,
            pan_log_x: self.pan_log_x@,
            pan_log_y: self.pan_log_y@,
        }
    }
}

impl<T: Scalar> Scrollview<T> {
    /// The representation invariant: both pan logs are well formed and have
    /// the capacity that the model assumes.
    pub closed spec fn logs_wf(self) -> bool {
        &&& self.pan_log_x.wf()
        &&& self.pan_log_y.wf()
        &&& self.pan_log_x.spec_capacity() == PAN_LOG_CAPACITY
        &&& self.pan_log_y.spec_capacity() == PAN_LOG_CAPACITY
    }

    /// Validity of a scroll view. Every constructor establishes it and every
    /// operation keeps it.
    pub open spec fn wf(self) -> bool {
        &&& self.logs_wf()
        &&& self@.wf()
    }

    /// A scroll view in its initial state.
    pub fn new() -> (r: Scrollview<T>)
        ensures
            r.wf(),
            r@ == ScrollState::<T>::spec_initial(),
    {
        Scrollview {
            content_height: 0,
            content_width: 0,
            viewport_height: 0,
            viewport_width: 0,
            current_velocity: AxisVector::default(),
            current_position: AxisVector::default(),
            frametime: T::zero(),
            time_to_pageflip: T::zero(),
            current_timestamp: 0,
            pan_log_x: EventLog::new(PAN_LOG_CAPACITY),
            pan_log_y: EventLog::new(PAN_LOG_CAPACITY),
        }
    }

    /// Tears a scroll view down. Dropping it does the same; this is for owners
    /// that cannot rely on scope to end its life.
    pub fn del(_scrollview: Scrollview<T>) {
    }

    /// Replaces the geometry. Nothing else changes, whatever is in flight.
    pub fn set_geometry(
        &mut self,
        content_height: u64,
        content_width: u64,
        viewport_height: u64,
        viewport_width: u64,
    )
        requires
            old(self).wf(),
        ensures
            final(self).wf(),
            final(self)@ == old(self)@.with_geometry(
                content_height,
                content_width,
                viewport_height,
                viewport_width,
            ),
    {
        self.content_height = content_height;
        self.content_width = content_width;
        self.viewport_height = viewport_height;
        self.viewport_width = viewport_width;
    }

    /// Whether the scroll view should keep being stepped in the absence of
    /// events, because momentum decay is in progress.
    pub fn animating(&self) -> (r: bool)
        ensures
            r == self@.animating(),
    {
        self.current_velocity.decay_active()
    }

    /// Sets the average frame duration that overshoot prediction assumes.
    pub fn set_avg_frametime(&mut self, milliseconds: T)
        requires
            old(self).wf(),
        ensures
            final(self).wf(),
            final(self)@ == old(self)@.with_frametime(milliseconds),
    {
        self.frametime = milliseconds;
    }

    /// Sets the estimated time that is left until the current frame is
    /// presented.
    pub fn set_next_frame_predict(&mut self, milliseconds: T)
        requires
            old(self).wf(),
        ensures
            final(self).wf(),
            final(self)@ == old(self)@.with_prediction(milliseconds),
    {
        self.time_to_pageflip = milliseconds;
    }

    /// The position of the content relative to the viewport at the time the
    /// current frame reaches the screen: the accumulated position plus the
    /// overshoot. Either magnitude may be negative, which signals overscroll.
    pub fn get_position_absolute(&self) -> (r: AxisVector<T>)
        ensures
            r == self@.position_absolute(),
    {
        self.current_position + self.get_overshoot()
    }

    /// Logs a pan and accumulates it into the position, with the gain that the
    /// caller computed from the velocity on `axis`.
    pub fn pan_with_gain(&mut self, timestamp: u64, axis: Axis, amount: i32, gain: T)
        requires
            old(self).wf(),
        ensures
            final(self).wf(),
            final(self)@ == old(self)@.panned(timestamp, axis, amount, gain),
    {
        self.log_pan(timestamp, axis, amount);
        self.accumulate_pan(axis, amount, gain);
    }

    /// Records the timestamp, or the default one, and advances the velocity by
    /// one frame with decay values that the caller computed. The two values
    /// are ignored unless the scroll view is animating.
    pub fn step_frame_with(&mut self, timestamp: Option<u64>, decayed_x: T, decayed_y: T)
        requires
            old(self).wf(),
        ensures
            final(self).wf(),
            final(self)@ == old(self)@.stepped(timestamp, decayed_x, decayed_y),
    {
        self.current_timestamp = match timestamp {
            Some(t) => t,
            None => DEFAULT_TIMESTAMP,
        };
        self.current_velocity.step_with(decayed_x, decayed_y);
    }

    /// Overwrites both velocity magnitudes; thresholds and decay flag stay.
    pub fn set_velocity(&mut self, x: T, y: T)
        requires
            old(self).wf(),
        ensures
            final(self).wf(),
            final(self)@ == old(self)@.with_velocity(x, y),
    {
        self.current_velocity.x = x;
        self.current_velocity.y = y;
    }

    /// The current velocity reading.
    pub fn velocity(&self) -> (r: AxisVector<T>)
        ensures
            r == self@.velocity,
    {
        self.current_velocity
    }

    /// The accumulated position, without overshoot.
    pub fn position(&self) -> (r: AxisVector<T>)
        ensures
            r == self@.position,
    {
        self.current_position
    }

    /// The timestamp recorded by the latest frame step.
    pub fn current_timestamp(&self) -> (r: u64)
        ensures
            r == self@.current_timestamp,
    {
        self.current_timestamp
    }

    /// Content height and width, then viewport height and width.
    pub fn geometry(&self) -> (r: (u64, u64, u64, u64))
        ensures
            r == (
                self@.content_height,
                self@.content_width,
                self@.viewport_height,
                self@.viewport_width,
            ),
    {
        (self.content_height, self.content_width, self.viewport_height, self.viewport_width)
    }

    /// The pan log of `axis`.
    pub fn pan_log(&self, axis: Axis) -> (r: &EventLog<AxisSample<T>>)
        requires
            self.wf(),
        ensures
            r.wf(),
            r@ == self@.pan_log(axis),
    {
        match axis {
            Axis::Horizontal => &self.pan_log_x,
            Axis::Vertical => &self.pan_log_y,
        }
    }

    /// Logs the sample of a pan on its axis, then re-estimates the velocity.
    fn log_pan(&mut self, timestamp: u64, axis: Axis, amount: i32)
        requires
            old(self).wf(),
        ensures
            final(self).wf(),
            final(self)@ == old(self)@.logged(timestamp, axis, amount),
    {
        let sample = AxisSample { timestamp, magnitude: T::from_i32(amount) };
        match axis {
            Axis::Horizontal => self.pan_log_x.push(sample),
            Axis::Vertical => self.pan_log_y.push(sample),
        }
        self.update_velocity();
    }

    /// Adds `amount * gain` to the position on `axis`.
    fn accumulate_pan(&mut self, axis: Axis, amount: i32, gain: T)
        requires
            old(self).wf(),
        ensures
            final(self).wf(),
            final(self)@ == old(self)@.accumulated(axis, amount, gain),
    {
        self.current_position.append(axis, T::from_i32(amount).times(gain));
    }

    /// Starts momentum decay.
    fn push_fling(&mut self)
        requires
            old(self).wf(),
        ensures
            final(self).wf(),
            final(self)@ == old(self)@.flung(),
    {
        self.current_velocity.decay_start();
    }

    /// Cancels momentum in flight: empties both pan logs and zeroes both
    /// velocity magnitudes, leaving thresholds and decay flag as they are.
    fn push_interrupt(&mut self)
        requires
            old(self).wf(),
        ensures
            final(self).wf(),
            final(self)@ == old(self)@.interrupted(),
    {
        self.pan_log_x.clear();
        self.pan_log_y.clear();
        self.current_velocity = AxisVector { x: T::zero(), y: T::zero(), ..self.current_velocity };
    }

    /// The distance expected to be travelled before the current frame is on
    /// screen.
    fn get_overshoot(&self) -> (r: AxisVector<T>)
        ensures
            r == self@.overshoot(),
    {
        let time_to_target = self.frametime.halved().plus(self.time_to_pageflip);
        AxisVector {
            x: self.current_velocity.x.times(time_to_target),
            y: self.current_velocity.y.times(time_to_target),
            decaying: false,
            ..AxisVector::default()
        }
    }

    /// Re-estimates the velocity from the pan logs. No estimator is in place:
    /// the velocity stays as it is.
    fn update_velocity(&mut self)
        ensures
            *final(self) == *old(self),
    {
    }
}

impl<T: Curved> Scrollview<T> {
    /// Takes in one event.
    ///
    /// A pan is logged on its axis and accumulated into the position on that
    /// axis with the gain that the gain curve gives for the velocity on that
    /// axis; nothing else changes. A fling starts momentum decay. An interrupt
    /// empties both pan logs and zeroes the velocity, which ends any animation.
    /// No event but a fling can start an animation.
    pub fn push_event(&mut self, event: &Event)
        requires
            old(self).wf(),
        ensures
            final(self).wf(),
            match *event {
                Event::Pan { timestamp, axis, amount } => {
                    &&& exists|gain: T|
                        call_ensures(T::accelerate, (old(self)@.velocity.spec_get_at(axis),), gain)
                            && final(self)@ == #[trigger] old(self)@.panned(
                            timestamp,
                            axis,
                            amount,
                            gain,
                        )
                    &&& only_axis_touched(old(self)@, final(self)@, axis)
                },
                Event::Fling { .. } => final(self)@ == old(self)@.flung(),
                Event::Interrupt { .. } => {
                    &&& final(self)@ == old(self)@.interrupted()
                    &&& final(self)@.velocity.x == T::spec_zero()
                    &&& final(self)@.velocity.y == T::spec_zero()
                    &&& final(self)@.pan_log_x.len() == 0
                    &&& final(self)@.pan_log_y.len() == 0
                    &&& !final(self)@.animating()
                },
            },
            !(*event is Fling) && !old(self)@.animating() ==> !final(self)@.animating(),
    {
        match event {
            Event::Pan { timestamp, axis, amount } => self.push_pan(*timestamp, *axis, *amount),
            Event::Fling { .. } => self.push_fling(),
            Event::Interrupt { .. } => self.push_interrupt(),
        }
        proof {
            lemma_interrupt_stops(old(self)@);
            if !old(self)@.animating() {
                lemma_idle_stays_idle(old(self)@);
            }
        }
    }

    /// Records the timestamp, or the default one where none is given, and
    /// advances momentum decay by one frame: while the scroll view is
    /// animating, each velocity magnitude is replaced by what the decay curve
    /// makes of it, and the animation ends once both magnitudes are under
    /// their thresholds. A frame step never starts an animation.
    pub fn step_frame(&mut self, timestamp: Option<u64>)
        requires
            old(self).wf(),
        ensures
            final(self).wf(),
            final(self)@ == old(self)@.stepped(
                timestamp,
                final(self)@.velocity.x,
                final(self)@.velocity.y,
            ),
            old(self)@.animating() ==> call_ensures(
                T::fling_decay,
                (old(self)@.velocity.x,),
                final(self)@.velocity.x,
            ) && call_ensures(T::fling_decay, (old(self)@.velocity.y,), final(self)@.velocity.y),
            !old(self)@.animating() ==> !final(self)@.animating(),
    {
        self.current_timestamp = match timestamp {
            Some(t) => t,
            None => DEFAULT_TIMESTAMP,
        };
        self.current_velocity.step_frame();
        proof {
            if !old(self)@.animating() {
                lemma_idle_stays_idle(old(self)@);
            }
        }
    }

    /// Logs the pan, then accumulates it into the position with the gain that
    /// the gain curve gives for the velocity on its axis.
    fn push_pan(&mut self, timestamp: u64, axis: Axis, amount: i32)
        requires
            old(self).wf(),
        ensures
            final(self).wf(),
            exists|gain: T|
                call_ensures(T::accelerate, (old(self)@.velocity.spec_get_at(axis),), gain)
                    && final(self)@ == #[trigger] old(self)@.panned(timestamp, axis, amount, gain),
            only_axis_touched(old(self)@, final(self)@, axis),
    {
        self.log_pan(timestamp, axis, amount);
        let gain = self.current_velocity.get_at(axis).accelerate();
        self.accumulate_pan(axis, amount, gain);
        proof {
            lemma_pan_touches_one_axis(old(self)@, timestamp, axis, amount, gain);
        }
    }
}

impl<T: Scalar> Default for Scrollview<T> {
    fn default() -> (r: Self)
        ensures
            r.wf(),
            r@ == ScrollState::<T>::spec_initial(),
    {
        Scrollview::new()
    }
}

} // verus!
