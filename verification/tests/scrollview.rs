use scrollview::Axis;
use scrollview::AxisSample;
use scrollview::AxisVector;
use scrollview::Curved;
use scrollview::Event;
use scrollview::Scalar;
use scrollview::Scrollview;

/// Double-precision scalar with the power curves of the scroll model.
#[derive(Clone, Copy, Debug, PartialEq, PartialOrd)]
struct Real(f64);

impl Scalar for Real {
    fn spec_zero() -> Real {
        Real(0.0)
    }

    fn spec_from_i32(n: i32) -> Real {
        Real(f64::from(n))
    }

    fn spec_plus(self, rhs: Real) -> Real {
        Real(self.0 + rhs.0)
    }

    fn spec_minus(self, rhs: Real) -> Real {
        Real(self.0 - rhs.0)
    }

    fn spec_times(self, rhs: Real) -> Real {
        Real(self.0 * rhs.0)
    }

    fn spec_halved(self) -> Real {
        Real(self.0 / 2.0)
    }

    fn spec_below(self, rhs: Real) -> bool {
        self.0 < rhs.0
    }

    fn zero() -> Real {
        Real(0.0)
    }

    fn from_i32(n: i32) -> Real {
        Real(f64::from(n))
    }

    fn plus(self, rhs: Real) -> Real {
        Real(self.0 + rhs.0)
    }

    fn minus(self, rhs: Real) -> Real {
        Real(self.0 - rhs.0)
    }

    fn times(self, rhs: Real) -> Real {
        Real(self.0 * rhs.0)
    }

    fn halved(self) -> Real {
        Real(self.0 / 2.0)
    }

    fn below(self, rhs: Real) -> bool {
        self.0 < rhs.0
    }

    fn lemma_below_irreflexive(_a: Real) {}
}

impl Curved for Real {
    fn accelerate(self) -> Real {
        Real(self.0.powf(1.34))
    }

    fn fling_decay(self) -> Real {
        Real(self.0.powf(0.998))
    }
}

fn fields<T: Scalar>(v: AxisVector<T>) -> (T, T, T, T, bool) {
    (v.x, v.y, v.x_threshold, v.y_threshold, v.decaying)
}

fn samples(view: &Scrollview<Real>, axis: Axis) -> Vec<(u64, f64)> {
    view.pan_log(axis).to_vec().iter().map(|s: &AxisSample<Real>| (s.timestamp, s.magnitude.0)).collect()
}

fn configured() -> Scrollview<Real> {
    let mut view: Scrollview<Real> = Scrollview::new();
    view.set_geometry(1000, 1000, 500, 500);
    view.set_avg_frametime(Real(16.0));
    view.set_next_frame_predict(Real(4.0));
    view
}

#[test]
fn new_view_is_all_zero() {
    let view: Scrollview<Real> = Scrollview::new();
    assert_eq!(view.geometry(), (0, 0, 0, 0));
    assert_eq!(fields(view.velocity()), (Real(0.0), Real(0.0), Real(0.0), Real(0.0), false));
    assert_eq!(fields(view.position()), (Real(0.0), Real(0.0), Real(0.0), Real(0.0), false));
    assert_eq!(view.current_timestamp(), 0);
    assert!(view.pan_log(Axis::Horizontal).is_empty());
    assert!(view.pan_log(Axis::Vertical).is_empty());
    assert_eq!(view.pan_log(Axis::Horizontal).capacity(), 10);
    assert_eq!(view.pan_log(Axis::Vertical).capacity(), 10);
    assert!(!view.animating());
    assert_eq!(fields(view.get_position_absolute()), (Real(0.0), Real(0.0), Real(0.0), Real(0.0), false));
}

#[test]
fn default_view_equals_new_view() {
    let view: Scrollview<Real> = Scrollview::default();
    assert_eq!(view.geometry(), (0, 0, 0, 0));
    assert_eq!(fields(view.velocity()), (Real(0.0), Real(0.0), Real(0.0), Real(0.0), false));
    assert_eq!(fields(view.position()), (Real(0.0), Real(0.0), Real(0.0), Real(0.0), false));
    assert_eq!(view.current_timestamp(), 0);
    assert!(view.pan_log(Axis::Horizontal).is_empty());
    assert!(view.pan_log(Axis::Vertical).is_empty());
}

#[test]
fn del_consumes_the_view() {
    let view: Scrollview<Real> = Scrollview::new();
    Scrollview::del(view);
}

#[test]
fn set_geometry_replaces_geometry_only() {
    let mut view = configured();
    view.set_velocity(Real(3.0), Real(4.0));
    view.push_event(&Event::Fling { timestamp: 1 });
    let velocity = view.velocity();
    view.set_geometry(1, 2, 3, 4);
    assert_eq!(view.geometry(), (1, 2, 3, 4));
    assert_eq!(fields(view.velocity()), fields(velocity));
    assert!(view.animating());
    view.set_geometry(0, 0, 0, 0);
    assert_eq!(view.geometry(), (0, 0, 0, 0));
}

#[test]
fn zero_velocity_gives_the_accumulated_position() {
    let mut view = configured();
    view.set_velocity(Real(2.0), Real(3.0));
    view.push_event(&Event::Pan { timestamp: 0, axis: Axis::Horizontal, amount: 10 });
    view.push_event(&Event::Pan { timestamp: 1, axis: Axis::Vertical, amount: -4 });
    view.set_velocity(Real(0.0), Real(0.0));
    let position = view.position();
    assert!(position.x.0 > 0.0);
    assert!(position.y.0 < 0.0);
    assert_eq!(fields(view.get_position_absolute()), fields(position));
    view.set_geometry(0, 0, 0, 0);
    assert_eq!(fields(view.get_position_absolute()), fields(position));
    view.set_geometry(7, 9, 70, 90);
    view.set_avg_frametime(Real(33.0));
    view.set_next_frame_predict(Real(1000.0));
    assert_eq!(fields(view.get_position_absolute()), fields(position));
}

#[test]
fn zero_timing_gives_zero_overshoot() {
    let mut view: Scrollview<Real> = Scrollview::new();
    view.set_velocity(Real(5.0), Real(-7.0));
    let absolute = view.get_position_absolute();
    assert_eq!(absolute.x, Real(0.0));
    assert_eq!(absolute.y, Real(0.0));
    assert!(absolute.x.0.is_finite() && absolute.y.0.is_finite());
}

#[test]
fn overshoot_is_velocity_times_half_a_frame_plus_prediction() {
    let mut view = configured();
    view.set_velocity(Real(2.0), Real(-3.0));
    let absolute = view.get_position_absolute();
    assert_eq!(absolute.x, Real(24.0));
    assert_eq!(absolute.y, Real(-36.0));
    assert_eq!(absolute.x_threshold, Real(0.0));
    assert_eq!(absolute.y_threshold, Real(0.0));
    assert!(!absolute.decaying);
}

#[test]
fn position_may_be_negative() {
    let mut view = configured();
    view.set_velocity(Real(-1.0), Real(-0.5));
    let absolute = view.get_position_absolute();
    assert_eq!(absolute.x, Real(-12.0));
    assert_eq!(absolute.y, Real(-6.0));
}

#[test]
fn doubling_the_prediction_doubles_its_share_of_the_overshoot() {
    let mut view: Scrollview<Real> = Scrollview::new();
    view.set_velocity(Real(2.0), Real(3.0));
    view.set_next_frame_predict(Real(4.0));
    let once = view.get_position_absolute();
    assert_eq!((once.x, once.y), (Real(8.0), Real(12.0)));
    view.set_next_frame_predict(Real(8.0));
    let twice = view.get_position_absolute();
    assert_eq!((twice.x, twice.y), (Real(16.0), Real(24.0)));

    view.set_avg_frametime(Real(16.0));
    view.set_next_frame_predict(Real(4.0));
    let once = view.get_position_absolute();
    assert_eq!((once.x, once.y), (Real(16.0 + 8.0), Real(24.0 + 12.0)));
    view.set_next_frame_predict(Real(8.0));
    let twice = view.get_position_absolute();
    assert_eq!((twice.x, twice.y), (Real(16.0 + 16.0), Real(24.0 + 24.0)));
}

#[test]
fn overshoot_is_linear_over_integers() {
    let mut view: Scrollview<i64> = Scrollview::new();
    view.set_velocity(7, -3);
    view.set_avg_frametime(17);
    view.set_next_frame_predict(5);
    let once = view.get_position_absolute();
    assert_eq!((once.x, once.y), (7 * 13, -3 * 13));
    view.set_next_frame_predict(10);
    let twice = view.get_position_absolute();
    assert_eq!((twice.x, twice.y), (7 * 8 + 2 * 7 * 5, -3 * 8 + 2 * -3 * 5));
}

#[test]
fn pan_touches_only_its_axis() {
    let mut view = configured();
    view.set_velocity(Real(2.0), Real(3.0));
    view.push_event(&Event::Pan { timestamp: 3, axis: Axis::Vertical, amount: 6 });
    assert_eq!(samples(&view, Axis::Vertical), vec![(3, 6.0)]);
    assert_eq!(samples(&view, Axis::Horizontal), vec![]);
    let position = view.position();
    assert_eq!(position.x, Real(0.0));
    assert_eq!(position.y, Real(6.0 * 3f64.powf(1.34)));

    let velocity = view.velocity();
    view.push_event(&Event::Pan { timestamp: 4, axis: Axis::Horizontal, amount: -5 });
    assert_eq!(samples(&view, Axis::Vertical), vec![(3, 6.0)]);
    assert_eq!(samples(&view, Axis::Horizontal), vec![(4, -5.0)]);
    assert_eq!(view.position().y, position.y);
    assert_eq!(view.position().x, Real(-5.0 * 2f64.powf(1.34)));
    assert_eq!(fields(view.velocity()), fields(velocity));
    assert_eq!(view.geometry(), (1000, 1000, 500, 500));
    assert_eq!(view.current_timestamp(), 0);
}

#[test]
fn pan_with_zero_velocity_leaves_position_then_gains_with_velocity() {
    let mut view = configured();
    view.push_event(&Event::Pan { timestamp: 0, axis: Axis::Horizontal, amount: 10 });
    assert_eq!(view.position().x, Real(0.0));
    assert_eq!(view.position().y, Real(0.0));
    assert_eq!(samples(&view, Axis::Horizontal), vec![(0, 10.0)]);

    view.set_velocity(Real(2.5), Real(0.0));
    let before = view.position().x.0;
    view.push_event(&Event::Pan { timestamp: 1, axis: Axis::Horizontal, amount: 10 });
    assert_eq!(view.position().x, Real(10.0 * 2.5f64.powf(1.34) + before));
    assert!(view.position().x.0 > before);
    assert_eq!(view.position().y, Real(0.0));
    assert_eq!(samples(&view, Axis::Horizontal), vec![(0, 10.0), (1, 10.0)]);
}

#[test]
fn pan_accumulates_over_events() {
    let mut view = configured();
    view.set_velocity(Real(4.0), Real(0.0));
    let gain = 4f64.powf(1.34);
    view.push_event(&Event::Pan { timestamp: 0, axis: Axis::Horizontal, amount: 3 });
    view.push_event(&Event::Pan { timestamp: 1, axis: Axis::Horizontal, amount: 2 });
    assert_eq!(view.position().x, Real(2.0 * gain + (3.0 * gain + 0.0)));
}

#[test]
fn pan_log_forgets_the_oldest_beyond_ten() {
    let mut view = configured();
    for t in 0..12u64 {
        view.push_event(&Event::Pan { timestamp: t, axis: Axis::Horizontal, amount: t as i32 });
    }
    let expected: Vec<(u64, f64)> = (2..12u64).map(|t| (t, t as f64)).collect();
    assert_eq!(samples(&view, Axis::Horizontal), expected);
    assert_eq!(view.pan_log(Axis::Horizontal).len(), 10);
    assert!(view.pan_log(Axis::Vertical).is_empty());
}

#[test]
fn pan_accepts_timestamps_out_of_order() {
    let mut view = configured();
    view.push_event(&Event::Pan { timestamp: 9, axis: Axis::Vertical, amount: 1 });
    view.push_event(&Event::Pan { timestamp: 2, axis: Axis::Vertical, amount: 2 });
    assert_eq!(samples(&view, Axis::Vertical), vec![(9, 1.0), (2, 2.0)]);
}

#[test]
fn pan_with_gain_uses_the_given_gain() {
    let mut view = configured();
    view.set_velocity(Real(100.0), Real(100.0));
    view.pan_with_gain(5, Axis::Vertical, 4, Real(0.5));
    assert_eq!(view.position().y, Real(2.0));
    assert_eq!(view.position().x, Real(0.0));
    assert_eq!(samples(&view, Axis::Vertical), vec![(5, 4.0)]);
}

#[test]
fn fling_starts_animation_when_velocity_is_above_thresholds() {
    let mut view = configured();
    view.set_velocity(Real(100.0), Real(50.0));
    assert!(!view.animating());
    view.push_event(&Event::Fling { timestamp: 5 });
    assert!(view.animating());
    assert!(view.velocity().decaying);
    assert_eq!(view.velocity().x, Real(100.0));
    assert_eq!(view.velocity().y, Real(50.0));
}

#[test]
fn fling_at_rest_does_not_animate() {
    let mut view = configured();
    view.push_event(&Event::Fling { timestamp: 5 });
    assert!(view.velocity().decaying);
    assert!(!view.animating());
}

#[test]
fn fling_with_one_axis_at_rest_does_not_animate() {
    let mut view = configured();
    view.set_velocity(Real(100.0), Real(0.0));
    view.push_event(&Event::Fling { timestamp: 5 });
    assert!(!view.animating());
    view.step_frame(Some(6));
    assert_eq!(view.velocity().x, Real(100.0));
}

#[test]
fn fling_then_frames_decay_monotonically() {
    let mut view = configured();
    view.set_velocity(Real(100.0), Real(50.0));
    view.push_event(&Event::Fling { timestamp: 5 });
    let mut previous = view.velocity();
    for frame in 0..500u64 {
        assert!(view.animating());
        view.step_frame(Some(6 + frame));
        let current = view.velocity();
        assert!(current.x.0 <= previous.x.0);
        assert!(current.y.0 <= previous.y.0);
        assert!(current.x.0 > 0.0 && current.y.0 > 0.0);
        previous = current;
    }
    assert!(previous.x.0 < 100.0);
    assert!(previous.y.0 < 50.0);
}

#[test]
fn first_decay_frame_is_the_power_curve() {
    let mut view = configured();
    view.set_velocity(Real(100.0), Real(50.0));
    view.push_event(&Event::Fling { timestamp: 5 });
    view.step_frame(Some(6));
    assert_eq!(view.velocity().x, Real(100f64.powf(0.998)));
    assert_eq!(view.velocity().y, Real(50f64.powf(0.998)));
}

#[test]
fn step_frame_without_fling_changes_no_velocity() {
    let mut view = configured();
    view.set_velocity(Real(100.0), Real(50.0));
    view.step_frame(Some(1));
    assert_eq!(fields(view.velocity()), (Real(100.0), Real(50.0), Real(0.0), Real(0.0), false));
    assert!(!view.animating());
}

#[test]
fn step_frame_records_the_timestamp() {
    let mut view = configured();
    view.step_frame(Some(77));
    assert_eq!(view.current_timestamp(), 77);
    view.step_frame(None);
    assert_eq!(view.current_timestamp(), 1);
    view.step_frame(Some(0));
    assert_eq!(view.current_timestamp(), 0);
    view.step_frame(Some(u64::MAX));
    assert_eq!(view.current_timestamp(), u64::MAX);
}

#[test]
fn events_do_not_touch_the_recorded_timestamp() {
    let mut view = configured();
    view.step_frame(Some(3));
    view.push_event(&Event::Pan { timestamp: 10, axis: Axis::Horizontal, amount: 1 });
    view.push_event(&Event::Fling { timestamp: 11 });
    view.push_event(&Event::Interrupt { timestamp: 12 });
    assert_eq!(view.current_timestamp(), 3);
}

#[test]
fn step_frame_with_uses_the_given_values() {
    let mut view = configured();
    view.set_velocity(Real(100.0), Real(50.0));
    view.push_event(&Event::Fling { timestamp: 5 });
    view.step_frame_with(Some(6), Real(90.0), Real(45.0));
    assert_eq!(fields(view.velocity()), (Real(90.0), Real(45.0), Real(0.0), Real(0.0), true));
    assert_eq!(view.current_timestamp(), 6);
    view.step_frame_with(None, Real(-1.0), Real(-1.0));
    assert_eq!(fields(view.velocity()), (Real(-1.0), Real(-1.0), Real(0.0), Real(0.0), false));
    assert!(!view.animating());
    view.step_frame_with(None, Real(9.0), Real(9.0));
    assert_eq!(fields(view.velocity()), (Real(-1.0), Real(-1.0), Real(0.0), Real(0.0), false));
}

#[test]
fn interrupt_resets_velocity_and_logs() {
    let mut view = configured();
    view.set_velocity(Real(100.0), Real(50.0));
    view.push_event(&Event::Pan { timestamp: 0, axis: Axis::Horizontal, amount: 10 });
    view.push_event(&Event::Pan { timestamp: 1, axis: Axis::Vertical, amount: 10 });
    let position = view.position();
    view.push_event(&Event::Interrupt { timestamp: 2 });
    assert_eq!(fields(view.velocity()), (Real(0.0), Real(0.0), Real(0.0), Real(0.0), false));
    assert!(view.pan_log(Axis::Horizontal).is_empty());
    assert!(view.pan_log(Axis::Vertical).is_empty());
    assert!(!view.animating());
    assert_eq!(fields(view.position()), fields(position));
    assert_eq!(view.geometry(), (1000, 1000, 500, 500));
}

#[test]
fn interrupt_during_decay_stops_the_animation() {
    let mut view = configured();
    view.set_velocity(Real(100.0), Real(50.0));
    view.push_event(&Event::Fling { timestamp: 5 });
    view.step_frame(Some(6));
    assert!(view.animating());
    view.push_event(&Event::Interrupt { timestamp: 7 });
    assert!(!view.animating());
    assert_eq!(view.velocity().x, Real(0.0));
    assert_eq!(view.velocity().y, Real(0.0));
    assert!(view.velocity().decaying);
}

#[test]
fn interrupt_right_after_fling_is_not_animating() {
    let mut view = configured();
    view.push_event(&Event::Fling { timestamp: 5 });
    view.push_event(&Event::Interrupt { timestamp: 5 });
    assert!(!view.animating());

    let mut moving = configured();
    moving.set_velocity(Real(9.0), Real(9.0));
    moving.push_event(&Event::Fling { timestamp: 5 });
    moving.push_event(&Event::Interrupt { timestamp: 6 });
    assert!(!moving.animating());
}

#[test]
fn animation_does_not_restart_without_a_fling() {
    let mut view = configured();
    view.set_velocity(Real(100.0), Real(50.0));
    view.push_event(&Event::Fling { timestamp: 5 });
    view.push_event(&Event::Interrupt { timestamp: 6 });
    assert!(!view.animating());
    for t in 7..40u64 {
        view.push_event(&Event::Pan { timestamp: t, axis: Axis::Horizontal, amount: 5 });
        assert!(!view.animating());
        view.step_frame(Some(t));
        assert!(!view.animating());
        view.push_event(&Event::Interrupt { timestamp: t });
        assert!(!view.animating());
    }
}

#[test]
fn logs_fill_again_after_interrupt() {
    let mut view = configured();
    for t in 0..15u64 {
        view.push_event(&Event::Pan { timestamp: t, axis: Axis::Vertical, amount: 1 });
    }
    view.push_event(&Event::Interrupt { timestamp: 15 });
    view.push_event(&Event::Pan { timestamp: 16, axis: Axis::Vertical, amount: 2 });
    assert_eq!(samples(&view, Axis::Vertical), vec![(16, 2.0)]);
}

#[test]
fn integer_view_steps_with_given_values() {
    let mut view: Scrollview<i64> = Scrollview::new();
    view.set_velocity(10, 20);
    view.pan_with_gain(1, Axis::Horizontal, 3, 4);
    assert_eq!(view.position().x, 12);
    assert_eq!(view.pan_log(Axis::Horizontal).to_vec().len(), 1);
    view.step_frame_with(Some(2), 1, 1);
    assert_eq!((view.velocity().x, view.velocity().y), (10, 20));
    assert_eq!(view.current_timestamp(), 2);
    assert!(!view.animating());
}

#[test]
fn decay_never_settles_against_zero_thresholds() {
    let mut view = configured();
    view.set_velocity(Real(2.0), Real(2.0));
    view.push_event(&Event::Fling { timestamp: 0 });
    for frame in 0..10_000u64 {
        view.step_frame(Some(frame));
    }
    assert!(view.animating());
    assert!(view.velocity().x.0 >= 1.0 && view.velocity().x.0 < 2.0);
    assert!(view.velocity().y.0 >= 1.0 && view.velocity().y.0 < 2.0);
}

#[test]
fn decay_below_one_creeps_up_toward_one() {
    let mut view = configured();
    view.set_velocity(Real(0.5), Real(0.25));
    view.push_event(&Event::Fling { timestamp: 0 });
    assert!(view.animating());
    view.step_frame(Some(1));
    assert_eq!(view.velocity().x, Real(0.5f64.powf(0.998)));
    assert_eq!(view.velocity().y, Real(0.25f64.powf(0.998)));
    assert!(view.velocity().x.0 > 0.5 && view.velocity().x.0 < 1.0);
    assert!(view.velocity().y.0 > 0.25 && view.velocity().y.0 < 1.0);
    assert!(view.animating());
}

#[test]
fn negative_velocity_does_not_animate() {
    let mut view = configured();
    view.set_velocity(Real(-3.0), Real(-3.0));
    view.push_event(&Event::Fling { timestamp: 0 });
    assert!(!view.animating());
    view.step_frame(Some(1));
    assert_eq!(fields(view.velocity()), (Real(-3.0), Real(-3.0), Real(0.0), Real(0.0), false));
}

#[test]
fn constants_have_their_documented_values() {
    assert_eq!(scrollview::PAN_LOG_CAPACITY, 10);
    assert_eq!(scrollview::DEFAULT_TIMESTAMP, 1);
}
