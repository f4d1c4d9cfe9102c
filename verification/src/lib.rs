//! Scroll prediction for a viewport over content.
//!
//! A host feeds pan, fling and interrupt events to a [`Scrollview`] and steps
//! it once per rendered frame; the scroll view answers with the position at
//! which the content should be drawn so that it matches the input device at
//! the moment the frame reaches the screen.
//!
//! The library is generic over its number type ([`Scalar`]) and over the gain
//! and decay curves ([`Curved`]). Every operation has a contract over the
//! mathematical model in [`model`], where the properties of the state machine
//! are proved.

pub mod axis_vector;
pub mod event;
pub mod event_log;
pub mod model;
pub mod scalar;
pub mod scroll;

pub use axis_vector::AxisVector;
pub use event::Axis;
pub use event::AxisSample;
pub use event::Event;
pub use event_log::EventLog;
pub use model::ScrollState;
pub use model::Transition;
pub use model::DEFAULT_TIMESTAMP;
pub use model::PAN_LOG_CAPACITY;
pub use scalar::Curved;
pub use scalar::ExactScalar;
pub use scalar::Scalar;
pub use scroll::Scrollview;
