//! Prayer-time computation: calendar arithmetic, calculation-method
//! parameters, and the schedule state machine that derives the daily
//! prayer instants from raw solar times and answers current/next queries.
//!
//! Instants are UTC seconds; angles and geographic coordinates are held
//! in integer microdegrees. The floating-point positional astronomy that
//! produces the raw solar instants lives outside this crate and hands in
//! plain values.

pub mod adjustments;
pub mod angle;
pub mod date;
pub mod event;
pub mod high_altitude_rule;
pub mod madhab;
pub mod method;
pub mod ops;
pub mod parameters;
pub mod prayer;
pub mod rounding;
pub mod schedule;
pub mod shafaq;
