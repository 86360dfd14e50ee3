//! Reactive control core of a rail-vehicle behaviour script.
//!
//! The crate models the vehicle's control logic as explicit state machines
//! stepped once per simulation tick.  Continuous quantities (handle and door
//! positions, speeds, voltages, timers) are held in a fixed-point encoding:
//! an `i64` counts millionths of the underlying unit (see
//! [`standard_elements::SCALE`]).  The host adapter converts to and from the
//! simulator's floating-point variables at the boundary and performs all
//! input and output; everything in this crate is a deterministic computation
//! over the current tick's inputs.

pub mod cockpit;
pub mod cockpit_elements;
pub mod cockpit_types;
pub mod doors;
pub mod lights;
pub mod misc;
pub mod passenger_elements;
pub mod standard_elements;
pub mod systems_interface;
pub mod tech_elements;
pub mod traction;
