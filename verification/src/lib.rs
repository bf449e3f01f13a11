//! Calibration core for a pointing-device measurement tool.
//!
//! The library tracks the devices seen on an input stream, accumulates raw
//! motion counts while a recording gate is open, arms keyboard keys as
//! edge-triggered actions, and derives calibration metrics (effective DPI,
//! revolutions per inch, sensitivity adjustment) from the accumulated motion
//! and user-entered physical measurements.
//!
//! All quantities are exact: user-entered measurements are rationals with a
//! `Missing` sentinel, and motion counts are fixed-point integers in
//! thousandths of a device count. The host process polls its input source and
//! renders the values; this crate holds every decision in between.

pub mod calibrate;
pub mod core_state;
pub mod keybind;
pub mod recorder;
pub mod registry;
pub mod scalar;
