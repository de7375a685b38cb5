//! Core of an environmental monitor: a mode/threshold state machine that
//! turns debounced button edges and digitized sensor samples into a
//! display-ready textual snapshot and an alarm signal.
//!
//! All physical quantities are carried as fixed-point integers in
//! hundredths (centi-units), so every value prints exactly with two
//! decimal places and all arithmetic is exact and overflow-checked.

pub mod buffer;
pub mod laws;
pub mod numfmt;
pub mod state;
