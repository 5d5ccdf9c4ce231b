//! Core of a radiation-field preview tool.
//!
//! The library holds the discrete, checkable part of the model: source
//! materials and their yield constants, the index layout of the
//! exposure grid, tick accounting for the decay estimate, severity
//! banding of an exposure magnitude, SI-prefix selection for display,
//! and clock rendering of decay durations. The surrounding
//! floating-point field math and the user interface live outside the
//! library.

pub mod clock;
pub mod rad;
pub mod unit;
