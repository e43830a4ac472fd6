//! Collection of a u-blox receiver telemetry stream into RINEX exchange files.
//!
//! The crate frames the receiver's binary stream into packets, assembles
//! broadcast ephemeris sub-frames per satellite, batches measurements per
//! epoch, and derives the output file names and record layouts.  All decisions
//! are made here, over plain values; transport and file input/output stay with
//! the caller.

pub mod decoder;
pub mod ephemeris;
pub mod messages;
pub mod navigation;
pub mod observables;
pub mod observation;
pub mod runtime;
pub mod settings;
pub mod signal;
pub mod table;
pub mod text;
pub mod time;
pub mod ubx;

pub use time::{Duration, Epoch, TimeScale};
