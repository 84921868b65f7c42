//! Report-generation pipeline of a small switch-matrix USB input device.
//!
//! The crate holds the decisions of the firmware: how a matrix scan proceeds,
//! when a held trigger switch starts macro playback, how the bounded macro
//! queue fills and drains, what report a matrix snapshot maps to, and what the
//! main loop does next after each thing that happened. Driving pins, waiting
//! and talking to the USB peripheral are left to the caller.

pub mod edge;
pub mod macrokey;
pub mod matrix;
pub mod mouse;
pub mod report;
pub mod scan;
pub mod schedule;
pub mod queue;
