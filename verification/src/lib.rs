//! Signature-based pointer resolution for a frame-rate unlocker.
//!
//! The library works on a frozen copy of a code module taken from another
//! process. It finds fixed machine-code sequences in that copy, follows the
//! relative displacements encoded in them, and decides, from the values a
//! driver reads in the live process, what has to be written back.

pub mod address;
pub mod config;
pub mod enforce;
pub mod error;
pub mod logger;
pub mod pattern;
pub mod poll;
pub mod process;
pub mod resolver;
pub mod trampoline;
pub mod utils;
