//! Verified control logic for a motorized, height-adjustable desk driven
//! over a wireless attribute-based link.
//!
//! The library holds everything that can be decided from plain values: the
//! height codec, the wire protocol opcodes, characteristic resolution, the
//! connection retry policy, and the closed-loop motion controller. The
//! surrounding binary performs the actual transport I/O and feeds results
//! back into these functions.

pub mod connect;
pub mod controller;
pub mod error;
pub mod protocol;
pub mod registry;
pub mod units;
