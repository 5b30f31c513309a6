//! Polling and decoding of a three-phase power analyzer's holding registers.
//!
//! The library is pure: it decides which registers to read, decodes the raw
//! words, attributes failures, and assembles a snapshot. The caller owns the
//! Modbus-TCP transport and drives the poll state machine with the outcome of
//! each transport operation.

pub mod decode;
pub mod registers;
pub mod poller;
pub mod service;
pub mod snapshot;

use vstd::prelude::*;

verus! {

} // verus!
