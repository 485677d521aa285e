//! Command encoding, fault decoding and motion-profile buffering for
//! CAN-attached motor controllers of two families that share one control
//! surface.
//!
//! Everything here is computation on plain values: a request is built as a
//! value, a status word is decoded from an integer, and the trajectory buffers
//! are a state machine. Moving those values over the bus is left to the caller.

pub mod address;
pub mod control;
pub mod controller;
pub mod demand;
pub mod equality;
pub mod error;
pub mod faults;
pub mod motion;
mod private;
pub mod profile_buffer;
pub mod reply;
pub mod request;
