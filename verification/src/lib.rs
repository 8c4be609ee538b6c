//! Command encoder for the WinKeyer serial protocol.
//!
//! A command is described as a typed value and turned into the exact bytes
//! that the keyer expects on its serial line.

pub mod winkeyer;
