//! A library to query and control networked smart-plug and smart-bulb
//! devices that speak an obfuscated-JSON protocol over UDP (discovery)
//! and TCP (commands).
//!
//! The crate covers the transport codec (a reversible XOR stream cipher
//! with length-prefixed framing), the framed-read state machine, the
//! discovery merge logic, the command envelope (building request
//! documents and classifying per-section replies), and the capability
//! dispatch that maps a device's model string to the operations it
//! supports.

use vstd::prelude::*;

pub mod capabilities;
pub mod codec;
pub mod commands;
pub mod datatypes;
pub mod error;
pub mod devices;
pub mod discovery;
pub mod envelope;
pub mod frame;
pub mod json;
pub mod parse;
pub mod text;

verus! {

} // verus!
