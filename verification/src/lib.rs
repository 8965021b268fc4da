//! Programming engine for a discontinued three-pedal USB foot switch.
//!
//! The device speaks an undocumented vendor protocol; this crate holds the
//! verified core: the key-action codec, device classification, the interface
//! lease teardown rules, the wire-format negotiation engine, the programming
//! session state machine, and the boot-keyboard report decoder.

use vstd::prelude::*;

pub mod action;
pub mod config;
pub mod keycodes;
pub mod lease;
pub mod locator;
pub mod monitor;
pub mod protocol;
pub mod rawcmd;
pub mod session;
pub mod text;

verus! {

/// USB vendor id of the pedal's manufacturer.
pub const KINESIS_VID: u16 = 0x05F3;

/// Product id the device reports in its normal ("play") personality.
pub const SAVANT_ELITE_PID: u16 = 0x030C;

/// Product id the device reports in its programming personality.
pub const PROGRAMMING_PID: u16 = 0x0232;

} // verus!
