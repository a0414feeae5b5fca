//! Switch Huion graphics tablets into their vendor ("raw") reporting mode.
//!
//! The crate holds the decision core of the tool: the descriptor codec, the
//! per-device switch sequencer, the device locator and the property-cache
//! walker, together with the command-line dispatch. All USB and device-tree
//! I/O is performed by the surrounding binary, which drives the state
//! machines defined here.

use vstd::prelude::*;

pub mod cli;
pub mod codec;
pub mod locator;
pub mod output;
pub mod sequencer;
pub mod walker;

verus! {

/// The one vendor id this tool serves.
pub const HUION_VENDOR_ID: u16 = 0x256C;

/// The language selector the vendor firmware treats as the trigger for
/// returning vendor-specific buffers (US English).
pub const MAGIC_LANGUAGE_ID: u16 = 0x409;

/// String-descriptor slot holding the firmware identifier.
pub const FIRMWARE_ID_SLOT: u8 = 201;

/// Raw-descriptor slot holding pen parameters on new-generation devices.
pub const PEN_PARAMS_NEW_SLOT: u8 = 200;

/// Raw-descriptor slot holding pen parameters on old-generation devices.
pub const PEN_PARAMS_OLD_SLOT: u8 = 100;

/// String-descriptor slot whose read switches the pad into raw mode.
pub const PAD_MODE_SLOT: u8 = 123;

/// A slot-200 buffer of at least this many bytes marks a new-generation device.
pub const NEW_GENERATION_MIN_LEN: usize = 18;

/// A slot-100 buffer of at least this many bytes marks an old-generation device.
pub const OLD_GENERATION_MIN_LEN: usize = 12;

/// Per-operation timeout for every control transfer, in milliseconds.
pub const TRANSFER_TIMEOUT_MS: u64 = 100;

} // verus!
