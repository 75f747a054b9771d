//! Operation codes of the USB/IP control messages.

use vstd::prelude::*;

verus! {

/// High byte of the code of every request.
pub const OP_REQUEST: u16 = 0x8000;

/// High byte of the code of every reply.
pub const OP_REPLY: u16 = 0x0000;

/// Import a remote USB device.
pub const OP_IMPORT: u16 = 0x03;

/// `OP_REQUEST | OP_IMPORT`.
pub const OP_REQ_IMPORT: u16 = 0x8003;

/// `OP_REPLY | OP_IMPORT`.
pub const OP_REP_IMPORT: u16 = 0x0003;

/// Placeholder code: a caller that expects it imposes no check on the code.
pub const OP_UNSPEC: u16 = 0x00;

/// Retrieve the list of exported USB devices.
pub const OP_DEVLIST: u16 = 0x05;

/// `OP_REQUEST | OP_DEVLIST`.
pub const OP_REQ_DEVLIST: u16 = 0x8005;

/// `OP_REPLY | OP_DEVLIST`.
pub const OP_REP_DEVLIST: u16 = 0x0005;

/// Export a USB device to a remote host.
pub const OP_EXPORT: u16 = 0x06;

/// `OP_REQUEST | OP_EXPORT`.
pub const OP_REQ_EXPORT: u16 = 0x8006;

/// `OP_REPLY | OP_EXPORT`.
pub const OP_REP_EXPORT: u16 = 0x0006;

} // verus!
