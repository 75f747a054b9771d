//! Client side of the USB/IP protocol: the wire codec, header validation,
//! the import and devlist exchanges, and the rules for detaching a port of
//! the virtual host controller.

pub mod attach;
pub mod codec;
pub mod detach;
pub mod devlist;
pub mod net;
pub mod protocol;
