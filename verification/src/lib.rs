//! Host side of a Nordic-style DFU bootloader protocol, without any I/O of
//! its own: SLIP framing, the request and response wire layout, and the
//! state machine that decides which request an update sends next.

pub mod archive;
pub mod checksum;
pub mod codec;
pub mod dfu;
pub mod laws;
pub mod protocol;
pub mod resume;
pub mod session;
pub mod slip;
pub mod transfer;
pub mod updater;
pub mod wire;
