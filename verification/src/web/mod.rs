//! The binary protocol spoken over the tracker's websocket.

pub mod protocol;
