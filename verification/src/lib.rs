//! Control logic of a motorised star tracker: the stepper's rotation
//! bookkeeping, the system's operating modes and the binary websocket
//! protocol between the tracker and its web client.

pub mod camera;
pub mod stepper;
pub mod system;
pub mod web;
