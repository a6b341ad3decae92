//! Relays global pointer and keyboard activity to a single consumer.

pub mod capture;
pub mod coordinate;
pub mod device;
pub mod hook;
pub mod websocket;
pub mod wire;
pub mod wire_laws;
