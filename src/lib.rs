//! Capability negotiation and input-session state machine of an on-screen
//! virtual keyboard.

pub mod types;
pub mod registry;
pub mod session;
pub mod translate;
pub mod keyboard;
