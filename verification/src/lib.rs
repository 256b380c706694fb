//! Parameter-update bridge between a synthesizer control surface and its engine.

pub mod bridge;
pub mod message;
pub mod panel;
pub mod patch;
pub mod schema;
pub mod wire;
