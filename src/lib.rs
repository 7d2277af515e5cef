//! Framing, identifier decoding and verification orchestration for
//! zero-knowledge proof bundles.

pub mod bundle;
pub mod identifier;
pub mod record;
pub mod validate;
pub mod expected;
pub mod orchestrator;
pub mod risc0;
