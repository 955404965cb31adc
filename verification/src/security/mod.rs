//! Security mechanisms.

pub mod curve;
pub mod protocol;
pub mod zap;
