//! Custody primitives for a metered payment stream and a hash-locked bounty.

pub mod address;
pub mod error;
pub mod session;
pub mod bounty;
pub mod instructions;
