//! The decisions behind two tuned GPU operations: which attention kernel to run, and how a
//! fused broadcasted reduction spreads its work over the units of a device.

pub mod attention;
pub mod dtype;
pub mod outside;
pub mod reduce;
