//! Technology-specific implementations.

pub mod sky130;
