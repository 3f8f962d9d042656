//! Technology-specific tiles of the StrongARM latch.

pub mod sky130;
