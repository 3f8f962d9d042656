//! Verified planning and bookkeeping for generators of analog circuit blocks
//! of a chiplet interconnect physical layer.
//!
//! The heart of the crate is the characterization sweep of a segmented output
//! driver ([`driver::sweep`], [`driver::tb`], [`driver::collect`]): which legs
//! each simulation enables and at which input bias, how the testbench around
//! the driver is wired, where each simulation works, and where its result
//! lands in the final table. Beside it live the parameters of the layout
//! generators and what these decide before they draw: the tiles of each
//! device, the wiring of the control lines, the order of rows, the straps.
//!
//! Nothing here draws, simulates or touches a file. Decimal quantities are
//! held as integers ([`decimal`]) and computed by `rust_decimal`; measured
//! samples are held as the bit patterns of the simulator's floating-point
//! numbers and are only stored and compared.

pub mod buffer;
pub mod decimal;
pub mod driver;
pub mod stimulus;
pub mod strongarm;
pub mod tech;
pub mod tiles;
pub mod vco;
