//! Stimuli that the testbenches apply.

use vstd::prelude::*;
use crate::decimal::Dec;

verus! {

/// A train of voltage pulses.
#[derive(Clone, Copy, Debug, PartialEq, Eq, Structural)]
pub struct Pulse {
    /// The level outside a pulse.
    pub val0: Dec,
    /// The level inside a pulse.
    pub val1: Dec,
    /// The time from one pulse to the next, in seconds.
    pub period: Option<Dec>,
    /// The width of a pulse, in seconds.
    pub width: Option<Dec>,
    /// The time before the first pulse, in seconds.
    pub delay: Option<Dec>,
    /// The rise time, in seconds.
    pub rise: Option<Dec>,
    /// The fall time, in seconds.
    pub fall: Option<Dec>,
}

/// The decimal `mantissa / 10^scale` of a small mantissa.
pub fn small(mantissa: u32, scale: u8) -> (d: Dec)
    requires
        scale <= 28,
    ensures
        d@ == (mantissa as int, scale as nat),
{
    Dec::new(mantissa as i128, scale as u32).unwrap()
}

} // verus!
