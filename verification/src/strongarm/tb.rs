//! StrongARM testbenches.

use vstd::prelude::*;
use std::marker::PhantomData;
use crate::decimal::Dec;
use crate::driver::tb::Pvt;
use crate::stimulus::{small, Pulse};

verus! {

/// A transient testbench that provides a differential input voltage and
/// measures the output waveform.
pub struct StrongArmTranTb<T, PDK, C> {
    /// The device-under-test.
    pub dut: T,
    /// The positive input voltage.
    pub vinp: Dec,
    /// The negative input voltage.
    pub vinn: Dec,
    /// Whether to pass an inverted clock to the DUT.
    ///
    /// If set to true, the clock will be held high when idle.
    /// The DUT should perform a comparison in response to a falling clock edge,
    /// rather than a rising clock edge.
    pub inverted_clk: bool,
    /// The PVT corner.
    pub pvt: Pvt<C>,
    /// Marks the process that the device-under-test is built in.
    pub phantom: PhantomData<PDK>,
}

impl<T, PDK, C> StrongArmTranTb<T, PDK, C> {
    /// Creates a new [`StrongArmTranTb`].
    pub fn new(dut: T, vinp: Dec, vinn: Dec, inverted_clk: bool, pvt: Pvt<C>) -> (tb: Self)
        ensures
            tb.dut == dut,
            tb.vinp == vinp,
            tb.vinn == vinn,
            tb.inverted_clk == inverted_clk,
            tb.pvt == pvt,
    {
        Self { dut, vinp, vinn, pvt, inverted_clk, phantom: PhantomData }
    }

    /// The clock that the testbench applies: one pulse of 100 s after 10 ns,
    /// with edges of 100 ps, from the ground to the supply, or from the
    /// supply to the ground where the clock is inverted.
    pub fn clock(&self) -> (pulse: Pulse)
        ensures
            self.inverted_clk ==> pulse.val0 == self.pvt.voltage && pulse.val1@ == (0int, 0nat),
            !self.inverted_clk ==> pulse.val0@ == (0int, 0nat) && pulse.val1 == self.pvt.voltage,
            pulse.period matches Some(t) && t@ == (1000int, 0nat),
            pulse.width matches Some(t) && t@ == (100int, 0nat),
            pulse.delay matches Some(t) && t@ == (1int, 8nat),
            pulse.rise matches Some(t) && t@ == (1int, 10nat),
            pulse.fall matches Some(t) && t@ == (1int, 10nat),
    {
        let (val0, val1) = if self.inverted_clk {
            (self.pvt.voltage, small(0, 0))
        } else {
            (small(0, 0), self.pvt.voltage)
        };
        Pulse {
            val0,
            val1,
            period: Some(small(1000, 0)),
            width: Some(small(100, 0)),
            delay: Some(small(1, 8)),
            rise: Some(small(1, 10)),
            fall: Some(small(1, 10)),
        }
    }

    /// The time at which the transient analysis stops: 30 ns.
    pub fn stop_time(&self) -> (t: Dec)
        ensures
            t@ == (3int, 8nat),
    {
        small(3, 8)
    }
}

/// The decision made by a comparator.
#[derive(Clone, Copy, Debug, Hash, PartialEq, Eq, Structural, PartialOrd, Ord)]
pub enum ComparatorDecision {
    /// Negative.
    ///
    /// The negative input was larger than the positive input.
    Neg,
    /// Positive.
    ///
    /// The positive input was larger than the negative input.
    Pos,
}

/// Where an output of the comparator has settled.
#[derive(Clone, Copy, Debug, Hash, PartialEq, Eq, Structural)]
pub struct Settled {
    /// Whether it is at the ground.
    pub at_ground: bool,
    /// Whether it is at the supply.
    pub at_supply: bool,
}

/// Reads the decision off the settled outputs: positive where the negative
/// output is at the ground and the positive one at the supply, negative where
/// it is the other way round and the first does not hold, none where the
/// outputs have not railed.
pub fn decision(von: Settled, vop: Settled) -> (d: Option<ComparatorDecision>)
    ensures
        d == if von.at_ground && vop.at_supply {
            Some(ComparatorDecision::Pos)
        } else if von.at_supply && vop.at_ground {
            Some(ComparatorDecision::Neg)
        } else {
            None::<ComparatorDecision>
        },
{
    if von.at_ground && vop.at_supply {
        Some(ComparatorDecision::Pos)
    } else if von.at_supply && vop.at_ground {
        Some(ComparatorDecision::Neg)
    } else {
        None
    }
}

} // verus!
