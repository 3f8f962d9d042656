//! The AC testbench of a driver and the thermometer coding of its legs.

use vstd::prelude::*;
use std::marker::PhantomData;
use crate::decimal::Dec;
use crate::driver::sweep::{code_vector, LegKind, SimulationJob, SweepError};

verus! {

/// A process, voltage and temperature corner.
#[derive(Clone, Copy, Debug)]
pub struct Pvt<C> {
    /// The process corner.
    pub corner: C,
    /// The supply voltage.
    pub voltage: Dec,
    /// The temperature.
    pub temp: Dec,
}

impl<C> Pvt<C> {
    /// A corner of the given process corner, supply voltage and temperature.
    pub fn new(corner: C, voltage: Dec, temp: Dec) -> (pvt: Self)
        ensures
            pvt.corner == corner,
            pvt.voltage == voltage,
            pvt.temp == temp,
    {
        Pvt { corner, voltage, temp }
    }
}

/// The resistance, in ohms, through which every control line of the driver is
/// tied to a rail.
pub const TERMINATION_OHMS: u64 = 100;

/// The number of frequency points in each decade of the AC analysis.
pub const POINTS_PER_DECADE: usize = 40;

/// A net of the testbench.
#[derive(Clone, Copy, Debug, PartialEq, Eq, Structural)]
pub enum TbNet {
    /// The ground of the testbench.
    Vss,
    /// The supply of the driver.
    Vdd,
    /// The biased input of the driver.
    Vin,
    /// The output of the driver, where the impedance is measured.
    Vout,
    /// The pull-up control line of this index.
    PuCtl(usize),
    /// The inverted pull-down control line of this index.
    PdCtlb(usize),
}

/// A port of the driver under test.
#[derive(Clone, Copy, Debug, PartialEq, Eq, Structural)]
pub enum DutPort {
    /// The data input.
    Din,
    /// The data output.
    Dout,
    /// The supply.
    Vdd,
    /// The ground.
    Vss,
    /// The pull-up control of this index.
    PuCtl(usize),
    /// The inverted pull-down control of this index.
    PdCtlb(usize),
}

/// One step of building the testbench around the driver.
#[derive(Clone, Copy, Debug, PartialEq, Eq, Structural)]
pub enum TbElement {
    /// Connect a port of the driver to a net.
    Connect {
        /// The port.
        port: DutPort,
        /// The net.
        net: TbNet,
    },
    /// Place a resistor between two nets.
    Resistor {
        /// The positive terminal.
        p: TbNet,
        /// The negative terminal.
        n: TbNet,
        /// The resistance in ohms.
        ohms: u64,
    },
    /// Place a constant voltage source between two nets.
    DcSource {
        /// The positive terminal.
        p: TbNet,
        /// The negative terminal.
        n: TbNet,
        /// The voltage.
        volts: Dec,
    },
    /// Place a small-signal current source between two nets.
    AcCurrent {
        /// The positive terminal.
        p: TbNet,
        /// The negative terminal.
        n: TbNet,
        /// The constant current.
        dc: Dec,
        /// The magnitude of the small signal.
        mag: Dec,
        /// The phase of the small signal.
        phase: Dec,
    },
}

/// The rail that a pull-up control line is tied to: the supply where the leg
/// is enabled, the ground where it is not.
pub open spec fn pull_up_rail(enabled: bool) -> TbNet {
    if enabled {
        TbNet::Vdd
    } else {
        TbNet::Vss
    }
}

/// The rail that an inverted pull-down control line is tied to: the ground
/// where the leg is enabled, the supply where it is not.
pub open spec fn pull_down_rail(enabled: bool) -> TbNet {
    if enabled {
        TbNet::Vss
    } else {
        TbNet::Vdd
    }
}

/// The steps for the pull-up control lines: for each line in turn, its
/// connection to the driver and its termination.
pub open spec fn pull_up_steps(mask: Seq<bool>) -> Seq<TbElement> {
    Seq::new(
        2 * mask.len(),
        |k: int|
            if k % 2 == 0 {
                TbElement::Connect {
                    port: DutPort::PuCtl((k / 2) as usize),
                    net: TbNet::PuCtl((k / 2) as usize),
                }
            } else {
                TbElement::Resistor {
                    p: TbNet::PuCtl((k / 2) as usize),
                    n: pull_up_rail(mask[k / 2]),
                    ohms: TERMINATION_OHMS,
                }
            },
    )
}

/// The steps for the pull-down control lines: for each line in turn, its
/// connection to the driver and its termination.
pub open spec fn pull_down_steps(mask: Seq<bool>) -> Seq<TbElement> {
    Seq::new(
        2 * mask.len(),
        |k: int|
            if k % 2 == 0 {
                TbElement::Connect {
                    port: DutPort::PdCtlb((k / 2) as usize),
                    net: TbNet::PdCtlb((k / 2) as usize),
                }
            } else {
                TbElement::Resistor {
                    p: TbNet::PdCtlb((k / 2) as usize),
                    n: pull_down_rail(mask[k / 2]),
                    ohms: TERMINATION_OHMS,
                }
            },
    )
}

/// Whether these are the last seven steps of a testbench with input bias
/// `vin` and supply `vdd`: the four remaining ports of the driver, the bias
/// source, the supply source, and a current source of unit magnitude and zero
/// phase from the ground into the output.
pub open spec fn closes_testbench(steps: Seq<TbElement>, vin: Dec, vdd: Dec) -> bool {
    &&& steps.len() == 7
    &&& steps[0] == (TbElement::Connect { port: DutPort::Vdd, net: TbNet::Vdd })
    &&& steps[1] == (TbElement::Connect { port: DutPort::Vss, net: TbNet::Vss })
    &&& steps[2] == (TbElement::Connect { port: DutPort::Din, net: TbNet::Vin })
    &&& steps[3] == (TbElement::Connect { port: DutPort::Dout, net: TbNet::Vout })
    &&& steps[4] == (TbElement::DcSource { p: TbNet::Vin, n: TbNet::Vss, volts: vin })
    &&& steps[5] == (TbElement::DcSource { p: TbNet::Vdd, n: TbNet::Vss, volts: vdd })
    &&& steps[6] matches TbElement::AcCurrent { p, n, dc, mag, phase }
    &&& p == TbNet::Vss
    &&& n == TbNet::Vout
    &&& dc@ == (0int, 0nat)
    &&& mag@ == (1int, 0nat)
    &&& phase@ == (0int, 0nat)
}

/// The frequency sweep of an AC analysis.
#[derive(Clone, Copy, Debug, PartialEq, Eq, Structural)]
pub struct AcSweep {
    /// The first frequency.
    pub start: Dec,
    /// The last frequency.
    pub stop: Dec,
    /// The number of points in each decade; the points are spaced
    /// logarithmically.
    pub points_per_decade: usize,
    /// Whether the simulator is held to its conservative error tolerances.
    pub conservative: bool,
}

/// An AC testbench that sweeps frequency and measures output resistance.
pub struct DriverAcTb<T, PDK, C> {
    /// The device-under-test.
    pub dut: T,
    /// The start frequency.
    pub fstart: Dec,
    /// The stop frequency.
    pub fstop: Dec,
    /// The DC input bias voltage.
    pub vin: Dec,
    /// The PVT corner.
    pub pvt: Pvt<C>,
    /// Pull-up enable mask.
    pub pu_mask: Vec<bool>,
    /// Pull-down enable mask.
    pub pd_mask: Vec<bool>,
    /// Marks the process that the device-under-test is built in.
    pub phantom: PhantomData<PDK>,
}

impl<T, PDK, C> DriverAcTb<T, PDK, C> {
    /// Creates a new [`DriverAcTb`].
    pub fn new(
        dut: T,
        fstart: Dec,
        fstop: Dec,
        vin: Dec,
        pu_mask: Vec<bool>,
        pd_mask: Vec<bool>,
        pvt: Pvt<C>,
    ) -> (tb: Self)
        ensures
            tb.dut == dut,
            tb.fstart == fstart,
            tb.fstop == fstop,
            tb.vin == vin,
            tb.pu_mask == pu_mask,
            tb.pd_mask == pd_mask,
            tb.pvt == pvt,
    {
        Self { dut, fstart, fstop, vin, pvt, pu_mask, pd_mask, phantom: PhantomData }
    }

    /// Whether `steps` build this testbench: the pull-up control lines, the
    /// pull-down control lines, then the rest.
    pub open spec fn built_by(&self, steps: Seq<TbElement>) -> bool {
        let n_pu = self.pu_mask@.len() as int;
        let n_pd = self.pd_mask@.len() as int;
        &&& steps.len() == 2 * n_pu + 2 * n_pd + 7
        &&& steps.subrange(0, 2 * n_pu) == pull_up_steps(self.pu_mask@)
        &&& steps.subrange(2 * n_pu, 2 * n_pu + 2 * n_pd) == pull_down_steps(self.pd_mask@)
        &&& closes_testbench(
            steps.subrange(2 * n_pu + 2 * n_pd, steps.len() as int),
            self.vin,
            self.pvt.voltage,
        )
    }

    /// Lists the steps that build the testbench around a driver with `n_pu`
    /// pull-up and `n_pd` pull-down control lines.
    pub fn schematic(&self, n_pu: usize, n_pd: usize) -> (steps: Vec<TbElement>)
        requires
            self.pu_mask@.len() == n_pu,
            self.pd_mask@.len() == n_pd,
        ensures
            self.built_by(steps@),
    {
        let mut steps: Vec<TbElement> = Vec::new();
        let mut i: usize = 0;
        while i < n_pu
            invariant
                i <= n_pu,
                self.pu_mask@.len() == n_pu,
                steps@ == pull_up_steps(self.pu_mask@.subrange(0, i as int)),
            decreases n_pu - i,
        {
            let rail = if self.pu_mask[i] {
                TbNet::Vdd
            } else {
                TbNet::Vss
            };
            steps.push(TbElement::Connect { port: DutPort::PuCtl(i), net: TbNet::PuCtl(i) });
            steps.push(TbElement::Resistor { p: TbNet::PuCtl(i), n: rail, ohms: TERMINATION_OHMS });
            assert(steps@ =~= pull_up_steps(self.pu_mask@.subrange(0, i + 1)));
            i = i + 1;
        }
        assert(self.pu_mask@.subrange(0, n_pu as int) =~= self.pu_mask@);
        let ghost pu_steps = steps@;
        let mut j: usize = 0;
        while j < n_pd
            invariant
                j <= n_pd,
                self.pd_mask@.len() == n_pd,
                pu_steps.len() == 2 * n_pu,
                steps@ == pu_steps + pull_down_steps(self.pd_mask@.subrange(0, j as int)),
            decreases n_pd - j,
        {
            let rail = if self.pd_mask[j] {
                TbNet::Vss
            } else {
                TbNet::Vdd
            };
            steps.push(TbElement::Connect { port: DutPort::PdCtlb(j), net: TbNet::PdCtlb(j) });
            steps.push(
                TbElement::Resistor { p: TbNet::PdCtlb(j), n: rail, ohms: TERMINATION_OHMS },
            );
            assert(steps@ =~= pu_steps + pull_down_steps(self.pd_mask@.subrange(0, j + 1)));
            j = j + 1;
        }
        assert(self.pd_mask@.subrange(0, n_pd as int) =~= self.pd_mask@);
        let ghost ctl_steps = steps@;
        steps.push(TbElement::Connect { port: DutPort::Vdd, net: TbNet::Vdd });
        steps.push(TbElement::Connect { port: DutPort::Vss, net: TbNet::Vss });
        steps.push(TbElement::Connect { port: DutPort::Din, net: TbNet::Vin });
        steps.push(TbElement::Connect { port: DutPort::Dout, net: TbNet::Vout });
        steps.push(TbElement::DcSource { p: TbNet::Vin, n: TbNet::Vss, volts: self.vin });
        steps.push(TbElement::DcSource { p: TbNet::Vdd, n: TbNet::Vss, volts: self.pvt.voltage });
        steps.push(
            TbElement::AcCurrent {
                p: TbNet::Vss,
                n: TbNet::Vout,
                dc: Dec::from_usize(0),
                mag: Dec::from_usize(1),
                phase: Dec::from_usize(0),
            },
        );
        proof {
            assert(steps@.subrange(0, 2 * n_pu) =~= pull_up_steps(self.pu_mask@));
            assert(steps@.subrange(2 * n_pu, 2 * n_pu + 2 * n_pd) =~= pull_down_steps(
                self.pd_mask@,
            ));
        }
        steps
    }

    /// The same as [`schematic`](Self::schematic) for callers that cannot
    /// show beforehand that the masks fit the driver: a mask of another
    /// length than the number of its control lines is reported.
    pub fn checked_schematic(&self, n_pu: usize, n_pd: usize) -> (r: Result<
        Vec<TbElement>,
        SweepError,
    >)
        ensures
            self.pu_mask@.len() == n_pu && self.pd_mask@.len() == n_pd ==> (r matches Ok(steps)
                && self.built_by(steps@)),
            !(self.pu_mask@.len() == n_pu && self.pd_mask@.len() == n_pd) ==> r == Err::<
                Vec<TbElement>,
                SweepError,
            >(SweepError::MaskLengthMismatch),
    {
        if self.pu_mask.len() == n_pu && self.pd_mask.len() == n_pd {
            Ok(self.schematic(n_pu, n_pd))
        } else {
            Err(SweepError::MaskLengthMismatch)
        }
    }

    /// The AC analysis that the testbench runs: a logarithmic sweep from
    /// the start to the stop frequency at [`POINTS_PER_DECADE`] points per
    /// decade, under conservative error tolerances.
    pub fn analysis(&self) -> (sweep: AcSweep)
        ensures
            sweep == (AcSweep {
                start: self.fstart,
                stop: self.fstop,
                points_per_decade: POINTS_PER_DECADE,
                conservative: true,
            }),
    {
        AcSweep {
            start: self.fstart,
            stop: self.fstop,
            points_per_decade: POINTS_PER_DECADE,
            conservative: true,
        }
    }
}

/// Driver simulation parameters.
pub struct DriverSimParams<T, C> {
    /// The driver to simulate.
    pub driver: T,
    /// The PVT corner.
    pub pvt: Pvt<C>,
    /// Start frequency.
    pub fstart: Dec,
    /// Stop frequency.
    pub fstop: Dec,
    /// Number of bias points, from zero to the supply voltage.
    pub sweep_points: usize,
}

/// A set of driver simulation results.
///
/// A sample, be it a frequency or a resistance, is held as the bit pattern of
/// the double-precision number that the simulator reported.
pub struct DriverAcSims {
    /// Pull-up resistances.
    ///
    /// Dimensions: code sweep size x vin sweep size x freq sweep length.
    pub r_pu: Vec<Vec<Vec<u64>>>,
    /// Pull-down resistances.
    ///
    /// Dimensions: code sweep size x vin sweep size x freq sweep length.
    pub r_pd: Vec<Vec<Vec<u64>>>,
    /// The frequency vector.
    pub freq: Vec<u64>,
    /// The input voltage vector.
    pub vin: Vec<Dec>,
    /// The pull-up code sweep vector.
    pub pu_codes: Vec<usize>,
    /// The pull-down code sweep vector.
    pub pd_codes: Vec<usize>,
}

/// The curves of a table, row by row.
pub open spec fn curves(table: Vec<Vec<Vec<u64>>>) -> Seq<Seq<Seq<u64>>> {
    Seq::new(table@.len(), |c: int| Seq::new(table@[c]@.len(), |b: int| table@[c]@[b]@))
}

impl DriverAcSims {
    /// Whether the tables have one row for each code and, in each row, one
    /// curve for each bias point, and the vectors label them.
    pub open spec fn shaped(&self, n_pu: nat, n_pd: nat, sweep_points: nat) -> bool {
        &&& self.r_pu@.len() == n_pu
        &&& forall|c: int| 0 <= c < n_pu ==> (#[trigger] self.r_pu@[c])@.len() == sweep_points
        &&& self.r_pd@.len() == n_pd
        &&& forall|c: int| 0 <= c < n_pd ==> (#[trigger] self.r_pd@[c])@.len() == sweep_points
        &&& self.vin@.len() == sweep_points
        &&& self.pu_codes@ == code_vector(n_pu)
        &&& self.pd_codes@ == code_vector(n_pd)
    }

    /// The resistance curve in the cell of a job.
    pub open spec fn curve(&self, job: SimulationJob) -> Seq<u64> {
        match job.leg {
            LegKind::PullUp => self.r_pu@[job.code - 1]@[job.bias_index as int]@,
            LegKind::PullDown => self.r_pd@[job.code - 1]@[job.bias_index as int]@,
        }
    }
}

/// The thermometer mask of `code` over `bits` legs: entry `i` is active
/// exactly when `i < code`.
pub open spec fn thermometer(code: nat, bits: nat) -> Seq<bool> {
    Seq::new(bits, |i: int| i < code)
}

/// Converts a code to thermometer coding.
///
/// Over four legs, 0 becomes `0000`, 1 becomes `1000`, 2 becomes `1100`,
/// 3 becomes `1110` and 4 becomes `1111`.
pub fn code_to_thermometer(code: usize, bits: usize) -> (mask: Vec<bool>)
    requires
        code <= bits,
    ensures
        mask@ == thermometer(code as nat, bits as nat),
{
    let mut out: Vec<bool> = Vec::with_capacity(bits);
    out.resize(code, true);
    assert(out@ =~= Seq::new(code as nat, |i: int| true)) by {
        assert forall|i: int| 0 <= i < out@.len() implies out@[i] by {
            assert(cloned::<bool>(true, out@[i]));
        }
    }
    let ghost lit = out@;
    out.resize(bits, false);
    assert(out@ =~= thermometer(code as nat, bits as nat)) by {
        assert forall|i: int| 0 <= i < bits implies out@[i] == (i < code) by {
            if i < code {
                assert(out@.subrange(0, code as int)[i] == lit[i]);
            } else {
                assert(cloned::<bool>(false, out@[i]));
            }
        }
    }
    out
}

/// The same as [`code_to_thermometer`] for callers that cannot show
/// `code <= bits` beforehand: a code above the number of legs is reported.
pub fn checked_code_to_thermometer(code: usize, bits: usize) -> (r: Result<Vec<bool>, SweepError>)
    ensures
        code <= bits ==> (r matches Ok(mask) && mask@ == thermometer(code as nat, bits as nat)),
        code > bits ==> r == Err::<Vec<bool>, SweepError>(SweepError::CodeOutOfRange { code, bits }),
{
    if code <= bits {
        Ok(code_to_thermometer(code, bits))
    } else {
        Err(SweepError::CodeOutOfRange { code, bits })
    }
}

/// Raising the code by one changes the mask in exactly one position, the one
/// whose index is the old code, and there from inactive to active.
pub proof fn lemma_thermometer_step(code: nat, bits: nat)
    requires
        code < bits,
    ensures
        !thermometer(code, bits)[code as int],
        thermometer(code + 1, bits)[code as int],
        forall|i: int|
            0 <= i < bits && i != code ==> thermometer(code + 1, bits)[i] == thermometer(
                code,
                bits,
            )[i],
        thermometer(code + 1, bits) == thermometer(code, bits).update(code as int, true),
{
    assert(thermometer(code + 1, bits) =~= thermometer(code, bits).update(code as int, true));
}

/// The mask of the full code enables every leg, and the mask of code zero
/// enables none.
pub proof fn lemma_thermometer_ends(bits: nat)
    ensures
        forall|i: int| 0 <= i < bits ==> thermometer(bits, bits)[i],
        forall|i: int| 0 <= i < bits ==> !thermometer(0, bits)[i],
{
}

} // verus!
