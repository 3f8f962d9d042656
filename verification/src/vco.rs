//! Voltage-controlled oscillators built from tunable delay cells.

use vstd::prelude::*;
use crate::decimal::{
    decimal_difference,
    decimal_product,
    decimal_quotient,
    decimal_sum,
    opt_view,
    Dec,
};
use crate::driver::tb::Pvt;
use crate::stimulus::{small, Pulse};

verus! {

/// What is asked of an oscillator.
#[derive(Clone, Copy, Debug, PartialEq, Eq, Structural)]
pub struct VcoParams {
    /// The lowest frequency.
    pub fmin: Dec,
    /// The highest frequency.
    pub fmax: Dec,
    /// The jitter.
    pub jitter: Dec,
    /// The largest load capacitance.
    pub maxcap: Dec,
    /// The rise time.
    pub tr: Dec,
    /// The fall time.
    pub tf: Dec,
}

/// The width and the length of a transistor.
#[derive(Clone, Copy, Debug, Hash, PartialEq, Eq, Structural)]
pub struct MosSize {
    /// The width.
    pub w: i64,
    /// The length.
    pub l: i64,
}

/// The transistors of a current-starved inverter.
#[derive(Clone, Copy, Debug, Hash, PartialEq, Eq, Structural)]
pub enum StarvedDevice {
    /// The pull-down transistor.
    PullDown,
    /// The transistor between the pull-down and the ground, whose gate is
    /// the tuning input.
    Starve,
    /// The pull-up transistor.
    PullUp,
}

/// An inverter whose pull-down current is limited by a tuning voltage.
#[derive(Clone, Copy, Debug, Hash, PartialEq, Eq, Structural)]
pub struct CurrentStarvedInverter;

impl CurrentStarvedInverter {
    /// The size of one of the transistors.
    pub fn device_size(&self, device: StarvedDevice) -> (size: MosSize)
        ensures
            size.l == 150,
            size.w == match device {
                StarvedDevice::PullDown => 1_200i64,
                StarvedDevice::Starve => 3_000i64,
                StarvedDevice::PullUp => 2_400i64,
            },
    {
        match device {
            StarvedDevice::PullDown => MosSize { w: 1_200, l: 150 },
            StarvedDevice::Starve => MosSize { w: 3_000, l: 150 },
            StarvedDevice::PullUp => MosSize { w: 2_400, l: 150 },
        }
    }
}

/// A testbench that measures the delays of a delay cell.
#[derive(Clone, Copy, Debug)]
pub struct DelayCellTb<T, C> {
    /// The delay cell.
    pub dut: T,
    /// The PVT corner.
    pub pvt: Pvt<C>,
    /// The tuning voltage.
    pub vtune: Dec,
    /// The rise time of the input.
    pub tr: Dec,
    /// The fall time of the input.
    pub tf: Dec,
}

impl<T, C> DelayCellTb<T, C> {
    /// The input that the testbench applies: one pulse of 1 ns after 1 ns,
    /// from the ground to the supply, with the edges of the testbench.
    pub fn input(&self) -> (pulse: Pulse)
        ensures
            pulse.val0@ == (0int, 0nat),
            pulse.val1 == self.pvt.voltage,
            pulse.period matches Some(t) && t@ == (1_000_000int, 0nat),
            pulse.rise == Some(self.tr),
            pulse.fall == Some(self.tf),
            pulse.width matches Some(t) && t@ == (1int, 9nat),
            pulse.delay matches Some(t) && t@ == (1int, 9nat),
    {
        Pulse {
            val0: small(0, 0),
            val1: self.pvt.voltage,
            period: Some(small(1_000_000, 0)),
            rise: Some(self.tr),
            fall: Some(self.tf),
            width: Some(small(1, 9)),
            delay: Some(small(1, 9)),
        }
    }

    /// The time at which the transient analysis stops: 3 ns.
    pub fn stop_time(&self) -> (t: Dec)
        ensures
            t@ == (3int, 9nat),
    {
        small(3, 9)
    }
}

/// A testbench that measures the period of an oscillator.
#[derive(Clone, Copy, Debug)]
pub struct VcoTb<V, C> {
    /// The oscillator.
    pub vco: V,
    /// The PVT corner.
    pub pvt: Pvt<C>,
    /// The tuning voltage.
    pub vtune: Dec,
    /// The time at which the transient analysis stops.
    pub sim_time: Dec,
    /// The load capacitance at the output.
    pub c_load: Dec,
}

/// The node that feeds stage `stage` of a ring of `stages` stages, the
/// nodes numbered by the stage that drives them: the stage before, and for
/// the first stage the last.
pub open spec fn ring_input(stage: nat, stages: nat) -> nat {
    if stage == 0 {
        (stages - 1) as nat
    } else {
        (stage - 1) as nat
    }
}

/// Every node of a ring feeds exactly one stage: the stage after the one
/// that drives it.
pub proof fn lemma_ring_closes(node: nat, stages: nat)
    requires
        node < stages,
    ensures
        ring_input((node + 1) % stages, stages) == node,
        forall|stage: nat| stage < stages && ring_input(stage, stages) == node ==> stage == (node
            + 1) % stages,
{
    if node + 1 < stages {
        vstd::arithmetic::div_mod::lemma_small_mod((node + 1) as nat, stages);
    } else {
        vstd::arithmetic::div_mod::lemma_mod_self_0(stages as int);
    }
}

/// A ring oscillator.
#[derive(Clone, Copy, Debug)]
pub struct RingOscillator<E> {
    stages: usize,
    element: E,
}

impl<E> RingOscillator<E> {
    /// The number of stages.
    pub closed spec fn spec_stages(&self) -> usize {
        self.stages
    }

    /// The delay cell that every stage is.
    pub closed spec fn spec_element(&self) -> E {
        self.element
    }

    /// Create a new ring oscillator by repeating the given element.
    ///
    /// Stages must be an odd integer.
    pub fn new(stages: usize, element: E) -> (ring: Self)
        requires
            stages % 2 == 1,
        ensures
            ring.spec_stages() == stages,
            ring.spec_element() == element,
    {
        Self { stages, element }
    }

    /// The same as [`new`](Self::new) for callers that cannot show
    /// beforehand that the number of stages is odd: `None` where it is even.
    pub fn checked_new(stages: usize, element: E) -> (ring: Option<Self>)
        ensures
            ring is Some <==> stages % 2 == 1,
            ring matches Some(r) ==> r.spec_stages() == stages && r.spec_element() == element,
    {
        if stages % 2 == 1 {
            Some(Self::new(stages, element))
        } else {
            None
        }
    }

    /// The number of stages.
    #[verifier::when_used_as_spec(spec_stages)]
    pub fn stages(&self) -> (stages: usize)
        ensures
            stages == self.spec_stages(),
    {
        self.stages
    }

    /// The delay cell that every stage is.
    pub fn element(&self) -> (element: &E)
        ensures
            *element == self.spec_element(),
    {
        &self.element
    }

    /// Takes the ring apart and hands out its delay cell.
    pub fn into_element(self) -> (element: E)
        ensures
            element == self.spec_element(),
    {
        self.element
    }

    /// The node that feeds a stage.
    pub fn stage_input(&self, stage: usize) -> (node: usize)
        requires
            stage < self.spec_stages(),
        ensures
            node == ring_input(stage as nat, self.spec_stages() as nat),
            node < self.spec_stages(),
    {
        if stage == 0 {
            self.stages - 1
        } else {
            stage - 1
        }
    }
}

/// Why the tuning voltages of a sweep were not computed.
#[derive(Clone, Copy, Debug, PartialEq, Eq, Structural)]
pub enum TuningError {
    /// Fewer than two points.
    TooFewPoints,
    /// The step from one point to the next cannot be represented.
    StepOutOfRange,
    /// The point of this index cannot be represented.
    PointOutOfRange {
        /// The index of the point.
        index: usize,
    },
}

/// The step between two tuning voltages: the width of the range divided by
/// the number of points less one, as `rust_decimal` computes them.
pub open spec fn tuning_step(vtune_min: (int, nat), vtune_max: (int, nat), num_points: nat)
    -> Option<(int, nat)> {
    match decimal_difference(vtune_max.0, vtune_max.1, vtune_min.0, vtune_min.1) {
        Some(width) => decimal_quotient(width.0, width.1, num_points - 1, 0),
        None => None,
    }
}

/// The tuning voltage of an index: the lower end of the range plus the
/// index times the step, as `rust_decimal` computes them.
pub open spec fn tuning_point(vtune_min: (int, nat), step: (int, nat), index: nat) -> Option<
    (int, nat),
> {
    match decimal_product(index as int, 0, step.0, step.1) {
        Some(offset) => decimal_sum(vtune_min.0, vtune_min.1, offset.0, offset.1),
        None => None,
    }
}

/// Computes the step between two tuning voltages.
pub fn tuning_increment(vtune_min: Dec, vtune_max: Dec, num_points: usize) -> (step: Option<Dec>)
    requires
        num_points > 1,
    ensures
        opt_view(step) == tuning_step(vtune_min@, vtune_max@, num_points as nat),
{
    match vtune_max.checked_sub(vtune_min) {
        Some(width) => width.checked_div(Dec::from_usize(num_points - 1)),
        None => None,
    }
}

/// Computes the tuning voltage of an index.
pub fn tuning_voltage(vtune_min: Dec, step: Dec, index: usize) -> (point: Option<Dec>)
    ensures
        opt_view(point) == tuning_point(vtune_min@, step@, index as nat),
{
    match Dec::from_usize(index).checked_mul(step) {
        Some(offset) => vtune_min.checked_add(offset),
        None => None,
    }
}

/// Appends a computed tuning voltage to those before it, or reports the
/// index at which none could be computed.
pub fn push_tuning_point(points: &mut Vec<Dec>, point: Option<Dec>) -> (r: Result<
    (),
    TuningError,
>)
    ensures
        point matches Some(p) ==> r is Ok && final(points)@ == old(points)@.push(p),
        point is None ==> final(points)@ == old(points)@ && r == Err::<(), TuningError>(
            TuningError::PointOutOfRange { index: old(points)@.len() as usize },
        ),
{
    match point {
        Some(p) => {
            points.push(p);
            Ok(())
        },
        None => Err(TuningError::PointOutOfRange { index: points.len() }),
    }
}

/// The tuning voltages of a sweep: `num_points` evenly spaced voltages from
/// `vtune_min` to `vtune_max`.
///
/// Nothing is computed for fewer than two points, where the step cannot be
/// represented, or where a point cannot, in this order of precedence.
pub fn tuning_voltages(vtune_min: Dec, vtune_max: Dec, num_points: usize) -> (r: Result<
    Vec<Dec>,
    TuningError,
>)
    ensures
        num_points < 2 ==> r == Err::<Vec<Dec>, TuningError>(TuningError::TooFewPoints),
        num_points >= 2 && tuning_step(vtune_min@, vtune_max@, num_points as nat) is None ==> r
            == Err::<Vec<Dec>, TuningError>(TuningError::StepOutOfRange),
        num_points >= 2 ==> (tuning_step(
            vtune_min@,
            vtune_max@,
            num_points as nat,
        ) matches Some(step) ==> match r {
            Ok(points) => {
                &&& points@.len() == num_points
                &&& forall|i: int|
                    0 <= i < num_points ==> Some((#[trigger] points@[i])@) == tuning_point(
                        vtune_min@,
                        step,
                        i as nat,
                    )
            },
            Err(e) => {
                &&& e matches TuningError::PointOutOfRange { index }
                &&& index < num_points
                &&& tuning_point(vtune_min@, step, index as nat) is None
                &&& forall|i: int|
                    0 <= i < index ==> (#[trigger] tuning_point(vtune_min@, step, i as nat)) is Some
            },
        }),
{
    if num_points < 2 {
        return Err(TuningError::TooFewPoints);
    }
    let step = match tuning_increment(vtune_min, vtune_max, num_points) {
        Some(step) => step,
        None => {
            return Err(TuningError::StepOutOfRange);
        },
    };
    let mut points: Vec<Dec> = Vec::new();
    let mut i: usize = 0;
    while i < num_points
        invariant
            2 <= num_points,
            i <= num_points,
            Some(step@) == tuning_step(vtune_min@, vtune_max@, num_points as nat),
            points@.len() == i,
            forall|j: int|
                0 <= j < i ==> Some((#[trigger] points@[j])@) == tuning_point(
                    vtune_min@,
                    step@,
                    j as nat,
                ),
        decreases num_points - i,
    {
        let point = tuning_voltage(vtune_min, step, i);
        match push_tuning_point(&mut points, point) {
            Ok(()) => {},
            Err(e) => {
                assert forall|j: int| 0 <= j < i implies (#[trigger] tuning_point(
                    vtune_min@,
                    step@,
                    j as nat,
                )) is Some by {
                    assert(Some(points@[j]@) == tuning_point(vtune_min@, step@, j as nat));
                }
                return Err(e);
            },
        }
        i = i + 1;
    }
    Ok(points)
}

} // verus!
