//! The job matrix of a driver characterization sweep.
//!
//! A sweep runs one simulation for every leg family, every code of that
//! family and every bias point. The jobs are laid out in that order, so that
//! a job and its position determine each other.

use vstd::prelude::*;
use vstd::arithmetic::div_mod::lemma_fundamental_div_mod_converse;
use crate::decimal::{decimal_product, decimal_quotient, opt_view, Dec};
use crate::driver::naming::{dir_name_view, job_dir_name};
use crate::driver::tb::{code_to_thermometer, thermometer, DriverAcTb, DriverSimParams};

verus! {

/// The two families of legs of a segmented driver.
#[derive(Clone, Copy, Debug, Hash, PartialEq, Eq, Structural)]
pub enum LegKind {
    /// The legs that pull the output up.
    PullUp,
    /// The legs that pull the output down.
    PullDown,
}

/// One simulation of a sweep: `code` legs of family `leg` enabled, the input
/// held at the bias point `bias_index`.
#[derive(Clone, Copy, Debug, Hash, PartialEq, Eq, Structural)]
pub struct SimulationJob {
    /// The family of legs that is swept; the other one is fully enabled.
    pub leg: LegKind,
    /// The number of enabled legs of the swept family, counted from 1.
    pub code: usize,
    /// The index of the bias point.
    pub bias_index: usize,
}

/// Why a sweep was not planned or its results were not assembled.
#[derive(Clone, Copy, Debug, PartialEq, Eq, Structural)]
pub enum SweepError {
    /// A code above the number of legs it is to be spread over.
    CodeOutOfRange {
        /// The code.
        code: usize,
        /// The number of legs.
        bits: usize,
    },
    /// A mask whose length is not the number of control lines it drives.
    MaskLengthMismatch,
    /// Fewer than two bias points.
    TooFewSweepPoints,
    /// More jobs than can be counted.
    TooManyJobs,
    /// The bias point of this index cannot be represented.
    BiasOutOfRange {
        /// The index of the bias point.
        index: usize,
    },
    /// A result for a job that is not part of the sweep.
    UnknownJob(SimulationJob),
    /// A second result for a job.
    DuplicateJob(SimulationJob),
    /// The simulator reported a failure for a job.
    JobFailed(SimulationJob),
    /// A job ended without reporting anything.
    JobAborted(SimulationJob),
    /// The frequency points of a job differ from those of the jobs before it.
    FrequencyMismatch(SimulationJob),
    /// The resistance curve of a job has not one sample for each of its
    /// frequency points.
    CurveLengthMismatch(SimulationJob),
    /// No result for a job.
    MissingJob(SimulationJob),
}

/// The number of legs of a family.
pub open spec fn leg_bits(leg: LegKind, n_pu: nat, n_pd: nat) -> nat {
    match leg {
        LegKind::PullUp => n_pu,
        LegKind::PullDown => n_pd,
    }
}

/// The number of jobs of a sweep.
pub open spec fn job_count(n_pu: nat, n_pd: nat, sweep_points: nat) -> nat {
    (n_pu + n_pd) * sweep_points
}

impl SimulationJob {
    /// Whether the job belongs to a sweep of a driver with `n_pu` pull-up and
    /// `n_pd` pull-down legs over `sweep_points` bias points.
    pub open spec fn valid(self, n_pu: nat, n_pd: nat, sweep_points: nat) -> bool {
        &&& 1 <= self.code <= leg_bits(self.leg, n_pu, n_pd)
        &&& self.bias_index < sweep_points
    }

    /// The position of the job in the job matrix.
    pub open spec fn slot(self, n_pu: nat, sweep_points: nat) -> int {
        let within = (self.code - 1) * sweep_points + self.bias_index;
        match self.leg {
            LegKind::PullUp => within,
            LegKind::PullDown => n_pu * sweep_points + within,
        }
    }
}

/// The job at position `k` of the job matrix.
pub open spec fn job_at(k: int, n_pu: nat, sweep_points: nat) -> SimulationJob {
    let split = n_pu * sweep_points;
    if k < split {
        SimulationJob {
            leg: LegKind::PullUp,
            code: (k / sweep_points as int + 1) as usize,
            bias_index: (k % sweep_points as int) as usize,
        }
    } else {
        SimulationJob {
            leg: LegKind::PullDown,
            code: ((k - split) / sweep_points as int + 1) as usize,
            bias_index: ((k - split) % sweep_points as int) as usize,
        }
    }
}

/// The job matrix: all pull-up jobs, then all pull-down jobs, each family by
/// rising code and each code by rising bias index.
pub open spec fn job_matrix_view(n_pu: nat, n_pd: nat, sweep_points: nat) -> Seq<SimulationJob> {
    Seq::new(job_count(n_pu, n_pd, sweep_points), |k: int| job_at(k, n_pu, sweep_points))
}

/// The offset of a code and a bias index inside one family splits back into
/// the two, and stays inside the family.
pub proof fn lemma_offset_in_leg(code: int, bias_index: int, bits: int, sweep_points: int)
    requires
        1 <= code <= bits,
        0 <= bias_index < sweep_points,
    ensures
        0 <= (code - 1) * sweep_points + bias_index < bits * sweep_points,
        ((code - 1) * sweep_points + bias_index) / sweep_points == code - 1,
        ((code - 1) * sweep_points + bias_index) % sweep_points == bias_index,
{
    let x = (code - 1) * sweep_points + bias_index;
    lemma_fundamental_div_mod_converse(x, sweep_points, code - 1, bias_index);
    assert(0 <= (code - 1) * sweep_points) by (nonlinear_arith)
        requires
            1 <= code,
            0 < sweep_points,
    ;
    assert((code - 1) * sweep_points + sweep_points <= bits * sweep_points) by (nonlinear_arith)
        requires
            code <= bits,
            0 < sweep_points,
    ;
}

/// A job of the sweep sits at a position of the job matrix, and the job
/// matrix holds that very job there.
pub proof fn lemma_slot_of_job(job: SimulationJob, n_pu: nat, n_pd: nat, sweep_points: nat)
    requires
        job.valid(n_pu, n_pd, sweep_points),
    ensures
        0 <= job.slot(n_pu, sweep_points) < job_count(n_pu, n_pd, sweep_points),
        job_at(job.slot(n_pu, sweep_points), n_pu, sweep_points) == job,
{
    let sp = sweep_points as int;
    let bits = leg_bits(job.leg, n_pu, n_pd) as int;
    lemma_offset_in_leg(job.code as int, job.bias_index as int, bits, sp);
    assert((n_pu + n_pd) * sp == n_pu * sp + n_pd * sp) by (nonlinear_arith);
}

/// Every position of the job matrix holds a job of the sweep, and that job
/// sits at this position.
pub proof fn lemma_job_of_slot(k: int, n_pu: nat, n_pd: nat, sweep_points: nat)
    requires
        0 <= k < job_count(n_pu, n_pd, sweep_points),
        n_pu <= usize::MAX,
        n_pd <= usize::MAX,
        sweep_points <= usize::MAX,
    ensures
        job_at(k, n_pu, sweep_points).valid(n_pu, n_pd, sweep_points),
        job_at(k, n_pu, sweep_points).slot(n_pu, sweep_points) == k,
{
    let sp = sweep_points as int;
    assert(sp > 0) by (nonlinear_arith)
        requires
            0 <= k < (n_pu + n_pd) * sp,
            0 <= sp,
    ;
    assert((n_pu + n_pd) * sp == n_pu * sp + n_pd * sp) by (nonlinear_arith);
    let split = n_pu * sp;
    let (r, bits) = if k < split {
        (k, n_pu as int)
    } else {
        (k - split, n_pd as int)
    };
    assert(0 <= r < bits * sp);
    vstd::arithmetic::div_mod::lemma_fundamental_div_mod(r, sp);
    vstd::arithmetic::div_mod::lemma_mod_bound(r, sp);
    let q = r / sp;
    assert(0 <= q < bits) by (nonlinear_arith)
        requires
            r == sp * q + r % sp,
            0 <= r % sp < sp,
            0 <= r < bits * sp,
    ;
    assert(sp * q == q * sp) by (nonlinear_arith);
}

/// No two jobs of a sweep share a position: each has a cell of the result
/// table to itself.
pub proof fn lemma_jobs_do_not_alias(
    a: SimulationJob,
    b: SimulationJob,
    n_pu: nat,
    n_pd: nat,
    sweep_points: nat,
)
    requires
        a.valid(n_pu, n_pd, sweep_points),
        b.valid(n_pu, n_pd, sweep_points),
        a != b,
    ensures
        a.slot(n_pu, sweep_points) != b.slot(n_pu, sweep_points),
{
    lemma_slot_of_job(a, n_pu, n_pd, sweep_points);
    lemma_slot_of_job(b, n_pu, n_pd, sweep_points);
}

/// Appends the jobs of one family to the job matrix under construction.
fn push_leg_jobs(
    jobs: &mut Vec<SimulationJob>,
    leg: LegKind,
    bits: usize,
    n_pu: usize,
    sweep_points: usize,
)
    requires
        old(jobs)@.len() + bits * sweep_points <= usize::MAX,
        leg == LegKind::PullUp ==> old(jobs)@.len() == 0 && bits == n_pu,
        leg == LegKind::PullDown ==> old(jobs)@.len() == n_pu * sweep_points,
        forall|k: int|
            0 <= k < old(jobs)@.len() ==> old(jobs)@[k] == job_at(k, n_pu as nat, sweep_points as nat),
    ensures
        final(jobs)@.len() == old(jobs)@.len() + bits * sweep_points,
        forall|k: int|
            0 <= k < final(jobs)@.len() ==> final(jobs)@[k] == job_at(
                k,
                n_pu as nat,
                sweep_points as nat,
            ),
{
    let ghost base = jobs@.len() as int;
    let mut done: usize = 0;
    while done < bits
        invariant
            done <= bits,
            base + bits * sweep_points <= usize::MAX,
            leg == LegKind::PullUp ==> base == 0 && bits == n_pu,
            leg == LegKind::PullDown ==> base == n_pu * sweep_points,
            jobs@.len() == base + done * sweep_points,
            forall|k: int|
                0 <= k < jobs@.len() ==> jobs@[k] == job_at(k, n_pu as nat, sweep_points as nat),
        decreases bits - done,
    {
        let code: usize = done + 1;
        let mut bias_index: usize = 0;
        while bias_index < sweep_points
            invariant
                done < bits,
                code == done + 1,
                bias_index <= sweep_points,
                base + bits * sweep_points <= usize::MAX,
                leg == LegKind::PullUp ==> base == 0 && bits == n_pu,
                leg == LegKind::PullDown ==> base == n_pu * sweep_points,
                jobs@.len() == base + done * sweep_points + bias_index,
                forall|k: int|
                    0 <= k < jobs@.len() ==> jobs@[k] == job_at(
                        k,
                        n_pu as nat,
                        sweep_points as nat,
                    ),
            decreases sweep_points - bias_index,
        {
            let job = SimulationJob { leg, code, bias_index };
            proof {
                lemma_offset_in_leg(
                    code as int,
                    bias_index as int,
                    bits as int,
                    sweep_points as int,
                );
                assert(job_at(jobs@.len() as int, n_pu as nat, sweep_points as nat) == job);
            }
            jobs.push(job);
            bias_index = bias_index + 1;
        }
        proof {
            assert(done * sweep_points + sweep_points == (done + 1) * sweep_points)
                by (nonlinear_arith);
        }
        done = done + 1;
    }
}

/// Enumerates the job matrix of a sweep.
pub fn job_matrix(n_pu: usize, n_pd: usize, sweep_points: usize) -> (jobs: Vec<SimulationJob>)
    requires
        job_count(n_pu as nat, n_pd as nat, sweep_points as nat) <= usize::MAX,
    ensures
        jobs@ == job_matrix_view(n_pu as nat, n_pd as nat, sweep_points as nat),
{
    proof {
        assert((n_pu + n_pd) * sweep_points == n_pu * sweep_points + n_pd * sweep_points)
            by (nonlinear_arith);
        assert(0 <= n_pd * sweep_points) by (nonlinear_arith);
        assert(0 <= n_pu * sweep_points) by (nonlinear_arith);
    }
    let mut jobs: Vec<SimulationJob> = Vec::new();
    push_leg_jobs(&mut jobs, LegKind::PullUp, n_pu, n_pu, sweep_points);
    push_leg_jobs(&mut jobs, LegKind::PullDown, n_pd, n_pu, sweep_points);
    assert(jobs@ =~= job_matrix_view(n_pu as nat, n_pd as nat, sweep_points as nat));
    jobs
}

/// The bias point of an index: the supply voltage times the index, divided
/// by the number of bias points less one, both as `rust_decimal` computes
/// them. `None` where either step cannot be represented.
pub open spec fn bias_point(voltage: (int, nat), index: nat, sweep_points: nat) -> Option<
    (int, nat),
> {
    match decimal_product(voltage.0, voltage.1, index as int, 0) {
        Some(p) => decimal_quotient(p.0, p.1, sweep_points - 1, 0),
        None => None,
    }
}

/// Computes the bias point of an index. The bias point of index zero is
/// zero.
pub fn bias_voltage(voltage: Dec, index: usize, sweep_points: usize) -> (r: Option<Dec>)
    requires
        2 <= sweep_points,
    ensures
        opt_view(r) == bias_point(voltage@, index as nat, sweep_points as nat),
        index == 0 ==> opt_view(r) == Some((0int, 0nat)),
{
    match voltage.checked_mul(Dec::from_usize(index)) {
        Some(p) => p.checked_div(Dec::from_usize(sweep_points - 1)),
        None => None,
    }
}

/// Appends a computed bias point to the bias vector, or reports the index at
/// which none could be computed.
pub fn push_bias_point(points: &mut Vec<Dec>, point: Option<Dec>) -> (r: Result<(), SweepError>)
    ensures
        point matches Some(p) ==> r is Ok && final(points)@ == old(points)@.push(p),
        point is None ==> final(points)@ == old(points)@ && r == Err::<(), SweepError>(
            SweepError::BiasOutOfRange { index: old(points)@.len() as usize },
        ),
{
    match point {
        Some(p) => {
            points.push(p);
            Ok(())
        },
        None => Err(SweepError::BiasOutOfRange { index: points.len() }),
    }
}

/// Builds the bias vector: `sweep_points` evenly spaced voltages from zero to
/// the supply voltage, both included.
pub fn bias_voltages(voltage: Dec, sweep_points: usize) -> (r: Result<Vec<Dec>, SweepError>)
    ensures
        sweep_points < 2 ==> r == Err::<Vec<Dec>, SweepError>(SweepError::TooFewSweepPoints),
        sweep_points >= 2 ==> match r {
            Ok(points) => {
                &&& points@.len() == sweep_points
                &&& points@[0]@ == (0int, 0nat)
                &&& forall|i: int|
                    0 <= i < sweep_points ==> Some((#[trigger] points@[i])@) == bias_point(
                        voltage@,
                        i as nat,
                        sweep_points as nat,
                    )
            },
            Err(e) => {
                &&& e matches SweepError::BiasOutOfRange { index }
                &&& index < sweep_points
                &&& bias_point(voltage@, index as nat, sweep_points as nat) is None
                &&& forall|i: int|
                    0 <= i < index ==> (#[trigger] bias_point(
                        voltage@,
                        i as nat,
                        sweep_points as nat,
                    )) is Some
            },
        },
{
    if sweep_points < 2 {
        return Err(SweepError::TooFewSweepPoints);
    }
    let mut points: Vec<Dec> = Vec::new();
    let mut i: usize = 0;
    while i < sweep_points
        invariant
            2 <= sweep_points,
            i <= sweep_points,
            points@.len() == i,
            i > 0 ==> points@[0]@ == (0int, 0nat),
            forall|j: int|
                0 <= j < i ==> Some((#[trigger] points@[j])@) == bias_point(
                    voltage@,
                    j as nat,
                    sweep_points as nat,
                ),
        decreases sweep_points - i,
    {
        let point = bias_voltage(voltage, i, sweep_points);
        match push_bias_point(&mut points, point) {
            Ok(()) => {},
            Err(e) => {
                assert forall|j: int| 0 <= j < i implies (#[trigger] bias_point(
                    voltage@,
                    j as nat,
                    sweep_points as nat,
                )) is Some by {
                    assert(Some(points@[j]@) == bias_point(
                        voltage@,
                        j as nat,
                        sweep_points as nat,
                    ));
                }
                return Err(e);
            },
        }
        i = i + 1;
    }
    Ok(points)
}

/// The pull-up mask of a job: the thermometer mask of its code where the
/// pull-up legs are swept, all legs enabled where they are not.
pub open spec fn pull_up_mask(job: SimulationJob, n_pu: nat) -> Seq<bool> {
    match job.leg {
        LegKind::PullUp => thermometer(job.code as nat, n_pu),
        LegKind::PullDown => thermometer(n_pu, n_pu),
    }
}

/// The pull-down mask of a job: the thermometer mask of its code where the
/// pull-down legs are swept, all legs enabled where they are not.
pub open spec fn pull_down_mask(job: SimulationJob, n_pd: nat) -> Seq<bool> {
    match job.leg {
        LegKind::PullUp => thermometer(n_pd, n_pd),
        LegKind::PullDown => thermometer(job.code as nat, n_pd),
    }
}

/// Builds the pull-up and the pull-down mask of a job.
pub fn job_masks(job: &SimulationJob, n_pu: usize, n_pd: usize) -> (masks: (Vec<bool>, Vec<bool>))
    requires
        job.code <= leg_bits(job.leg, n_pu as nat, n_pd as nat),
    ensures
        masks.0@ == pull_up_mask(*job, n_pu as nat),
        masks.1@ == pull_down_mask(*job, n_pd as nat),
{
    match job.leg {
        LegKind::PullUp => (code_to_thermometer(job.code, n_pu), code_to_thermometer(n_pd, n_pd)),
        LegKind::PullDown => (code_to_thermometer(n_pu, n_pu), code_to_thermometer(job.code, n_pd)),
    }
}

/// The codes that a family of `bits` legs is swept over: `1..=bits`.
pub open spec fn code_vector(bits: nat) -> Seq<usize> {
    Seq::new(bits, |i: int| (i + 1) as usize)
}

/// Lists the codes that a family of `bits` legs is swept over.
pub fn sweep_codes(bits: usize) -> (codes: Vec<usize>)
    ensures
        codes@ == code_vector(bits as nat),
{
    let mut codes: Vec<usize> = Vec::new();
    let mut i: usize = 0;
    while i < bits
        invariant
            i <= bits,
            codes@ == code_vector(i as nat),
        decreases bits - i,
    {
        codes.push(i + 1);
        assert(codes@ =~= code_vector((i + 1) as nat));
        i = i + 1;
    }
    codes
}

/// One job of a sweep with all that its testbench is built from.
pub struct PlannedJob {
    /// Which simulation this is.
    pub job: SimulationJob,
    /// The input bias voltage.
    pub vin: Dec,
    /// The pull-up enable mask.
    pub pu_mask: Vec<bool>,
    /// The pull-down enable mask.
    pub pd_mask: Vec<bool>,
    /// The name of the directory that the simulation works in.
    pub dir_name: String,
}

impl PlannedJob {
    /// The testbench of the job around a driver, at a corner and over a
    /// frequency range: it has the bias voltage and the masks of the job.
    pub fn testbench<T, PDK, C>(self, params: DriverSimParams<T, C>) -> (tb: DriverAcTb<T, PDK, C>)
        ensures
            tb.dut == params.driver,
            tb.fstart == params.fstart,
            tb.fstop == params.fstop,
            tb.pvt == params.pvt,
            tb.vin == self.vin,
            tb.pu_mask == self.pu_mask,
            tb.pd_mask == self.pd_mask,
    {
        DriverAcTb::new(
            params.driver,
            params.fstart,
            params.fstop,
            self.vin,
            self.pu_mask,
            self.pd_mask,
            params.pvt,
        )
    }

    /// Whether this is what the sweep plans for `job`.
    pub open spec fn plans(
        self,
        job: SimulationJob,
        voltage: (int, nat),
        n_pu: nat,
        n_pd: nat,
        sweep_points: nat,
    ) -> bool {
        &&& self.job == job
        &&& Some(self.vin@) == bias_point(voltage, job.bias_index as nat, sweep_points)
        &&& self.pu_mask@ == pull_up_mask(job, n_pu)
        &&& self.pd_mask@ == pull_down_mask(job, n_pd)
        &&& self.dir_name@ == dir_name_view(job)
    }
}

/// All the simulations of a sweep, in the order of the job matrix, with the
/// vectors that the result table is labelled with.
pub struct SweepPlan {
    /// The bias vector.
    pub vin: Vec<Dec>,
    /// The pull-up codes, `1..=n_pu`.
    pub pu_codes: Vec<usize>,
    /// The pull-down codes, `1..=n_pd`.
    pub pd_codes: Vec<usize>,
    /// The jobs.
    pub jobs: Vec<PlannedJob>,
}

/// Plans the sweep of a driver with `n_pu` pull-up and `n_pd` pull-down
/// legs: the bias vector and one job for each leg family, code and bias
/// point.
///
/// Nothing is planned for fewer than two bias points, for more jobs than
/// can be counted, or where a bias point cannot be represented, in this
/// order of precedence.
pub fn plan_sweep<T, C>(params: &DriverSimParams<T, C>, n_pu: usize, n_pd: usize) -> (r: Result<
    SweepPlan,
    SweepError,
>)
    ensures
        params.sweep_points < 2 ==> r == Err::<SweepPlan, SweepError>(SweepError::TooFewSweepPoints),
        params.sweep_points >= 2 && job_count(
            n_pu as nat,
            n_pd as nat,
            params.sweep_points as nat,
        ) > usize::MAX ==> r == Err::<SweepPlan, SweepError>(SweepError::TooManyJobs),
        params.sweep_points >= 2 && job_count(
            n_pu as nat,
            n_pd as nat,
            params.sweep_points as nat,
        ) <= usize::MAX ==> match r {
            Ok(plan) => {
                &&& plan.vin@.len() == params.sweep_points
                &&& plan.vin@[0]@ == (0int, 0nat)
                &&& forall|i: int|
                    0 <= i < params.sweep_points ==> Some((#[trigger] plan.vin@[i])@) == bias_point(
                        params.pvt.voltage@,
                        i as nat,
                        params.sweep_points as nat,
                    )
                &&& plan.pu_codes@ == code_vector(n_pu as nat)
                &&& plan.pd_codes@ == code_vector(n_pd as nat)
                &&& plan.jobs@.len() == job_count(
                    n_pu as nat,
                    n_pd as nat,
                    params.sweep_points as nat,
                )
                &&& forall|k: int|
                    0 <= k < plan.jobs@.len() ==> (#[trigger] plan.jobs@[k]).plans(
                        job_at(k, n_pu as nat, params.sweep_points as nat),
                        params.pvt.voltage@,
                        n_pu as nat,
                        n_pd as nat,
                        params.sweep_points as nat,
                    )
            },
            Err(e) => {
                &&& e matches SweepError::BiasOutOfRange { index }
                &&& index < params.sweep_points
                &&& bias_point(
                    params.pvt.voltage@,
                    index as nat,
                    params.sweep_points as nat,
                ) is None
                &&& forall|i: int|
                    0 <= i < index ==> (#[trigger] bias_point(
                        params.pvt.voltage@,
                        i as nat,
                        params.sweep_points as nat,
                    )) is Some
            },
        },
{
    let sweep_points = params.sweep_points;
    if sweep_points < 2 {
        return Err(SweepError::TooFewSweepPoints);
    }
    let count = match n_pu.checked_add(n_pd) {
        Some(legs) => legs.checked_mul(sweep_points),
        None => {
            proof {
                assert((n_pu + n_pd) * sweep_points > usize::MAX) by (nonlinear_arith)
                    requires
                        n_pu + n_pd > usize::MAX,
                        sweep_points >= 2,
                ;
            }
            None
        },
    };
    if count.is_none() {
        return Err(SweepError::TooManyJobs);
    }
    let vin = match bias_voltages(params.pvt.voltage, sweep_points) {
        Ok(points) => points,
        Err(e) => {
            return Err(e);
        },
    };
    let keys = job_matrix(n_pu, n_pd, sweep_points);
    let mut jobs: Vec<PlannedJob> = Vec::new();
    let mut k: usize = 0;
    while k < keys.len()
        invariant
            k <= keys@.len(),
            2 <= sweep_points,
            sweep_points == params.sweep_points,
            keys@ == job_matrix_view(n_pu as nat, n_pd as nat, sweep_points as nat),
            keys@.len() == job_count(n_pu as nat, n_pd as nat, sweep_points as nat),
            vin@.len() == sweep_points,
            vin@[0]@ == (0int, 0nat),
            forall|i: int|
                0 <= i < sweep_points ==> Some((#[trigger] vin@[i])@) == bias_point(
                    params.pvt.voltage@,
                    i as nat,
                    sweep_points as nat,
                ),
            jobs@.len() == k,
            forall|j: int|
                0 <= j < k ==> (#[trigger] jobs@[j]).plans(
                    job_at(j, n_pu as nat, sweep_points as nat),
                    params.pvt.voltage@,
                    n_pu as nat,
                    n_pd as nat,
                    sweep_points as nat,
                ),
        decreases keys@.len() - k,
    {
        let job = keys[k];
        proof {
            lemma_job_of_slot(k as int, n_pu as nat, n_pd as nat, sweep_points as nat);
        }
        let (pu_mask, pd_mask) = job_masks(&job, n_pu, n_pd);
        let planned = PlannedJob {
            job,
            vin: vin[job.bias_index],
            pu_mask,
            pd_mask,
            dir_name: job_dir_name(&job),
        };
        jobs.push(planned);
        k = k + 1;
    }
    Ok(SweepPlan { vin, pu_codes: sweep_codes(n_pu), pd_codes: sweep_codes(n_pd), jobs })
}

} // verus!
