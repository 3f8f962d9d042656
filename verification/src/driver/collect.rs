//! Assembling the result table of a sweep from the reports of its jobs.
//!
//! Reports may arrive in any order. The cell that a report fills is fixed by
//! its job alone, every cell is filled once, and the frequency points have to
//! be the same in all reports.

use vstd::prelude::*;
use crate::decimal::Dec;
use crate::driver::sweep::{
    job_at,
    job_count,
    lemma_job_of_slot,
    lemma_offset_in_leg,
    lemma_slot_of_job,
    sweep_codes,
    LegKind,
    SimulationJob,
    SweepError,
};
use crate::driver::tb::{curves, DriverAcSims};

verus! {

/// How a job ended.
pub enum JobOutcome {
    /// The simulation ran: the frequency points and, for each, the extracted
    /// resistance, as bit patterns of double-precision numbers.
    Completed {
        /// The frequency points.
        freq: Vec<u64>,
        /// The resistance at each frequency point.
        resistance: Vec<u64>,
    },
    /// The simulator reported a failure.
    Failed,
    /// The job ended abnormally.
    Aborted,
}

/// What came back from one job.
pub struct JobReport {
    /// The job.
    pub job: SimulationJob,
    /// How it ended.
    pub outcome: JobOutcome,
}

/// A report that went into the table.
pub struct Accepted {
    /// The job.
    pub job: SimulationJob,
    /// Its frequency points.
    pub freq: Seq<u64>,
    /// Its resistance curve.
    pub resistance: Seq<u64>,
}

/// The result table of a sweep while the reports come in.
pub struct SweepCollector {
    n_pu: usize,
    n_pd: usize,
    sweep_points: usize,
    sims: DriverAcSims,
    filled: Vec<bool>,
    started: bool,
    accepted: Ghost<Seq<Accepted>>,
}

/// Whether two vectors hold the same samples.
pub fn same_samples(a: &Vec<u64>, b: &Vec<u64>) -> (same: bool)
    ensures
        same == (a@ == b@),
{
    if a.len() != b.len() {
        return false;
    }
    let mut i: usize = 0;
    while i < a.len()
        invariant
            i <= a@.len(),
            a@.len() == b@.len(),
            forall|j: int| 0 <= j < i ==> a@[j] == b@[j],
        decreases a@.len() - i,
    {
        if a[i] != b[i] {
            return false;
        }
        i = i + 1;
    }
    assert(a@ =~= b@);
    true
}

/// A table of `rows` rows of `columns` empty curves.
fn empty_table(rows: usize, columns: usize) -> (table: Vec<Vec<Vec<u64>>>)
    ensures
        table@.len() == rows,
        forall|c: int| 0 <= c < rows ==> (#[trigger] table@[c])@.len() == columns,
        forall|c: int, b: int|
            0 <= c < rows && 0 <= b < columns ==> (#[trigger] table@[c]@[b])@.len() == 0,
{
    let mut table: Vec<Vec<Vec<u64>>> = Vec::new();
    let mut c: usize = 0;
    while c < rows
        invariant
            c <= rows,
            table@.len() == c,
            forall|i: int| 0 <= i < c ==> (#[trigger] table@[i])@.len() == columns,
            forall|i: int, b: int|
                0 <= i < c && 0 <= b < columns ==> (#[trigger] table@[i]@[b])@.len() == 0,
        decreases rows - c,
    {
        let mut row: Vec<Vec<u64>> = Vec::new();
        let mut b: usize = 0;
        while b < columns
            invariant
                b <= columns,
                row@.len() == b,
                forall|i: int| 0 <= i < b ==> (#[trigger] row@[i])@.len() == 0,
            decreases columns - b,
        {
            row.push(Vec::new());
            b = b + 1;
        }
        table.push(row);
        c = c + 1;
    }
    table
}

/// The job at a position of the job matrix.
pub fn job_of_slot(slot: usize, n_pu: usize, n_pd: usize, sweep_points: usize) -> (job:
    SimulationJob)
    requires
        slot < job_count(n_pu as nat, n_pd as nat, sweep_points as nat) <= usize::MAX,
    ensures
        job == job_at(slot as int, n_pu as nat, sweep_points as nat),
        job.valid(n_pu as nat, n_pd as nat, sweep_points as nat),
        job.slot(n_pu as nat, sweep_points as nat) == slot,
{
    proof {
        lemma_job_of_slot(slot as int, n_pu as nat, n_pd as nat, sweep_points as nat);
        assert((n_pu + n_pd) * sweep_points == n_pu * sweep_points + n_pd * sweep_points)
            by (nonlinear_arith);
        assert(0 <= n_pd * sweep_points) by (nonlinear_arith);
        assert(sweep_points > 0) by (nonlinear_arith)
            requires
                0 <= slot < (n_pu + n_pd) * sweep_points,
        ;
    }
    let split = n_pu * sweep_points;
    if slot < split {
        SimulationJob {
            leg: LegKind::PullUp,
            code: slot / sweep_points + 1,
            bias_index: slot % sweep_points,
        }
    } else {
        SimulationJob {
            leg: LegKind::PullDown,
            code: (slot - split) / sweep_points + 1,
            bias_index: (slot - split) % sweep_points,
        }
    }
}

/// The position of a job in the job matrix, if it is a job of the sweep.
pub fn slot_of_job(job: &SimulationJob, n_pu: usize, n_pd: usize, sweep_points: usize) -> (slot:
    Option<usize>)
    requires
        job_count(n_pu as nat, n_pd as nat, sweep_points as nat) <= usize::MAX,
    ensures
        slot is Some <==> job.valid(n_pu as nat, n_pd as nat, sweep_points as nat),
        slot matches Some(s) ==> s == job.slot(n_pu as nat, sweep_points as nat) && s < job_count(
            n_pu as nat,
            n_pd as nat,
            sweep_points as nat,
        ),
{
    let bits = match job.leg {
        LegKind::PullUp => n_pu,
        LegKind::PullDown => n_pd,
    };
    if job.code < 1 || job.code > bits || job.bias_index >= sweep_points {
        return None;
    }
    proof {
        lemma_slot_of_job(*job, n_pu as nat, n_pd as nat, sweep_points as nat);
        lemma_offset_in_leg(
            job.code as int,
            job.bias_index as int,
            bits as int,
            sweep_points as int,
        );
        assert((n_pu + n_pd) * sweep_points == n_pu * sweep_points + n_pd * sweep_points)
            by (nonlinear_arith);
        assert(0 <= n_pd * sweep_points) by (nonlinear_arith);
        assert(0 <= n_pu * sweep_points) by (nonlinear_arith);
        assert(0 <= (job.code - 1) * sweep_points) by (nonlinear_arith)
            requires
                job.code >= 1,
        ;
    }
    let within = (job.code - 1) * sweep_points + job.bias_index;
    match job.leg {
        LegKind::PullUp => Some(within),
        LegKind::PullDown => Some(n_pu * sweep_points + within),
    }
}

impl SweepCollector {
    /// The number of pull-up legs of the driver.
    pub closed spec fn n_pu(&self) -> nat {
        self.n_pu as nat
    }

    /// The number of pull-down legs of the driver.
    pub closed spec fn n_pd(&self) -> nat {
        self.n_pd as nat
    }

    /// The number of bias points.
    pub closed spec fn sweep_points(&self) -> nat {
        self.sweep_points as nat
    }

    /// The table as it stands.
    pub closed spec fn table(&self) -> DriverAcSims {
        self.sims
    }

    /// The reports that went into the table, in the order of their arrival.
    pub closed spec fn accepted(&self) -> Seq<Accepted> {
        self.accepted@
    }

    /// Whether a report of this job went into the table.
    pub open spec fn reported(&self, job: SimulationJob) -> bool {
        exists|k: int|
            0 <= k < self.accepted().len() && (#[trigger] self.accepted()[k]).job == job
    }

    /// Whether a report of every job of the sweep went into the table.
    pub open spec fn complete(&self) -> bool {
        forall|job: SimulationJob|
            job.valid(self.n_pu(), self.n_pd(), self.sweep_points()) ==> #[trigger] self.reported(
                job,
            )
    }

    /// What holds of the table for the reports that went into it: each is
    /// of a job of the sweep and of no other report's job, stands in the
    /// cell of its job, has the table's frequency points, and has one
    /// resistance for each of them.
    pub open spec fn holds_accepted(&self) -> bool {
        &&& self.table().shaped(self.n_pu(), self.n_pd(), self.sweep_points())
        &&& forall|k: int|
            0 <= k < self.accepted().len() ==> {
                let a = #[trigger] self.accepted()[k];
                &&& a.job.valid(self.n_pu(), self.n_pd(), self.sweep_points())
                &&& self.table().curve(a.job) == a.resistance
                &&& self.table().freq@ == a.freq
                &&& a.resistance.len() == a.freq.len()
            }
        &&& forall|j: int, k: int|
            0 <= j < k < self.accepted().len() ==> (#[trigger] self.accepted()[j]).job != (
            #[trigger] self.accepted()[k]).job
        &&& self.accepted().len() == 0 ==> self.table().freq@.len() == 0
    }

    /// The invariant of a collector.
    pub closed spec fn wf(&self) -> bool {
        &&& job_count(self.n_pu(), self.n_pd(), self.sweep_points()) <= usize::MAX
        &&& self.holds_accepted()
        &&& self.filled@.len() == job_count(self.n_pu(), self.n_pd(), self.sweep_points())
        &&& self.started == (self.accepted@.len() > 0)
        &&& forall|job: SimulationJob|
            job.valid(self.n_pu(), self.n_pd(), self.sweep_points()) ==> (self.filled@[job.slot(
                self.n_pu(),
                self.sweep_points(),
            )] <==> #[trigger] self.reported(job))
    }

    /// A well-formed collector holds its reports as
    /// [`holds_accepted`](Self::holds_accepted) says.
    pub proof fn lemma_holds_accepted(&self)
        requires
            self.wf(),
        ensures
            self.holds_accepted(),
    {
    }

    /// Whether this very report went into the table.
    pub open spec fn took(&self, entry: Accepted) -> bool {
        exists|j: int| 0 <= j < self.accepted().len() && #[trigger] self.accepted()[j] == entry
    }

    /// The order in which the reports arrive does not matter: once every
    /// job of a sweep has been reported, another collector of the same sweep
    /// that took the same reports holds the same curves and the same
    /// frequency points.
    pub proof fn lemma_order_does_not_matter(&self, other: &SweepCollector)
        requires
            self.wf(),
            other.wf(),
            self.n_pu() == other.n_pu(),
            self.n_pd() == other.n_pd(),
            self.sweep_points() == other.sweep_points(),
            self.complete(),
            forall|k: int|
                0 <= k < self.accepted().len() ==> other.took(#[trigger] self.accepted()[k]),
        ensures
            curves(self.table().r_pu) == curves(other.table().r_pu),
            curves(self.table().r_pd) == curves(other.table().r_pd),
            self.table().freq@ == other.table().freq@,
    {
        let n_pu = self.n_pu();
        let n_pd = self.n_pd();
        let sp = self.sweep_points();
        assert forall|job: SimulationJob| job.valid(n_pu, n_pd, sp) implies self.table().curve(job)
            == other.table().curve(job) && self.table().freq@ == other.table().freq@ by {
            assert(self.reported(job));
            let k = choose|k: int|
                0 <= k < self.accepted().len() && (#[trigger] self.accepted()[k]).job == job;
            assert(other.took(self.accepted()[k]));
            let j = choose|j: int|
                0 <= j < other.accepted().len() && #[trigger] other.accepted()[j]
                    == self.accepted()[k];
            assert(other.accepted()[j].job == job);
        }
        assert(curves(self.table().r_pu) =~~= curves(other.table().r_pu)) by {
            assert forall|c: int, b: int| 0 <= c < n_pu && 0 <= b < sp implies self.table().r_pu@[c]@[b]@
                == other.table().r_pu@[c]@[b]@ by {
                let job = SimulationJob {
                    leg: LegKind::PullUp,
                    code: (c + 1) as usize,
                    bias_index: b as usize,
                };
                assert(job.valid(n_pu, n_pd, sp));
                assert(self.table().curve(job) == other.table().curve(job));
            }
        }
        assert(curves(self.table().r_pd) =~~= curves(other.table().r_pd)) by {
            assert forall|c: int, b: int| 0 <= c < n_pd && 0 <= b < sp implies self.table().r_pd@[c]@[b]@
                == other.table().r_pd@[c]@[b]@ by {
                let job = SimulationJob {
                    leg: LegKind::PullDown,
                    code: (c + 1) as usize,
                    bias_index: b as usize,
                };
                assert(job.valid(n_pu, n_pd, sp));
                assert(self.table().curve(job) == other.table().curve(job));
            }
        }
        if self.accepted().len() > 0 {
            let job = self.accepted()[0].job;
            assert(job.valid(n_pu, n_pd, sp));
        } else {
            if other.accepted().len() > 0 {
                let job = other.accepted()[0].job;
                assert(job.valid(n_pu, n_pd, sp));
                assert(self.reported(job));
            }
        }
    }

    /// Why a report cannot go into the table, if it cannot: its job is not
    /// of the sweep, or was reported before, or did not complete, or has
    /// other frequency points than the reports before it, or has not one
    /// resistance for each frequency point.
    pub open spec fn fault(&self, report: JobReport) -> Option<SweepError> {
        if !report.job.valid(self.n_pu(), self.n_pd(), self.sweep_points()) {
            Some(SweepError::UnknownJob(report.job))
        } else if self.reported(report.job) {
            Some(SweepError::DuplicateJob(report.job))
        } else {
            match report.outcome {
                JobOutcome::Failed => Some(SweepError::JobFailed(report.job)),
                JobOutcome::Aborted => Some(SweepError::JobAborted(report.job)),
                JobOutcome::Completed { freq, resistance } => if self.accepted().len() > 0
                    && freq@ != self.table().freq@ {
                    Some(SweepError::FrequencyMismatch(report.job))
                } else if resistance@.len() != freq@.len() {
                    Some(SweepError::CurveLengthMismatch(report.job))
                } else {
                    None
                },
            }
        }
    }

    /// An empty table for a sweep of a driver with `n_pu` pull-up and `n_pd`
    /// pull-down legs over the bias points `vin`, or `TooManyJobs` where the
    /// jobs of such a sweep cannot be counted.
    pub fn new(n_pu: usize, n_pd: usize, vin: Vec<Dec>) -> (r: Result<SweepCollector, SweepError>)
        ensures
            job_count(n_pu as nat, n_pd as nat, vin@.len()) <= usize::MAX ==> (r matches Ok(c) && {
                &&& c.wf()
                &&& c.n_pu() == n_pu
                &&& c.n_pd() == n_pd
                &&& c.sweep_points() == vin@.len()
                &&& c.accepted().len() == 0
                &&& c.table().vin == vin
            }),
            job_count(n_pu as nat, n_pd as nat, vin@.len()) > usize::MAX ==> r matches Err(
                SweepError::TooManyJobs,
            ),
    {
        let sweep_points = vin.len();
        let count = match n_pu.checked_add(n_pd) {
            Some(legs) => legs.checked_mul(sweep_points),
            None => {
                if sweep_points == 0 {
                    proof {
                        assert((n_pu + n_pd) * 0 == 0) by (nonlinear_arith);
                    }
                    Some(0)
                } else {
                    proof {
                        assert((n_pu + n_pd) * sweep_points > usize::MAX) by (nonlinear_arith)
                            requires
                                n_pu + n_pd > usize::MAX,
                                sweep_points > 0,
                        ;
                    }
                    None
                }
            },
        };
        let count = match count {
            Some(count) => count,
            None => {
                return Err(SweepError::TooManyJobs);
            },
        };
        let mut filled: Vec<bool> = Vec::new();
        let mut s: usize = 0;
        while s < count
            invariant
                s <= count,
                filled@.len() == s,
                forall|i: int| 0 <= i < s ==> !(#[trigger] filled@[i]),
            decreases count - s,
        {
            filled.push(false);
            s = s + 1;
        }
        let sims = DriverAcSims {
            r_pu: empty_table(n_pu, sweep_points),
            r_pd: empty_table(n_pd, sweep_points),
            freq: Vec::new(),
            vin,
            pu_codes: sweep_codes(n_pu),
            pd_codes: sweep_codes(n_pd),
        };
        let collector = SweepCollector {
            n_pu,
            n_pd,
            sweep_points,
            sims,
            filled,
            started: false,
            accepted: Ghost(Seq::empty()),
        };
        proof {
            assert forall|job: SimulationJob|
                job.valid(
                    collector.n_pu(),
                    collector.n_pd(),
                    collector.sweep_points(),
                ) implies (collector.filled@[job.slot(collector.n_pu(), collector.sweep_points())]
                <==> #[trigger] collector.reported(job)) by {
                lemma_slot_of_job(job, n_pu as nat, n_pd as nat, sweep_points as nat);
            }
        }
        Ok(collector)
    }

    /// Takes one report into the table, or says why it cannot go there and
    /// leaves the table as it was.
    pub fn record(&mut self, report: JobReport) -> (r: Result<(), SweepError>)
        requires
            old(self).wf(),
        ensures
            final(self).wf(),
            final(self).n_pu() == old(self).n_pu(),
            final(self).n_pd() == old(self).n_pd(),
            final(self).sweep_points() == old(self).sweep_points(),
            final(self).table().vin == old(self).table().vin,
            match r {
                Ok(()) => {
                    &&& old(self).fault(report) is None
                    &&& report.outcome matches JobOutcome::Completed { freq, resistance }
                    &&& final(self).accepted() == old(self).accepted().push(
                        Accepted { job: report.job, freq: freq@, resistance: resistance@ },
                    )
                },
                Err(e) => {
                    &&& old(self).fault(report) == Some(e)
                    &&& final(self).accepted() == old(self).accepted()
                    &&& final(self).table() == old(self).table()
                },
            },
    {
        let job = report.job;
        let slot = match slot_of_job(&job, self.n_pu, self.n_pd, self.sweep_points) {
            Some(slot) => slot,
            None => {
                return Err(SweepError::UnknownJob(job));
            },
        };
        proof {
            lemma_slot_of_job(job, self.n_pu(), self.n_pd(), self.sweep_points());
        }
        if self.filled[slot] {
            return Err(SweepError::DuplicateJob(job));
        }
        assert(!self.reported(job));
        match report.outcome {
            JobOutcome::Failed => Err(SweepError::JobFailed(job)),
            JobOutcome::Aborted => Err(SweepError::JobAborted(job)),
            JobOutcome::Completed { freq, resistance } => {
                if self.started && !same_samples(&freq, &self.sims.freq) {
                    return Err(SweepError::FrequencyMismatch(job));
                }
                if resistance.len() != freq.len() {
                    return Err(SweepError::CurveLengthMismatch(job));
                }
                let ghost entry = Accepted { job, freq: freq@, resistance: resistance@ };
                let ghost before = *self;
                self.sims.freq = freq;
                match job.leg {
                    LegKind::PullUp => {
                        self.sims.r_pu[job.code - 1][job.bias_index] = resistance;
                    },
                    LegKind::PullDown => {
                        self.sims.r_pd[job.code - 1][job.bias_index] = resistance;
                    },
                }
                self.filled[slot] = true;
                self.started = true;
                proof {
                    self.accepted = Ghost(self.accepted@.push(entry));
                    assert forall|k: int| 0 <= k < self.accepted@.len() implies {
                        let a = #[trigger] self.accepted@[k];
                        &&& a.job.valid(self.n_pu(), self.n_pd(), self.sweep_points())
                        &&& self.table().curve(a.job) == a.resistance
                        &&& self.table().freq@ == a.freq
                        &&& a.resistance.len() == a.freq.len()
                    } by {
                        if k < before.accepted@.len() {
                            let a = before.accepted@[k];
                            assert(before.reported(a.job));
                            assert(a.job != job);
                            assert(before.table().curve(a.job) == a.resistance);
                        }
                    }
                    assert forall|other: SimulationJob|
                        other.valid(
                            self.n_pu(),
                            self.n_pd(),
                            self.sweep_points(),
                        ) implies (self.filled@[other.slot(self.n_pu(), self.sweep_points())]
                        <==> #[trigger] self.reported(other)) by {
                        lemma_slot_of_job(other, self.n_pu(), self.n_pd(), self.sweep_points());
                        if other == job {
                            assert(self.accepted()[self.accepted().len() - 1].job == job);
                        } else {
                            assert(other.slot(self.n_pu(), self.sweep_points()) != slot);
                            if before.reported(other) {
                                let k = choose|k: int|
                                    0 <= k < before.accepted().len() && (
                                    #[trigger] before.accepted()[k]).job == other;
                                assert(self.accepted()[k].job == other);
                            }
                            if self.reported(other) {
                                let k = choose|k: int|
                                    0 <= k < self.accepted().len() && (
                                    #[trigger] self.accepted()[k]).job == other;
                                assert(before.accepted()[k].job == other);
                            }
                        }
                    }
                }
                Ok(())
            },
        }
    }

    /// Hands out the table once every job of the sweep has been reported,
    /// and else names the first job of the job matrix that has not.
    pub fn finish(self) -> (r: Result<DriverAcSims, SweepError>)
        requires
            self.wf(),
        ensures
            match r {
                Ok(sims) => self.complete() && sims == self.table(),
                Err(e) => exists|m: int|
                    {
                        &&& 0 <= m < job_count(self.n_pu(), self.n_pd(), self.sweep_points())
                        &&& e == SweepError::MissingJob(
                            #[trigger] job_at(m, self.n_pu(), self.sweep_points()),
                        )
                        &&& !self.reported(job_at(m, self.n_pu(), self.sweep_points()))
                        &&& forall|i: int|
                            0 <= i < m ==> self.reported(
                                #[trigger] job_at(i, self.n_pu(), self.sweep_points()),
                            )
                    },
            },
    {
        let mut m: usize = 0;
        while m < self.filled.len()
            invariant
                self.wf(),
                m <= self.filled@.len(),
                forall|i: int| 0 <= i < m ==> #[trigger] self.filled@[i],
            decreases self.filled@.len() - m,
        {
            if !self.filled[m] {
                let job = job_of_slot(m, self.n_pu, self.n_pd, self.sweep_points);
                proof {
                    assert(!self.reported(job));
                    assert forall|i: int| 0 <= i < m implies self.reported(
                        #[trigger] job_at(i, self.n_pu(), self.sweep_points()),
                    ) by {
                        lemma_job_of_slot(i, self.n_pu(), self.n_pd(), self.sweep_points());
                        assert(self.filled@[i]);
                    }
                }
                return Err(SweepError::MissingJob(job));
            }
            m = m + 1;
        }
        proof {
            assert forall|job: SimulationJob|
                job.valid(
                    self.n_pu(),
                    self.n_pd(),
                    self.sweep_points(),
                ) implies #[trigger] self.reported(job) by {
                lemma_slot_of_job(job, self.n_pu(), self.n_pd(), self.sweep_points());
                assert(self.filled@[job.slot(self.n_pu(), self.sweep_points())]);
            }
        }
        Ok(self.sims)
    }
}

/// The frequency points of the first report of a stream.
pub open spec fn first_freq(reports: Seq<JobReport>) -> Seq<u64> {
    match reports[0].outcome {
        JobOutcome::Completed { freq, resistance } => freq@,
        _ => Seq::empty(),
    }
}

/// The resistance curve of a report.
pub open spec fn reported_curve(report: JobReport) -> Seq<u64> {
    match report.outcome {
        JobOutcome::Completed { freq, resistance } => resistance@,
        _ => Seq::empty(),
    }
}

/// Why the report at position `k` of a stream cannot go into the table after
/// those before it, if it cannot: its job is not of the sweep, or was
/// reported before, or did not complete, or has other frequency points than
/// the first report, or has not one resistance for each frequency point.
pub open spec fn stream_fault(
    reports: Seq<JobReport>,
    k: int,
    n_pu: nat,
    n_pd: nat,
    sweep_points: nat,
) -> Option<SweepError> {
    let report = reports[k];
    if !report.job.valid(n_pu, n_pd, sweep_points) {
        Some(SweepError::UnknownJob(report.job))
    } else if exists|j: int| 0 <= j < k && (#[trigger] reports[j]).job == report.job {
        Some(SweepError::DuplicateJob(report.job))
    } else {
        match report.outcome {
            JobOutcome::Failed => Some(SweepError::JobFailed(report.job)),
            JobOutcome::Aborted => Some(SweepError::JobAborted(report.job)),
            JobOutcome::Completed { freq, resistance } => if k > 0 && freq@ != first_freq(reports) {
                Some(SweepError::FrequencyMismatch(report.job))
            } else if resistance@.len() != freq@.len() {
                Some(SweepError::CurveLengthMismatch(report.job))
            } else {
                None
            },
        }
    }
}

/// Whether a stream holds a report of a job.
pub open spec fn stream_reports(reports: Seq<JobReport>, job: SimulationJob) -> bool {
    exists|k: int| 0 <= k < reports.len() && (#[trigger] reports[k]).job == job
}

/// Assembles the result table of a sweep of a driver with `n_pu` pull-up and
/// `n_pd` pull-down legs over the bias points `vin` from the reports of its
/// jobs, which may stand in any order.
///
/// The run fails as a whole: on the first report that cannot go into the
/// table, and, where all can, on the first job of the job matrix that no
/// report is of.
pub fn assemble(n_pu: usize, n_pd: usize, vin: Vec<Dec>, reports: Vec<JobReport>) -> (r: Result<
    DriverAcSims,
    SweepError,
>)
    ensures
        job_count(n_pu as nat, n_pd as nat, vin@.len()) > usize::MAX ==> r matches Err(
            SweepError::TooManyJobs,
        ),
        job_count(n_pu as nat, n_pd as nat, vin@.len()) <= usize::MAX ==> match r {
            Ok(sims) => {
                &&& sims.shaped(n_pu as nat, n_pd as nat, vin@.len())
                &&& sims.vin == vin
                &&& forall|k: int|
                    0 <= k < reports@.len() ==> (#[trigger] stream_fault(
                        reports@,
                        k,
                        n_pu as nat,
                        n_pd as nat,
                        vin@.len(),
                    )) is None
                &&& forall|k: int|
                    0 <= k < reports@.len() ==> sims.curve((#[trigger] reports@[k]).job)
                        == reported_curve(reports@[k])
                &&& forall|k: int|
                    0 <= k < reports@.len() ==> reported_curve(#[trigger] reports@[k]).len()
                        == sims.freq@.len()
                &&& forall|job: SimulationJob|
                    job.valid(n_pu as nat, n_pd as nat, vin@.len()) ==> #[trigger] stream_reports(
                        reports@,
                        job,
                    )
                &&& reports@.len() > 0 ==> sims.freq@ == first_freq(reports@)
                &&& reports@.len() == 0 ==> sims.freq@.len() == 0
            },
            Err(e) => {
                ||| exists|k: int|
                    {
                        &&& 0 <= k < reports@.len()
                        &&& (#[trigger] stream_fault(
                            reports@,
                            k,
                            n_pu as nat,
                            n_pd as nat,
                            vin@.len(),
                        )) == Some(e)
                        &&& forall|j: int|
                            0 <= j < k ==> (#[trigger] stream_fault(
                                reports@,
                                j,
                                n_pu as nat,
                                n_pd as nat,
                                vin@.len(),
                            )) is None
                    }
                ||| {
                    &&& forall|k: int|
                        0 <= k < reports@.len() ==> (#[trigger] stream_fault(
                            reports@,
                            k,
                            n_pu as nat,
                            n_pd as nat,
                            vin@.len(),
                        )) is None
                    &&& exists|m: int|
                        {
                            &&& 0 <= m < job_count(n_pu as nat, n_pd as nat, vin@.len())
                            &&& e == SweepError::MissingJob(
                                #[trigger] job_at(m, n_pu as nat, vin@.len()),
                            )
                            &&& !stream_reports(reports@, job_at(m, n_pu as nat, vin@.len()))
                            &&& forall|i: int|
                                0 <= i < m ==> stream_reports(
                                    reports@,
                                    #[trigger] job_at(i, n_pu as nat, vin@.len()),
                                )
                        }
                }
            },
        },
{
    let ghost sp = vin@.len();
    let ghost all = reports@;
    let mut collector = match SweepCollector::new(n_pu, n_pd, vin) {
        Ok(collector) => collector,
        Err(e) => {
            return Err(e);
        },
    };
    for report in it: reports.into_iter()
        invariant
            it.seq() == all,
            collector.wf(),
            collector.n_pu() == n_pu,
            collector.n_pd() == n_pd,
            collector.sweep_points() == sp,
            collector.table().vin == vin,
            collector.accepted().len() == it.index(),
            forall|k: int|
                0 <= k < it.index() ==> (#[trigger] collector.accepted()[k]).job == all[k].job
                    && collector.accepted()[k].resistance == reported_curve(all[k])
                    && collector.accepted()[k].freq == first_freq(all),
            forall|k: int|
                0 <= k < it.index() ==> (#[trigger] stream_fault(
                    all,
                    k,
                    n_pu as nat,
                    n_pd as nat,
                    sp,
                )) is None,
    {
        let ghost idx = it.index() as int;
        proof {
            collector.lemma_holds_accepted();
            if collector.reported(report.job) {
                let k = choose|k: int|
                    0 <= k < collector.accepted().len() && (
                    #[trigger] collector.accepted()[k]).job == report.job;
                assert(all[k].job == report.job);
            }
            if exists|j: int| 0 <= j < idx && (#[trigger] all[j]).job == report.job {
                let j = choose|j: int| 0 <= j < idx && (#[trigger] all[j]).job == report.job;
                assert(collector.accepted()[j].job == report.job);
            }
            if idx > 0 {
                assert(collector.accepted()[0].freq == first_freq(all));
            }
            assert(collector.fault(report) == stream_fault(
                all,
                idx,
                n_pu as nat,
                n_pd as nat,
                sp,
            ));
        }
        match collector.record(report) {
            Ok(()) => {},
            Err(e) => {
                return Err(e);
            },
        }
    }
    proof {
        collector.lemma_holds_accepted();
        assert forall|k: int| 0 <= k < all.len() implies collector.table().curve(
            (#[trigger] all[k]).job,
        ) == reported_curve(all[k]) by {
            assert(collector.accepted()[k].job == all[k].job);
        }
        assert forall|k: int| 0 <= k < all.len() implies reported_curve(#[trigger] all[k]).len()
            == collector.table().freq@.len() by {
            assert(collector.accepted()[k].resistance == reported_curve(all[k]));
        }
        assert forall|job: SimulationJob| #[trigger]
            stream_reports(all, job) == collector.reported(job) by {
            if stream_reports(all, job) {
                let k = choose|k: int| 0 <= k < all.len() && (#[trigger] all[k]).job == job;
                assert(collector.accepted()[k].job == job);
            }
            if collector.reported(job) {
                let k = choose|k: int|
                    0 <= k < collector.accepted().len() && (
                    #[trigger] collector.accepted()[k]).job == job;
                assert(all[k].job == job);
            }
        }
        if all.len() > 0 {
            assert(collector.accepted()[0].freq == first_freq(all));
        }
    }
    collector.finish()
}

} // verus!
