use rust_decimal::Decimal;
use ucie::decimal::Dec;
use ucie::driver::sweep::{
    bias_voltage, bias_voltages, job_masks, job_matrix, plan_sweep, push_bias_point, sweep_codes,
    LegKind, SimulationJob, SweepError,
};
use ucie::driver::tb::{DriverSimParams, Pvt};

fn dec(mantissa: i128, scale: u32) -> Dec {
    Dec::new(mantissa, scale).unwrap()
}

fn outside(d: Dec) -> Decimal {
    Decimal::from_i128_with_scale(d.mantissa(), d.scale())
}

fn params(voltage: Dec, sweep_points: usize) -> DriverSimParams<(), ()> {
    DriverSimParams {
        driver: (),
        pvt: Pvt::new((), voltage, dec(25, 0)),
        fstart: dec(1000, 0),
        fstop: dec(50_000_000_000, 0),
        sweep_points,
    }
}

#[test]
fn job_matrix_of_four_and_three_legs_over_five_points_has_35_jobs() {
    let jobs = job_matrix(4, 3, 5);
    assert_eq!(jobs.len(), (4 + 3) * 5);
    assert_eq!(
        jobs.iter().filter(|j| j.leg == LegKind::PullUp).count(),
        4 * 5
    );
    assert_eq!(
        jobs.iter().filter(|j| j.leg == LegKind::PullDown).count(),
        3 * 5
    );
}

#[test]
fn job_matrix_runs_by_family_code_and_bias() {
    let jobs = job_matrix(2, 1, 3);
    let mut expected = Vec::new();
    for code in 1..=2 {
        for bias_index in 0..3 {
            expected.push(SimulationJob {
                leg: LegKind::PullUp,
                code,
                bias_index,
            });
        }
    }
    for bias_index in 0..3 {
        expected.push(SimulationJob {
            leg: LegKind::PullDown,
            code: 1,
            bias_index,
        });
    }
    assert_eq!(jobs, expected);
}

#[test]
fn job_matrix_holds_no_job_twice() {
    let jobs = job_matrix(4, 3, 5);
    for (i, a) in jobs.iter().enumerate() {
        for b in jobs.iter().skip(i + 1) {
            assert_ne!(a, b);
        }
    }
}

#[test]
fn job_matrix_without_legs_or_points_is_empty() {
    assert!(job_matrix(0, 0, 5).is_empty());
    assert!(job_matrix(4, 3, 0).is_empty());
}

#[test]
fn masks_of_a_pull_up_job_enable_every_pull_down_leg() {
    let job = SimulationJob {
        leg: LegKind::PullUp,
        code: 1,
        bias_index: 2,
    };
    let (pu, pd) = job_masks(&job, 2, 3);
    assert_eq!(pu, vec![true, false]);
    assert_eq!(pd, vec![true, true, true]);
}

#[test]
fn masks_of_a_pull_down_job_enable_every_pull_up_leg() {
    let job = SimulationJob {
        leg: LegKind::PullDown,
        code: 2,
        bias_index: 0,
    };
    let (pu, pd) = job_masks(&job, 2, 3);
    assert_eq!(pu, vec![true, true]);
    assert_eq!(pd, vec![true, true, false]);
}

#[test]
fn sweep_codes_count_from_one() {
    assert_eq!(sweep_codes(4), vec![1, 2, 3, 4]);
    assert_eq!(sweep_codes(0), Vec::<usize>::new());
}

#[test]
fn bias_voltage_is_the_share_of_the_supply() {
    let v = bias_voltage(dec(18, 1), 1, 3).unwrap();
    assert_eq!(outside(v), Decimal::new(9, 1));
    let v = bias_voltage(dec(18, 1), 3, 4).unwrap();
    assert_eq!(outside(v), Decimal::new(18, 1));
    let v = bias_voltage(dec(1, 0), 1, 4).unwrap();
    assert_eq!(
        outside(v),
        Decimal::ONE * Decimal::from(1usize) / Decimal::from(3usize)
    );
}

#[test]
fn bias_vector_of_three_points_at_1v8() {
    let vin = bias_voltages(dec(18, 1), 3).unwrap();
    let vin: Vec<Decimal> = vin.into_iter().map(outside).collect();
    assert_eq!(
        vin,
        vec![Decimal::new(0, 1), Decimal::new(9, 1), Decimal::new(18, 1)]
    );
}

#[test]
fn bias_vector_ends_at_the_supply() {
    for sweep_points in 2..12 {
        let vin = bias_voltages(dec(18, 1), sweep_points).unwrap();
        assert_eq!(vin.len(), sweep_points);
        assert_eq!(outside(vin[0]), Decimal::ZERO);
        assert_eq!(outside(vin[sweep_points - 1]), Decimal::new(18, 1));
    }
}

#[test]
fn bias_vector_needs_two_points() {
    assert_eq!(
        bias_voltages(dec(18, 1), 1),
        Err(SweepError::TooFewSweepPoints)
    );
    assert_eq!(
        bias_voltages(dec(18, 1), 0),
        Err(SweepError::TooFewSweepPoints)
    );
}

#[test]
fn bias_vector_reports_the_first_point_out_of_range() {
    let max = (1i128 << 96) - 1;
    assert_eq!(
        bias_voltages(dec(max, 0), 3),
        Err(SweepError::BiasOutOfRange { index: 2 })
    );
}

#[test]
fn push_bias_point_appends_or_reports_the_index() {
    let mut points = vec![dec(0, 0)];
    assert_eq!(push_bias_point(&mut points, Some(dec(9, 1))), Ok(()));
    assert_eq!(points, vec![dec(0, 0), dec(9, 1)]);
    assert_eq!(
        push_bias_point(&mut points, None),
        Err(SweepError::BiasOutOfRange { index: 2 })
    );
    assert_eq!(points, vec![dec(0, 0), dec(9, 1)]);
}

#[test]
fn plan_of_three_points_at_1v8_for_two_pull_up_legs() {
    let plan = plan_sweep(&params(dec(18, 1), 3), 2, 3).ok().unwrap();
    let vin: Vec<Decimal> = plan.vin.iter().map(|&v| outside(v)).collect();
    assert_eq!(
        vin,
        vec![Decimal::new(0, 1), Decimal::new(9, 1), Decimal::new(18, 1)]
    );
    assert_eq!(plan.pu_codes, vec![1, 2]);
    assert_eq!(plan.pd_codes, vec![1, 2, 3]);
    assert_eq!(plan.jobs.len(), (2 + 3) * 3);
    let pull_up: Vec<_> = plan
        .jobs
        .iter()
        .filter(|p| p.job.leg == LegKind::PullUp)
        .collect();
    assert_eq!(pull_up.len(), 6);
    let mut k = 0;
    for code in 1..=2 {
        for bias_index in 0..3 {
            let planned = pull_up[k];
            assert_eq!(planned.job.code, code);
            assert_eq!(planned.job.bias_index, bias_index);
            assert_eq!(planned.pd_mask, vec![true; 3]);
            assert_eq!(planned.pu_mask, vec![true, code == 2]);
            assert_eq!(outside(planned.vin), vin[bias_index]);
            k += 1;
        }
    }
}

#[test]
fn plan_sweeps_the_pull_down_legs_with_every_pull_up_leg_enabled() {
    let plan = plan_sweep(&params(dec(18, 1), 2), 2, 3).ok().unwrap();
    let last = &plan.jobs[plan.jobs.len() - 1];
    assert_eq!(
        last.job,
        SimulationJob {
            leg: LegKind::PullDown,
            code: 3,
            bias_index: 1
        }
    );
    assert_eq!(last.pu_mask, vec![true, true]);
    assert_eq!(last.pd_mask, vec![true, true, true]);
    assert_eq!(last.dir_name, "pd_code3_vin1");
    let first_pd = &plan.jobs[2 * 2];
    assert_eq!(first_pd.pd_mask, vec![true, false, false]);
}

#[test]
fn first_bias_point_is_zero_of_scale_zero() {
    for sweep_points in 2..6 {
        let vin = bias_voltages(dec(-33, 1), sweep_points).unwrap();
        assert_eq!((vin[0].mantissa(), vin[0].scale()), (0, 0));
        let v = bias_voltage(dec(18, 1), 0, sweep_points).unwrap();
        assert_eq!((v.mantissa(), v.scale()), (0, 0));
    }
}

#[test]
fn planned_job_builds_its_testbench() {
    let plan = plan_sweep(&params(dec(18, 1), 3), 2, 1).ok().unwrap();
    let planned = plan.jobs.into_iter().nth(4).unwrap();
    assert_eq!(
        planned.job,
        SimulationJob {
            leg: LegKind::PullUp,
            code: 2,
            bias_index: 1
        }
    );
    let vin = planned.vin;
    let tb = planned.testbench::<(), (), ()>(params(dec(18, 1), 3));
    assert_eq!(tb.vin, vin);
    assert_eq!(outside(tb.vin), Decimal::new(9, 1));
    assert_eq!(tb.pu_mask, vec![true, true]);
    assert_eq!(tb.pd_mask, vec![true]);
    assert_eq!(tb.fstart, dec(1000, 0));
    assert_eq!(tb.fstop, dec(50_000_000_000, 0));
    assert_eq!(tb.pvt.voltage, dec(18, 1));
    assert_eq!(tb.schematic(2, 1).len(), 2 * 2 + 2 * 1 + 7);
}

#[test]
fn plan_of_four_and_three_legs_over_five_points_has_35_jobs() {
    let plan = plan_sweep(&params(dec(18, 1), 5), 4, 3).ok().unwrap();
    assert_eq!(plan.jobs.len(), 35);
    assert_eq!(plan.vin.len(), 5);
}

#[test]
fn plan_with_one_sweep_point_is_refused() {
    assert_eq!(
        plan_sweep(&params(dec(18, 1), 1), 4, 3).err(),
        Some(SweepError::TooFewSweepPoints)
    );
    assert_eq!(
        plan_sweep(&params(dec(18, 1), 0), 4, 3).err(),
        Some(SweepError::TooFewSweepPoints)
    );
}

#[test]
fn plan_with_too_few_points_comes_before_too_many_jobs() {
    assert_eq!(
        plan_sweep(&params(dec(18, 1), 1), usize::MAX, usize::MAX).err(),
        Some(SweepError::TooFewSweepPoints)
    );
}

#[test]
fn plan_with_uncountable_jobs_is_refused() {
    assert_eq!(
        plan_sweep(&params(dec(18, 1), 2), usize::MAX, 1).err(),
        Some(SweepError::TooManyJobs)
    );
    assert_eq!(
        plan_sweep(&params(dec(18, 1), 3), usize::MAX / 2, 0).err(),
        Some(SweepError::TooManyJobs)
    );
}

#[test]
fn plan_reports_a_bias_point_out_of_range() {
    let max = (1i128 << 96) - 1;
    assert_eq!(
        plan_sweep(&params(dec(max, 0), 3), 1, 1).err(),
        Some(SweepError::BiasOutOfRange { index: 2 })
    );
}
