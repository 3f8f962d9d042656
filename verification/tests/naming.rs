use ucie::driver::naming::{job_dir_name, push_decimal};
use ucie::driver::sweep::{job_matrix, LegKind, SimulationJob};

#[test]
fn dir_name_holds_family_code_and_bias_index() {
    let job = SimulationJob {
        leg: LegKind::PullUp,
        code: 3,
        bias_index: 0,
    };
    assert_eq!(job_dir_name(&job), "pu_code3_vin0");
    let job = SimulationJob {
        leg: LegKind::PullDown,
        code: 12,
        bias_index: 104,
    };
    assert_eq!(job_dir_name(&job), "pd_code12_vin104");
}

#[test]
fn dir_names_of_a_sweep_are_distinct() {
    let jobs = job_matrix(12, 11, 13);
    let names: Vec<String> = jobs.iter().map(job_dir_name).collect();
    for (i, a) in names.iter().enumerate() {
        for b in names.iter().skip(i + 1) {
            assert_ne!(a, b);
        }
    }
}

#[test]
fn dir_names_tell_code_from_bias_index() {
    let a = SimulationJob {
        leg: LegKind::PullUp,
        code: 1,
        bias_index: 11,
    };
    let b = SimulationJob {
        leg: LegKind::PullUp,
        code: 11,
        bias_index: 1,
    };
    assert_ne!(job_dir_name(&a), job_dir_name(&b));
}

#[test]
fn push_decimal_appends_the_numeral() {
    let mut text = String::from("n=");
    push_decimal(&mut text, 0);
    assert_eq!(text, "n=0");
    push_decimal(&mut text, 9);
    push_decimal(&mut text, 10);
    push_decimal(&mut text, 4070);
    assert_eq!(text, "n=09104070");
    let mut text = String::new();
    push_decimal(&mut text, usize::MAX);
    assert_eq!(text, format!("{}", usize::MAX));
}
