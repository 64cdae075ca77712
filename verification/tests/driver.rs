use rawtiff::errors::ConvertError;
use rawtiff::driver::convert_all;
use rawtiff::driver::plan_job;
use rawtiff::lines::LineKind;
use rawtiff::progress::ProgressCounter;

#[test]
fn plan_job_derives_the_output_path() {
    let job = plan_job("out", "a/b/photo.raw", 1, 3).unwrap();
    assert_eq!(job.index, 1);
    assert_eq!(job.total, 3);
    assert_eq!(job.input, String::from("a/b/photo.raw"));
    assert_eq!(job.output, String::from("out/photo.tiff"));
}

#[test]
fn plan_job_rejects_inputs_without_file_name() {
    match plan_job("out", "..", 1, 1) {
        Err(ConvertError::Argument { input }) => assert_eq!(input, String::from("..")),
        _ => panic!("input without a file name was not rejected as Argument"),
    }
}

#[test]
fn counter_hands_out_successive_indices() {
    let mut c = ProgressCounter::new();
    assert_eq!(c.fetch_next(), 1);
    assert_eq!(c.fetch_next(), 2);
    assert_eq!(c.fetch_next(), 3);
}

#[test]
fn empty_run_prints_nothing() {
    let log = convert_all("/tmp", &Vec::new());
    assert!(log.is_empty());
}

#[test]
fn every_job_reports_exactly_once() {
    let inputs = vec![
        String::from("Cargo.toml"),
        String::from("/nonexistent_rawtiff_dir/missing.raw"),
        String::from(".."),
    ];
    let log = convert_all("/tmp", &inputs);
    let starts = log
        .iter()
        .filter(|l| matches!(l.kind, LineKind::Start))
        .count();
    let terminals = log
        .iter()
        .filter(|l| !matches!(l.kind, LineKind::Start))
        .count();
    // The two inputs with file names are dispatched and fail in the
    // pipeline; the third is refused at planning with a lone error line.
    assert_eq!(starts, 2);
    assert_eq!(terminals, 3);
    assert_eq!(log.len(), 5);
    assert!(log[0].text.starts_with("[1 / 3] start \"Cargo.toml\""));
    assert!(matches!(log[1].kind, LineKind::Failure));
    assert!(log[1].text.starts_with("[1 / 3] error converting \"Cargo.toml\": decode error:"));
    assert!(log[2].text.starts_with("[2 / 3] start"));
    assert!(matches!(log[3].kind, LineKind::Failure));
    assert_eq!(
        log[4].text,
        String::from("[3 / 3] error converting \"..\": no file name in input path \"..\"")
    );
}
