use bpf_artifacts::status::{check_piped, check_status, PipeFailure, PipeStage, ProcessFailure};

#[test]
fn zero_exit_is_success() {
    assert_eq!(check_status(Some(0)), Ok(()));
}

#[test]
fn nonzero_exit_reports_its_code() {
    assert_eq!(check_status(Some(1)), Err(ProcessFailure::ExitCode { code: 1 }));
    assert_eq!(check_status(Some(-7)), Err(ProcessFailure::ExitCode { code: -7 }));
    assert_eq!(check_status(Some(i32::MAX)), Err(ProcessFailure::ExitCode { code: i32::MAX }));
}

#[test]
fn signal_is_reported_apart_from_exit_codes() {
    assert_eq!(check_status(None), Err(ProcessFailure::Signal));
    assert_ne!(check_status(None), check_status(Some(1)));
}

#[test]
fn pipe_succeeds_when_both_ends_exit_zero() {
    assert_eq!(check_piped(Some(0), Some(0)), Ok(()));
}

#[test]
fn extractor_failure_is_reported_though_compiler_succeeded() {
    assert_eq!(
        check_piped(Some(0), Some(1)),
        Err(PipeFailure { stage: PipeStage::Consumer, failure: ProcessFailure::ExitCode { code: 1 } })
    );
}

#[test]
fn compiler_failure_is_reported_when_extractor_succeeded() {
    assert_eq!(
        check_piped(Some(2), Some(0)),
        Err(PipeFailure { stage: PipeStage::Producer, failure: ProcessFailure::ExitCode { code: 2 } })
    );
    assert_eq!(
        check_piped(None, Some(0)),
        Err(PipeFailure { stage: PipeStage::Producer, failure: ProcessFailure::Signal })
    );
}

#[test]
fn reader_failure_comes_first_when_both_fail() {
    assert_eq!(
        check_piped(Some(2), None),
        Err(PipeFailure { stage: PipeStage::Consumer, failure: ProcessFailure::Signal })
    );
}
