//! Judging how a child process ended.
use vstd::prelude::*;

verus! {

/// How a child process failed. An exit with a nonzero code and an end by a
/// signal are told apart, so that each is reported in its own words.
#[derive(Clone, Copy, Debug, PartialEq, Eq, Structural)]
pub enum ProcessFailure {
    /// The process ran to its end and returned this nonzero code.
    ExitCode { code: i32 },
    /// The process was ended by a signal and returned no code.
    Signal,
}

/// The two ends of a pipe between two child processes.
#[derive(Clone, Copy, Debug, PartialEq, Eq, Structural)]
pub enum PipeStage {
    /// The process that writes to the pipe.
    Producer,
    /// The process that reads from the pipe.
    Consumer,
}

/// A failure of one of two piped processes.
#[derive(Clone, Copy, Debug, PartialEq, Eq, Structural)]
pub struct PipeFailure {
    pub stage: PipeStage,
    pub failure: ProcessFailure,
}

/// The failure that an exit status stands for, if any. A status is the exit
/// code of the process, or `None` where a signal ended it.
pub open spec fn failure_of(status: Option<i32>) -> Option<ProcessFailure> {
    match status {
        Some(code) => if code == 0 {
            None
        } else {
            Some(ProcessFailure::ExitCode { code })
        },
        None => Some(ProcessFailure::Signal),
    }
}

/// The failure that the statuses of two piped processes stand for. The
/// reader's failure is reported first; the writer's only where the reader
/// succeeded.
pub open spec fn pipe_failure_of(producer: Option<i32>, consumer: Option<i32>) -> Option<
    PipeFailure,
> {
    match failure_of(consumer) {
        Some(failure) => Some(PipeFailure { stage: PipeStage::Consumer, failure }),
        None => match failure_of(producer) {
            Some(failure) => Some(PipeFailure { stage: PipeStage::Producer, failure }),
            None => None,
        },
    }
}

/// Accepts a status exactly where the process exited with code zero.
pub fn check_status(status: Option<i32>) -> (outcome: Result<(), ProcessFailure>)
    ensures
        match failure_of(status) {
            None => outcome.is_ok(),
            Some(failure) => outcome == Err::<(), ProcessFailure>(failure),
        },
{
    match status {
        Some(code) => {
            if code == 0 {
                Ok(())
            } else {
                Err(ProcessFailure::ExitCode { code })
            }
        },
        None => Err(ProcessFailure::Signal),
    }
}

/// Checks both ends of a pipe. Succeeds exactly where both processes exited
/// with code zero; otherwise names the end that failed, the reader before
/// the writer.
pub fn check_piped(producer: Option<i32>, consumer: Option<i32>) -> (outcome: Result<
    (),
    PipeFailure,
>)
    ensures
        match pipe_failure_of(producer, consumer) {
            None => outcome.is_ok(),
            Some(failure) => outcome == Err::<(), PipeFailure>(failure),
        },
{
    match check_status(consumer) {
        Err(failure) => Err(PipeFailure { stage: PipeStage::Consumer, failure }),
        Ok(()) => match check_status(producer) {
            Err(failure) => Err(PipeFailure { stage: PipeStage::Producer, failure }),
            Ok(()) => Ok(()),
        },
    }
}

/// A pipe succeeds only where each of its two processes would succeed alone,
/// and a failing reader is reported whatever the writer did.
pub proof fn pipe_checks_both_ends(producer: Option<i32>, consumer: Option<i32>)
    ensures
        pipe_failure_of(producer, consumer).is_none() <==> (producer == Some(0i32) && consumer
            == Some(0i32)),
        failure_of(consumer) matches Some(failure) ==> pipe_failure_of(producer, consumer) == Some(
            PipeFailure { stage: PipeStage::Consumer, failure },
        ),
{
}

/// An exit with a code and an end by a signal never give the same failure.
pub proof fn signal_is_reported_apart(code: i32)
    ensures
        failure_of(Some(code)) != failure_of(None),
{
}

} // verus!
