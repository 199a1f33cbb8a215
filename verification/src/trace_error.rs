//! Why a trace could not be made.
//!
//! These are failures of the tracer itself: it could not start the process,
//! or one of the things it does to the process failed. A process that
//! crashes, or that runs into the instruction cap, is no failure; the trace
//! reports it in its result.

use crate::hex_codec::{hex_error_text, HexError};
use vstd::prelude::*;
use vstd::string::*;

verus! {

/// What the tracer was doing when it failed.
#[derive(Clone, Copy, Debug, PartialEq, Eq, Structural)]
pub enum FailedStep {
    /// Looking for the harness, which is not where it was said to be.
    FindHarness,
    /// Spawning the process.
    Spawn,
    /// Getting a handle to the standard input of the process.
    OpenStdin,
    /// Writing the input to the process.
    WriteStdin,
    /// Letting the process run from its first stop.
    Resume,
    /// Waiting for the harness to reach its breakpoint.
    WaitForResume,
    /// Stepping from the harness's breakpoint into the code.
    StepIntoCode,
    /// Reading the registers at a stop.
    ReadRegisters,
    /// Stepping over an instruction.
    Step,
    /// Waiting for the step over a breakpoint to land.
    StepOverBreakpoint,
    /// Letting the process run after a breakpoint.
    ResumeAfterBreakpoint,
    /// Waiting for the process: the wait reported something that is neither
    /// an exit nor a stop.
    UnexpectedStop,
    /// Waiting for the process: the wait failed.
    Wait,
    /// Getting a handle to the standard output of the process.
    OpenStdout,
    /// Reading the standard output of the process.
    ReadStdout,
    /// Getting a handle to the standard error of the process.
    OpenStderr,
    /// Reading the standard error of the process.
    ReadStderr,
}

impl FailedStep {
    /// What the message for a failure of this step begins with.
    pub open spec fn spec_headline(self) -> Seq<char> {
        match self {
            FailedStep::FindHarness => "Could not find the execution harness: "@,
            FailedStep::Spawn => "Could not execute testing harness: "@,
            FailedStep::OpenStdin => "Couldn't get a handle to stdin"@,
            FailedStep::WriteStdin => "Failed while trying to write to stdin: "@,
            FailedStep::Resume => "Couldn't resume execution: "@,
            FailedStep::WaitForResume => "Failed while waiting for process to resume: "@,
            FailedStep::StepIntoCode => "Failed to stop into the shellcode: "@,
            FailedStep::ReadRegisters => "Couldn't read registers: "@,
            FailedStep::Step => "Couldn't step through code: "@,
            FailedStep::StepOverBreakpoint => "Couldn't step over breakpoint: "@,
            FailedStep::ResumeAfterBreakpoint => "Couldn't resume execution after breakpoint: "@,
            FailedStep::UnexpectedStop => "Unexpected stop reason: "@,
            FailedStep::Wait => "Unexpected wait() error: "@,
            FailedStep::OpenStdout => "Couldn't get a handle to stdout"@,
            FailedStep::ReadStdout => "Failed while trying to read stdout: "@,
            FailedStep::OpenStderr => "Couldn't get a handle to stderr"@,
            FailedStep::ReadStderr => "Failed while trying to read stderr: "@,
        }
    }

    /// What the message for a failure of this step begins with.
    pub fn headline(&self) -> (text: &'static str)
        ensures
            text@ == self.spec_headline(),
    {
        match self {
            FailedStep::FindHarness => "Could not find the execution harness: ",
            FailedStep::Spawn => "Could not execute testing harness: ",
            FailedStep::OpenStdin => "Couldn't get a handle to stdin",
            FailedStep::WriteStdin => "Failed while trying to write to stdin: ",
            FailedStep::Resume => "Couldn't resume execution: ",
            FailedStep::WaitForResume => "Failed while waiting for process to resume: ",
            FailedStep::StepIntoCode => "Failed to stop into the shellcode: ",
            FailedStep::ReadRegisters => "Couldn't read registers: ",
            FailedStep::Step => "Couldn't step through code: ",
            FailedStep::StepOverBreakpoint => "Couldn't step over breakpoint: ",
            FailedStep::ResumeAfterBreakpoint => "Couldn't resume execution after breakpoint: ",
            FailedStep::UnexpectedStop => "Unexpected stop reason: ",
            FailedStep::Wait => "Unexpected wait() error: ",
            FailedStep::OpenStdout => "Couldn't get a handle to stdout",
            FailedStep::ReadStdout => "Failed while trying to read stdout: ",
            FailedStep::OpenStderr => "Couldn't get a handle to stderr",
            FailedStep::ReadStderr => "Failed while trying to read stderr: ",
        }
    }
}

/// Why a trace could not be made.
#[derive(Clone, Debug)]
pub enum TraceError {
    /// The input for the process is not hexadecimal.
    BadInput(HexError),
    /// A step failed; `detail` is what the system said of it, and may be
    /// empty.
    Failed { step: FailedStep, detail: String },
}

/// Why a trace could not be made, as mathematics.
pub enum Failure {
    BadInput(HexError),
    Failed { step: FailedStep, detail: Seq<char> },
}

impl DeepView for TraceError {
    type V = Failure;

    open spec fn deep_view(&self) -> Failure {
        match self {
            TraceError::BadInput(e) => Failure::BadInput(*e),
            TraceError::Failed { step, detail } => Failure::Failed { step: *step, detail: detail@ },
        }
    }
}

/// The message for a failure.
pub open spec fn failure_text(failure: Failure) -> Seq<char> {
    match failure {
        Failure::BadInput(e) => "Could not parse --stdin-data as a hex string: "@
            + hex_error_text(e),
        Failure::Failed { step, detail } => step.spec_headline() + detail,
    }
}

impl TraceError {
    /// The failure of `step`, with what the system said of it.
    pub fn failed(step: FailedStep, detail: &str) -> (error: Self)
        ensures
            error.deep_view() == (Failure::Failed { step, detail: detail@ }),
    {
        TraceError::Failed { step, detail: String::from_str(detail) }
    }

    /// The message for the failure.
    pub fn message(&self) -> (text: String)
        ensures
            text@ == failure_text(self.deep_view()),
    {
        match self {
            TraceError::BadInput(e) => {
                let mut text = String::from_str("Could not parse --stdin-data as a hex string: ");
                text.append(e.message().as_str());
                text
            },
            TraceError::Failed { step, detail } => {
                let mut text = String::from_str(step.headline());
                text.append(detail.as_str());
                text
            },
        }
    }
}

} // verus!
