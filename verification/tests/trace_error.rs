use mandrake::hex_codec::{bytes_from_hex, HexError};
use mandrake::trace_error::{FailedStep, TraceError};

#[test]
fn a_failed_step_is_named_with_what_the_system_said() {
    let cases = [
        (FailedStep::Spawn, "Could not execute testing harness: ENOENT"),
        (FailedStep::WriteStdin, "Failed while trying to write to stdin: ENOENT"),
        (FailedStep::Resume, "Couldn't resume execution: ENOENT"),
        (FailedStep::WaitForResume, "Failed while waiting for process to resume: ENOENT"),
        (FailedStep::StepIntoCode, "Failed to stop into the shellcode: ENOENT"),
        (FailedStep::ReadRegisters, "Couldn't read registers: ENOENT"),
        (FailedStep::Step, "Couldn't step through code: ENOENT"),
        (FailedStep::StepOverBreakpoint, "Couldn't step over breakpoint: ENOENT"),
        (
            FailedStep::ResumeAfterBreakpoint,
            "Couldn't resume execution after breakpoint: ENOENT",
        ),
        (FailedStep::UnexpectedStop, "Unexpected stop reason: ENOENT"),
        (FailedStep::Wait, "Unexpected wait() error: ENOENT"),
        (FailedStep::ReadStdout, "Failed while trying to read stdout: ENOENT"),
        (FailedStep::ReadStderr, "Failed while trying to read stderr: ENOENT"),
        (FailedStep::FindHarness, "Could not find the execution harness: ENOENT"),
    ];
    for (step, message) in cases {
        assert_eq!(TraceError::failed(step, "ENOENT").message(), message);
    }
}

#[test]
fn a_missing_handle_needs_no_detail() {
    assert_eq!(
        TraceError::failed(FailedStep::OpenStdin, "").message(),
        "Couldn't get a handle to stdin"
    );
    assert_eq!(
        TraceError::failed(FailedStep::OpenStdout, "").message(),
        "Couldn't get a handle to stdout"
    );
    assert_eq!(
        TraceError::failed(FailedStep::OpenStderr, "").message(),
        "Couldn't get a handle to stderr"
    );
}

#[test]
fn bad_input_says_what_is_wrong_with_it() {
    assert_eq!(
        TraceError::BadInput(HexError::OddLength).message(),
        "Could not parse --stdin-data as a hex string: Odd number of digits"
    );
    assert_eq!(
        TraceError::BadInput(HexError::InvalidHexCharacter { c: 'x', index: 17 }).message(),
        "Could not parse --stdin-data as a hex string: Invalid character 'x' at position 17"
    );
    assert_eq!(
        TraceError::BadInput(HexError::InvalidStringLength).message(),
        "Could not parse --stdin-data as a hex string: Invalid string length"
    );
    let error = TraceError::BadInput(bytes_from_hex("12zz").unwrap_err());
    assert_eq!(
        error.message(),
        "Could not parse --stdin-data as a hex string: Invalid character 'z' at position 2"
    );
}

#[test]
fn hex_errors_speak_in_the_words_of_the_hex_crate() {
    assert_eq!(HexError::OddLength.message(), "Odd number of digits");
    assert_eq!(HexError::InvalidStringLength.message(), "Invalid string length");
    assert_eq!(
        HexError::InvalidHexCharacter { c: 'g', index: 0 }.message(),
        "Invalid character 'g' at position 0"
    );
    assert_eq!(
        HexError::InvalidHexCharacter { c: '\n', index: 5 }.message(),
        "Invalid character '\\n' at position 5"
    );
    assert_eq!(
        HexError::InvalidHexCharacter { c: '\'', index: 1234567 }.message(),
        "Invalid character '\\'' at position 1234567"
    );
    assert_eq!(bytes_from_hex("abc").unwrap_err().message(), "Odd number of digits");
    assert_eq!(
        bytes_from_hex("48 1").unwrap_err().message(),
        "Invalid character ' ' at position 2"
    );
}
