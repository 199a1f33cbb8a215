//! The trace engine: what to do each time the traced process stops, and what
//! to record of it.
//!
//! The engine does not touch the process. The caller waits for the process to
//! stop, reads and analyzes its registers, and hands the stop to
//! [`Trace::on_event`]; the answer says how to resume the process, and the
//! trace keeps what belongs in the result.

use crate::mandrake_output::{blank_outcome, MandrakeOutput, Outcome, RegisterSnapshot, Snapshot};
use crate::text::{
    address_text, decimal_text, push_address, push_decimal, push_signed_decimal,
    signed_decimal_text,
};
use crate::visibility_configuration::VisibilityConfiguration;
use vstd::prelude::*;
use vstd::string::*;
use vstd::utf8::{decode_utf8, valid_utf8};

verus! {

/// How many bytes of memory are kept per value unless the caller says
/// otherwise.
pub const DEFAULT_SNIPPIT_LENGTH: usize = 64;

/// How long a string must be, unless the caller says otherwise, to be taken
/// for one: longer than this.
pub const DEFAULT_MINIMUM_VIABLE_STRING: usize = 6;

/// After how many instructions a trace is cut off unless the caller says
/// otherwise.
pub const MAX_INSTRUCTIONS: usize = 128;

/// Where the harness is looked for unless the caller says otherwise.
pub const DEFAULT_HARNESS_PATH: &'static str = "./harness/harness";

/// The settings of a trace.
#[derive(Clone, Copy, Debug)]
pub struct Mandrake {
    /// How many bytes of memory are kept per value.
    pub snippit_length: usize,
    /// A string is kept where it is longer than this.
    pub minimum_viable_string: usize,
    /// After how many executed instructions the trace is cut off.
    pub max_logged_instructions: Option<usize>,
    /// Whether the process's standard output is kept.
    pub capture_stdout: bool,
    /// Whether the process's standard error is kept.
    pub capture_stderr: bool,
    /// Reserved: whether tracing goes on across `execve`.
    pub follow_exec_syscalls: bool,
    /// A filter that is kept with the settings. A trace records under the
    /// filter that it is started with, which may be this one.
    pub visibility: VisibilityConfiguration,
}

impl Default for Mandrake {
    /// The settings that apply where the caller gives none: the default
    /// lengths and cap, both output streams kept, every address recorded.
    fn default() -> (mandrake: Self)
        ensures
            mandrake == (Mandrake {
                snippit_length: DEFAULT_SNIPPIT_LENGTH,
                minimum_viable_string: DEFAULT_MINIMUM_VIABLE_STRING,
                max_logged_instructions: Some(MAX_INSTRUCTIONS),
                capture_stdout: true,
                capture_stderr: true,
                follow_exec_syscalls: false,
                visibility: VisibilityConfiguration {
                    hidden_address: None,
                    hidden_mask: None,
                    visible_address: None,
                    visible_mask: None,
                },
            }),
    {
        Mandrake::new(
            DEFAULT_SNIPPIT_LENGTH,
            DEFAULT_MINIMUM_VIABLE_STRING,
            Some(MAX_INSTRUCTIONS),
            false,
            false,
        )
    }
}

impl Mandrake {
    /// Settings that record every address and do not follow `execve`.
    pub fn new(
        snippit_length: usize,
        minimum_viable_string: usize,
        max_logged_instructions: Option<usize>,
        ignore_stdout: bool,
        ignore_stderr: bool,
    ) -> (mandrake: Self)
        ensures
            mandrake == (Mandrake {
                snippit_length,
                minimum_viable_string,
                max_logged_instructions,
                capture_stdout: !ignore_stdout,
                capture_stderr: !ignore_stderr,
                follow_exec_syscalls: false,
                visibility: VisibilityConfiguration {
                    hidden_address: None,
                    hidden_mask: None,
                    visible_address: None,
                    visible_mask: None,
                },
            }),
    {
        Mandrake {
            snippit_length,
            minimum_viable_string,
            max_logged_instructions,
            capture_stdout: !ignore_stdout,
            capture_stderr: !ignore_stderr,
            follow_exec_syscalls: false,
            visibility: VisibilityConfiguration::full_visibility(),
        }
    }

    /// Hides the instructions whose address, under `mask`, is `address`.
    pub fn set_hidden_address(&mut self, address: u64, mask: u64)
        ensures
            *final(self) == (Mandrake {
                visibility: VisibilityConfiguration {
                    hidden_address: Some(address),
                    hidden_mask: Some(mask),
                    ..old(self).visibility
                },
                ..*old(self)
            }),
    {
        self.visibility.hidden_address = Some(address);
        self.visibility.hidden_mask = Some(mask);
    }

    /// Records only the instructions whose address, under `mask`, is
    /// `address`.
    pub fn set_visible_address(&mut self, address: u64, mask: u64)
        ensures
            *final(self) == (Mandrake {
                visibility: VisibilityConfiguration {
                    visible_address: Some(address),
                    visible_mask: Some(mask),
                    ..old(self).visibility
                },
                ..*old(self)
            }),
    {
        self.visibility.visible_address = Some(address);
        self.visibility.visible_mask = Some(mask);
    }

    /// The filter for code that runs in the harness: everything where
    /// `show_everything` is set, else only the harness's own window.
    pub fn code_visibility(show_everything: bool) -> (visibility: VisibilityConfiguration)
        ensures
            visibility == if show_everything {
                VisibilityConfiguration {
                    hidden_address: None,
                    hidden_mask: None,
                    visible_address: None,
                    visible_mask: None,
                }
            } else {
                VisibilityConfiguration {
                    hidden_address: None,
                    hidden_mask: None,
                    visible_address: Some(crate::visibility_configuration::HARNESS_ADDRESS),
                    visible_mask: Some(crate::visibility_configuration::HARNESS_MASK),
                }
            },
    {
        if show_everything {
            VisibilityConfiguration::full_visibility()
        } else {
            VisibilityConfiguration::harness_visibility()
        }
    }

    /// Starts the trace of process `pid` under `visibility`.
    pub fn trace(&self, pid: u32, visibility: VisibilityConfiguration) -> (trace: Trace)
        ensures
            trace.state() == initial_state(pid),
            trace.visibility() == visibility,
            trace.settings() == *self,
    {
        Trace::new(*self, pid, visibility)
    }
}

/// One thing that the tracer does to the process between stops.
#[derive(Clone, Copy, Debug, PartialEq, Eq, Structural)]
pub enum Primitive {
    /// Let the process run until its next stop.
    Continue,
    /// Wait for the process to stop.
    Wait,
    /// Let the process run one instruction.
    Step,
}

/// What is traced.
#[derive(Clone, Copy, Debug, PartialEq, Eq, Structural)]
pub enum Launch {
    /// Machine code, run by the harness.
    Code,
    /// A program of its own.
    Elf,
}

impl Launch {
    /// What is done to a process that was just spawned, before its stops are
    /// handed to the trace. A program is let run from its first stop. The
    /// harness is let run up to the breakpoint that it sets in front of the
    /// code, and then stepped once, so that the next stop is at the first
    /// instruction of the code.
    pub open spec fn spec_startup(self) -> Seq<Primitive> {
        match self {
            Launch::Code => seq![Primitive::Continue, Primitive::Wait, Primitive::Step],
            Launch::Elf => seq![Primitive::Continue],
        }
    }

    /// What to do to a process that was just spawned, in order, before its
    /// stops are handed to the trace.
    pub fn startup(&self) -> (steps: Vec<Primitive>)
        ensures
            steps@ == self.spec_startup(),
    {
        let mut steps: Vec<Primitive> = Vec::new();
        steps.push(Primitive::Continue);
        match self {
            Launch::Code => {
                steps.push(Primitive::Wait);
                steps.push(Primitive::Step);
                assert(steps@ =~= self.spec_startup());
            },
            Launch::Elf => {
                assert(steps@ =~= self.spec_startup());
            },
        }
        steps
    }
}

/// The signal that stopped the process.
#[derive(Clone, Debug)]
pub enum StopSignal {
    /// `SIGTRAP`: a single step has completed.
    Trap,
    /// `SIGALRM`.
    Alarm,
    /// `SIGABRT`.
    Abort,
    /// `SIGBUS`.
    Bus,
    /// `SIGFPE`.
    FloatingPoint,
    /// `SIGILL`.
    IllegalInstruction,
    /// `SIGKILL`.
    Kill,
    /// `SIGSEGV`.
    SegmentationFault,
    /// `SIGTERM`.
    Terminate,
    /// Any other signal, by its name.
    Other(String),
}

/// A stop signal as mathematics.
pub enum Signal {
    Trap,
    Alarm,
    Abort,
    Bus,
    FloatingPoint,
    IllegalInstruction,
    Kill,
    SegmentationFault,
    Terminate,
    Other(Seq<char>),
}

impl DeepView for StopSignal {
    type V = Signal;

    open spec fn deep_view(&self) -> Signal {
        match self {
            StopSignal::Trap => Signal::Trap,
            StopSignal::Alarm => Signal::Alarm,
            StopSignal::Abort => Signal::Abort,
            StopSignal::Bus => Signal::Bus,
            StopSignal::FloatingPoint => Signal::FloatingPoint,
            StopSignal::IllegalInstruction => Signal::IllegalInstruction,
            StopSignal::Kill => Signal::Kill,
            StopSignal::SegmentationFault => Signal::SegmentationFault,
            StopSignal::Terminate => Signal::Terminate,
            StopSignal::Other(name) => Signal::Other(name@),
        }
    }
}

/// What the wait for the process reported.
#[derive(Debug)]
pub enum TraceEvent {
    /// The process ended by itself, with this exit code.
    Exited(i32),
    /// The process was stopped by a signal; the snapshot is that of its
    /// registers at the stop.
    Stopped(StopSignal, RegisterSnapshot),
}

/// A trace event as mathematics.
pub enum Stop {
    Exited(i32),
    Stopped(Signal, Snapshot),
}

impl DeepView for TraceEvent {
    type V = Stop;

    open spec fn deep_view(&self) -> Stop {
        match self {
            TraceEvent::Exited(code) => Stop::Exited(*code),
            TraceEvent::Stopped(signal, snapshot) => Stop::Stopped(
                signal.deep_view(),
                snapshot.deep_view(),
            ),
        }
    }
}

/// How to go on with the process after a stop.
#[derive(Clone, Copy, Debug, PartialEq, Eq, Structural)]
pub enum TraceAction {
    /// Single-step the process and wait for its next stop.
    Step,
    /// Single-step the process, wait for that step to land, then let the
    /// process run freely and wait for its next stop.
    StepOverBreakpoint,
    /// Single-step the process, then end the trace.
    StepAndFinish,
    /// End the trace.
    Finish,
}

/// The message for a process that ended by itself.
pub open spec fn clean_exit_text(code: i32) -> Seq<char> {
    "Process exited cleanly with exit code "@ + signed_decimal_text(code as int)
}

/// The message for a trace that was cut off after `max` instructions.
pub open spec fn instruction_cap_text(max: usize) -> Seq<char> {
    "Execution stopped at instruction cap (max instructions: "@ + decimal_text(max as nat)
        + ")"@
}

/// The message for a process that `signal` stopped at `rip`.
pub open spec fn signal_text(signal: Signal, rip: u64) -> Seq<char> {
    match signal {
        Signal::Trap => "Execution stopped by unexpected signal: SIGTRAP"@,
        Signal::Alarm => "Execution timed out (SIGALRM) @ "@ + address_text(rip),
        Signal::Abort => "Execution crashed with an abort (SIGABRT) @ "@ + address_text(rip),
        Signal::Bus => "Execution crashed with a bus error (bad memory access) (SIGBUS) @ "@
            + address_text(rip),
        Signal::FloatingPoint => "Execution crashed with a floating point error (SIGFPE) @ "@
            + address_text(rip),
        Signal::IllegalInstruction =>
            "Execution crashed with an illegal instruction (SIGILL) @ "@ + address_text(rip),
        Signal::Kill => "Execution was killed (SIGKILL) @ "@ + address_text(rip),
        Signal::SegmentationFault =>
            "Execution crashed with a segmentation fault (SIGSEGV) @ "@ + address_text(rip),
        Signal::Terminate => "Execution was terminated (SIGTERM) @ "@ + address_text(rip),
        Signal::Other(name) => "Execution stopped by unexpected signal: "@ + name,
    }
}

/// The text that `String::from_utf8_lossy` makes of `bytes`.
pub uninterp spec fn lossy_text(bytes: Seq<u8>) -> Seq<char>;

/// `String::from_utf8_lossy`, copied into a `String`: the text of `bytes`,
/// with a replacement character wherever the bytes are not UTF-8; bytes that
/// are UTF-8 are decoded as they are. Not proved.
#[verifier::external_body]
pub(crate) fn lossy_string(bytes: &[u8]) -> (text: String)
    ensures
        text@ == lossy_text(bytes@),
        valid_utf8(bytes@) ==> text@ == decode_utf8(bytes@),
{
    String::from_utf8_lossy(bytes).to_string()
}

/// A trace in progress as mathematics: what has been recorded, and whether
/// the trace has ended.
pub struct TraceState {
    pub outcome: Outcome,
    pub finished: bool,
}

/// The state of a trace of `pid` before the first stop.
pub open spec fn initial_state(pid: u32) -> TraceState {
    TraceState { outcome: blank_outcome(pid), finished: false }
}

/// The count of executed instructions after one more. The count stays where
/// it is once it cannot grow.
pub open spec fn counted(executed: nat) -> nat {
    if executed < usize::MAX {
        executed + 1
    } else {
        executed
    }
}

/// Whether `executed` instructions are as many as the settings allow.
pub open spec fn cap_reached(max: Option<usize>, executed: nat) -> bool {
    match max {
        Some(m) => executed >= m,
        None => false,
    }
}

/// The state with the trace ended for `reason`.
pub open spec fn ended(before: TraceState, reason: Seq<char>, code: Option<i32>) -> TraceState {
    TraceState {
        outcome: Outcome { exit_reason: Some(reason), exit_code: code, ..before.outcome },
        finished: true,
    }
}

/// The state after one stop.
///
/// A trace that has ended stays as it is. A process that exits, or that a
/// signal other than `SIGTRAP` stops, ends the trace with the reason. At a
/// `SIGTRAP` in front of `int3` nothing is counted or recorded. At any other
/// `SIGTRAP` the instruction is counted; the trace ends there if the cap is
/// reached, and else the snapshot is recorded if its address is visible.
pub open spec fn next_state(
    max: Option<usize>,
    visibility: VisibilityConfiguration,
    before: TraceState,
    event: Stop,
) -> TraceState {
    if before.finished {
        before
    } else {
        match event {
            Stop::Exited(code) => ended(before, clean_exit_text(code), Some(code)),
            Stop::Stopped(Signal::Trap, snapshot) => {
                let executed = counted(before.outcome.instructions_executed);
                let stepped = TraceState {
                    outcome: Outcome { instructions_executed: executed, ..before.outcome },
                    finished: false,
                };
                if snapshot.stands_at("int3"@) {
                    before
                } else if cap_reached(max, executed) {
                    ended(stepped, instruction_cap_text(max.unwrap()), None)
                } else if !visibility.accepts(snapshot.rip.value) {
                    stepped
                } else {
                    TraceState {
                        outcome: Outcome {
                            starting_address: if before.outcome.starting_address is None {
                                Some(snapshot.rip.value)
                            } else {
                                before.outcome.starting_address
                            },
                            history: before.outcome.history.push(snapshot),
                            ..stepped.outcome
                        },
                        finished: false,
                    }
                }
            },
            Stop::Stopped(signal, snapshot) => ended(
                before,
                signal_text(signal, snapshot.rip.value),
                None,
            ),
        }
    }
}

/// How the process is resumed after one stop.
pub open spec fn next_action(max: Option<usize>, before: TraceState, event: Stop) -> TraceAction {
    if before.finished {
        TraceAction::Finish
    } else {
        match event {
            Stop::Exited(_) => TraceAction::Finish,
            Stop::Stopped(Signal::Trap, snapshot) => {
                if snapshot.stands_at("int3"@) {
                    TraceAction::StepOverBreakpoint
                } else if cap_reached(max, counted(before.outcome.instructions_executed)) {
                    TraceAction::StepAndFinish
                } else {
                    TraceAction::Step
                }
            },
            Stop::Stopped(_, _) => TraceAction::Finish,
        }
    }
}

/// The least cap that a trace can be held to: one instruction is always
/// counted before the cap is looked at.
pub open spec fn effective_cap(m: usize) -> nat {
    if m == 0 {
        1
    } else {
        m as nat
    }
}

/// Whether a snapshot may stand in a trace under `visibility`: its address
/// is visible, and it is not in front of an `int3`.
pub open spec fn recordable(visibility: VisibilityConfiguration, snapshot: Snapshot) -> bool {
    &&& visibility.accepts(snapshot.rip.value)
    &&& !snapshot.stands_at("int3"@)
}

/// What holds of everything that a trace has recorded.
///
/// No more snapshots are recorded than instructions were executed, and no
/// more instructions are executed than the cap allows. The starting address
/// is that of the first recorded snapshot, and is there exactly when a
/// snapshot is. Every recorded snapshot is at a visible address and not at an
/// `int3`.
pub open spec fn faithful(
    max: Option<usize>,
    visibility: VisibilityConfiguration,
    outcome: Outcome,
) -> bool {
    &&& outcome.success
    &&& outcome.history.len() <= outcome.instructions_executed <= usize::MAX
    &&& max matches Some(m) ==> outcome.instructions_executed <= effective_cap(m)
    &&& outcome.starting_address is Some <==> outcome.history.len() >= 1
    &&& outcome.history.len() >= 1 ==> outcome.starting_address == Some(
        outcome.history[0].rip.value,
    )
    &&& forall|i: int|
        0 <= i < outcome.history.len() ==> recordable(visibility, #[trigger] outcome.history[i])
}

/// What holds of every trace in progress: what it has recorded is faithful;
/// while it goes on, the cap is not yet reached; it has a reason to have
/// ended exactly when it has ended, an exit code only then, and no output
/// before it is closed.
pub open spec fn well_recorded(
    max: Option<usize>,
    visibility: VisibilityConfiguration,
    state: TraceState,
) -> bool {
    let outcome = state.outcome;
    &&& faithful(max, visibility, outcome)
    &&& max matches Some(m) ==> (!state.finished ==> outcome.instructions_executed
        < effective_cap(m))
    &&& outcome.exit_reason is Some <==> state.finished
    &&& outcome.exit_code is Some ==> state.finished
    &&& outcome.stdout is None
    &&& outcome.stderr is None
}

/// What a closed trace reports of one output stream: the text of what the
/// process wrote, where the stream was kept and read.
pub open spec fn captured(capture: bool, written: Option<Seq<u8>>) -> Option<Seq<char>> {
    match written {
        Some(bytes) => if capture {
            Some(lossy_text(bytes))
        } else {
            None
        },
        None => None,
    }
}

/// The outcome of a trace that is closed with what the process wrote.
pub open spec fn closed_outcome(
    settings: Mandrake,
    outcome: Outcome,
    stdout: Option<Seq<u8>>,
    stderr: Option<Seq<u8>>,
) -> Outcome {
    Outcome {
        stdout: captured(settings.capture_stdout, stdout),
        stderr: captured(settings.capture_stderr, stderr),
        ..outcome
    }
}

/// Under a cap of at least one instruction, no trace executes more
/// instructions than the cap, and none records more snapshots than it
/// executed instructions.
pub proof fn lemma_cap_bounds_trace(
    m: usize,
    visibility: VisibilityConfiguration,
    outcome: Outcome,
)
    requires
        faithful(Some(m), visibility, outcome),
        m >= 1,
    ensures
        outcome.history.len() <= outcome.instructions_executed <= m,
{
}

/// A trace starts well recorded.
pub proof fn lemma_initial_state_well_recorded(
    pid: u32,
    max: Option<usize>,
    visibility: VisibilityConfiguration,
)
    ensures
        well_recorded(max, visibility, initial_state(pid)),
{
}

/// A trace stays well recorded over every stop.
pub proof fn lemma_next_state_well_recorded(
    max: Option<usize>,
    visibility: VisibilityConfiguration,
    before: TraceState,
    event: Stop,
)
    requires
        well_recorded(max, visibility, before),
        before.outcome.history.len() < usize::MAX,
    ensures
        well_recorded(max, visibility, next_state(max, visibility, before, event)),
{
    let after = next_state(max, visibility, before, event);
    assert(after.outcome.history.len() >= 1 ==> after.outcome.starting_address == Some(
        after.outcome.history[0].rip.value,
    ));
    assert forall|i: int| 0 <= i < after.outcome.history.len() implies recordable(
        visibility,
        #[trigger] after.outcome.history[i],
    ) by {
        if i < before.outcome.history.len() {
            assert(after.outcome.history[i] == before.outcome.history[i]);
        }
    }
}

/// The state of a trace that began in `start`, after these stops in order.
pub open spec fn state_after(
    max: Option<usize>,
    visibility: VisibilityConfiguration,
    start: TraceState,
    events: Seq<Stop>,
) -> TraceState
    decreases events.len(),
{
    if events.len() == 0 {
        start
    } else {
        next_state(
            max,
            visibility,
            state_after(max, visibility, start, events.drop_last()),
            events.last(),
        )
    }
}

/// However the process behaves, its trace is well recorded after every stop,
/// and holds at most one snapshot for each stop. The stops are fewer than a
/// vector can hold.
pub proof fn lemma_every_trace_well_recorded(
    pid: u32,
    max: Option<usize>,
    visibility: VisibilityConfiguration,
    events: Seq<Stop>,
)
    requires
        events.len() <= usize::MAX,
    ensures
        well_recorded(
            max,
            visibility,
            state_after(max, visibility, initial_state(pid), events),
        ),
        state_after(max, visibility, initial_state(pid), events).outcome.history.len()
            <= events.len(),
    decreases events.len(),
{
    if events.len() > 0 {
        lemma_every_trace_well_recorded(pid, max, visibility, events.drop_last());
        lemma_next_state_well_recorded(
            max,
            visibility,
            state_after(max, visibility, initial_state(pid), events.drop_last()),
            events.last(),
        );
    }
}

/// Whether a stop is one step of the process that the trace counts: a
/// `SIGTRAP` that is not in front of an `int3`.
pub open spec fn is_counted(event: Stop) -> bool {
    match event {
        Stop::Stopped(Signal::Trap, snapshot) => !snapshot.stands_at("int3"@),
        _ => false,
    }
}

/// How many of these stops the trace counts.
pub open spec fn counted_stops(events: Seq<Stop>) -> nat
    decreases events.len(),
{
    if events.len() == 0 {
        0
    } else if is_counted(events.last()) {
        counted_stops(events.drop_last()) + 1
    } else {
        counted_stops(events.drop_last())
    }
}

/// The snapshots of the counted stops at visible addresses, in order.
pub open spec fn visible_stops(
    visibility: VisibilityConfiguration,
    events: Seq<Stop>,
) -> Seq<Snapshot>
    decreases events.len(),
{
    if events.len() == 0 {
        Seq::empty()
    } else {
        let earlier = visible_stops(visibility, events.drop_last());
        match events.last() {
            Stop::Stopped(Signal::Trap, snapshot) => if is_counted(events.last())
                && visibility.accepts(snapshot.rip.value) {
                earlier.push(snapshot)
            } else {
                earlier
            },
            _ => earlier,
        }
    }
}

/// While a trace goes on, it has counted every step of the process, and its
/// history is exactly the snapshots of the steps at visible addresses, in the
/// order of the stops.
pub proof fn lemma_trace_in_progress_is_complete(
    pid: u32,
    max: Option<usize>,
    visibility: VisibilityConfiguration,
    events: Seq<Stop>,
)
    requires
        events.len() < usize::MAX,
        !state_after(max, visibility, initial_state(pid), events).finished,
    ensures
        state_after(max, visibility, initial_state(pid), events).outcome.instructions_executed
            == counted_stops(events),
        state_after(max, visibility, initial_state(pid), events).outcome.history
            == visible_stops(visibility, events),
        counted_stops(events) <= events.len(),
    decreases events.len(),
{
    if events.len() > 0 {
        lemma_trace_in_progress_is_complete(pid, max, visibility, events.drop_last());
    }
}

/// The step at which a trace runs into a cap of at least one instruction is
/// the one that makes the count equal to the cap.
pub proof fn lemma_cap_is_met_exactly(
    m: usize,
    visibility: VisibilityConfiguration,
    before: TraceState,
    event: Stop,
)
    requires
        well_recorded(Some(m), visibility, before),
        m >= 1,
        next_action(Some(m), before, event) == TraceAction::StepAndFinish,
    ensures
        next_state(Some(m), visibility, before, event).finished,
        next_state(Some(m), visibility, before, event).outcome.instructions_executed == m,
        next_state(Some(m), visibility, before, event).outcome.history == before.outcome.history,
{
}

/// Whether none of these stops is at an address that `visibility` accepts.
pub open spec fn nothing_visible(visibility: VisibilityConfiguration, events: Seq<Stop>) -> bool {
    forall|i: int|
        0 <= i < events.len() ==> (#[trigger] events[i] matches Stop::Stopped(_, snapshot)
            ==> !visibility.accepts(snapshot.rip.value))
}

/// Whether no signal but `SIGTRAP` stops the process at any of these stops.
pub open spec fn never_crashes(events: Seq<Stop>) -> bool {
    forall|i: int|
        0 <= i < events.len() ==> (#[trigger] events[i] matches Stop::Stopped(signal, _)
            ==> signal is Trap)
}

/// Whether a trace ended at the instruction cap or with the process's own
/// exit: the reason says which, and the exit code is there only for an exit.
pub open spec fn ended_orderly(max: Option<usize>, outcome: Outcome) -> bool {
    match outcome.exit_code {
        Some(code) => outcome.exit_reason == Some(clean_exit_text(code)),
        None => max matches Some(m) && outcome.exit_reason == Some(instruction_cap_text(m)),
    }
}

/// A trace under a filter that accepts none of the stops records nothing:
/// its history stays empty and it has no starting address.
pub proof fn lemma_nothing_visible_records_nothing(
    pid: u32,
    max: Option<usize>,
    visibility: VisibilityConfiguration,
    events: Seq<Stop>,
)
    requires
        nothing_visible(visibility, events),
    ensures
        state_after(max, visibility, initial_state(pid), events).outcome.history
            == Seq::<Snapshot>::empty(),
        state_after(max, visibility, initial_state(pid), events).outcome.starting_address
            is None,
    decreases events.len(),
{
    if events.len() > 0 {
        let earlier = events.drop_last();
        assert forall|i: int| 0 <= i < earlier.len() implies (#[trigger] earlier[i] matches Stop::Stopped(
            _,
            snapshot,
        ) ==> !visibility.accepts(snapshot.rip.value)) by {
            assert(earlier[i] == events[i]);
        }
        lemma_nothing_visible_records_nothing(pid, max, visibility, earlier);
        assert(events.last() == events[events.len() - 1]);
    }
}

/// The count of executed instructions never falls.
pub proof fn lemma_count_never_falls(
    pid: u32,
    max: Option<usize>,
    visibility: VisibilityConfiguration,
    events: Seq<Stop>,
    k: int,
)
    requires
        0 <= k <= events.len(),
    ensures
        state_after(max, visibility, initial_state(pid), events.take(k)).outcome.instructions_executed
            <= state_after(max, visibility, initial_state(pid), events).outcome.instructions_executed,
    decreases events.len() - k,
{
    if k == events.len() {
        assert(events.take(k) =~= events);
    } else {
        let longer = events.take(k + 1);
        assert(longer.drop_last() =~= events.take(k));
        lemma_count_never_falls(pid, max, visibility, events, k + 1);
    }
}

/// A step that the process makes while the trace goes on is counted, whether
/// or not its address is visible: from then on at least one instruction is
/// executed.
pub proof fn lemma_hidden_steps_are_counted(
    pid: u32,
    max: Option<usize>,
    visibility: VisibilityConfiguration,
    events: Seq<Stop>,
    i: int,
)
    requires
        0 <= i < events.len(),
        is_counted(events[i]),
        !state_after(max, visibility, initial_state(pid), events.take(i)).finished,
    ensures
        state_after(max, visibility, initial_state(pid), events).outcome.instructions_executed
            >= 1,
{
    let upto = events.take(i + 1);
    assert(upto.drop_last() =~= events.take(i));
    assert(upto.last() == events[i]);
    lemma_count_never_falls(pid, max, visibility, events, i + 1);
}

/// The trace of a process that does not crash ends, if it ends, at the
/// instruction cap or with the process's own exit.
pub proof fn lemma_trace_ends_orderly(
    pid: u32,
    max: Option<usize>,
    visibility: VisibilityConfiguration,
    events: Seq<Stop>,
)
    requires
        never_crashes(events),
        state_after(max, visibility, initial_state(pid), events).finished,
    ensures
        ended_orderly(max, state_after(max, visibility, initial_state(pid), events).outcome),
    decreases events.len(),
{
    if events.len() > 0 {
        let earlier = events.drop_last();
        assert(events.last() == events[events.len() - 1]);
        if state_after(max, visibility, initial_state(pid), earlier).finished {
            assert forall|i: int| 0 <= i < earlier.len() implies (#[trigger] earlier[i] matches Stop::Stopped(
                signal,
                _,
            ) ==> signal is Trap) by {
                assert(earlier[i] == events[i]);
            }
            lemma_trace_ends_orderly(pid, max, visibility, earlier);
        }
    }
}

/// A trace in progress.
#[derive(Debug)]
pub struct Trace {
    settings: Mandrake,
    visibility: VisibilityConfiguration,
    output: MandrakeOutput,
    finished: bool,
}

impl Trace {
    /// What has been recorded, and whether the trace has ended.
    pub closed spec fn state(&self) -> TraceState {
        TraceState { outcome: self.output.deep_view(), finished: self.finished }
    }

    /// The filter that the trace records under.
    pub closed spec fn visibility(&self) -> VisibilityConfiguration {
        self.visibility
    }

    /// The settings that the trace was started with.
    pub closed spec fn settings(&self) -> Mandrake {
        self.settings
    }

    #[verifier::type_invariant]
    spec fn inv(self) -> bool {
        well_recorded(self.settings.max_logged_instructions, self.visibility, self.state())
    }

    /// The trace of process `pid` before its first stop.
    pub fn new(settings: Mandrake, pid: u32, visibility: VisibilityConfiguration) -> (trace: Self)
        ensures
            trace.state() == initial_state(pid),
            trace.visibility() == visibility,
            trace.settings() == settings,
    {
        Trace { settings, visibility, output: MandrakeOutput::new(pid), finished: false }
    }

    /// Whether the trace has ended.
    pub fn is_finished(&self) -> (finished: bool)
        ensures
            finished == self.state().finished,
    {
        self.finished
    }

    /// What has been recorded so far.
    pub fn output(&self) -> (output: &MandrakeOutput)
        ensures
            output.deep_view() == self.state().outcome,
            well_recorded(
                self.settings().max_logged_instructions,
                self.visibility(),
                self.state(),
            ),
    {
        proof {
            use_type_invariant(self);
        }
        &self.output
    }

    /// Closes the trace with what the process wrote to its standard output
    /// and standard error, as far as that was read. A stream is reported where
    /// the settings keep it.
    pub fn finish(self, stdout: Option<Vec<u8>>, stderr: Option<Vec<u8>>) -> (output:
        MandrakeOutput)
        ensures
            output.deep_view() == closed_outcome(
                self.settings(),
                self.state().outcome,
                stdout.deep_view(),
                stderr.deep_view(),
            ),
            faithful(
                self.settings().max_logged_instructions,
                self.visibility(),
                output.deep_view(),
            ),
    {
        proof {
            use_type_invariant(&self);
        }
        let mut output = self.output;
        proof {
            if stdout is Some {
                assert(stdout->0.deep_view() =~= stdout->0@);
            }
            if stderr is Some {
                assert(stderr->0.deep_view() =~= stderr->0@);
            }
        }
        output.stdout = match stdout {
            Some(bytes) => if self.settings.capture_stdout {
                Some(lossy_string(bytes.as_slice()))
            } else {
                None
            },
            None => None,
        };
        output.stderr = match stderr {
            Some(bytes) => if self.settings.capture_stderr {
                Some(lossy_string(bytes.as_slice()))
            } else {
                None
            },
            None => None,
        };
        output
    }

    /// Takes note of one stop of the process, and says how to resume it.
    pub fn on_event(self, event: TraceEvent) -> (next: (Trace, TraceAction))
        ensures
            next.0.state() == next_state(
                self.settings().max_logged_instructions,
                self.visibility(),
                self.state(),
                event.deep_view(),
            ),
            next.1 == next_action(
                self.settings().max_logged_instructions,
                self.state(),
                event.deep_view(),
            ),
            next.0.visibility() == self.visibility(),
            next.0.settings() == self.settings(),
    {
        proof {
            use_type_invariant(&self);
        }
        if self.finished {
            return (self, TraceAction::Finish);
        }
        let settings = self.settings;
        let visibility = self.visibility;
        let mut output = self.output;
        let ghost before = TraceState { outcome: output.deep_view(), finished: false };
        let ghost stop = event.deep_view();
        match event {
            TraceEvent::Exited(code) => {
                let mut reason = String::from_str("Process exited cleanly with exit code ");
                push_signed_decimal(&mut reason, code as i64);
                output.exit_reason = Some(reason);
                output.exit_code = Some(code);
                (Trace { settings, visibility, output, finished: true }, TraceAction::Finish)
            },
            TraceEvent::Stopped(StopSignal::Trap, snapshot) => {
                if snapshot.is_breakpoint() {
                    return (
                        Trace { settings, visibility, output, finished: false },
                        TraceAction::StepOverBreakpoint,
                    );
                }
                if output.instructions_executed < usize::MAX {
                    output.instructions_executed = output.instructions_executed + 1;
                }
                if let Some(max) = settings.max_logged_instructions {
                    if output.instructions_executed >= max {
                        let mut reason = String::from_str(
                            "Execution stopped at instruction cap (max instructions: ",
                        );
                        push_decimal(&mut reason, max as u64);
                        reason.append(")");
                        output.exit_reason = Some(reason);
                        return (
                            Trace { settings, visibility, output, finished: true },
                            TraceAction::StepAndFinish,
                        );
                    }
                }
                let rip = snapshot.rip.value();
                if !visibility.is_visible(rip) {
                    return (
                        Trace { settings, visibility, output, finished: false },
                        TraceAction::Step,
                    );
                }
                if output.starting_address.is_none() {
                    output.starting_address = Some(rip);
                }
                let ghost earlier = output.history.deep_view();
                output.history.push(snapshot);
                // The length of a vector fits in `usize`, so the history was
                // not yet as long as that.
                let _length: usize = output.history.len();
                proof {
                    assert(output.history.deep_view() =~= earlier.push(snapshot.deep_view()));
                    lemma_next_state_well_recorded(
                        settings.max_logged_instructions,
                        visibility,
                        before,
                        stop,
                    );
                }
                (Trace { settings, visibility, output, finished: false }, TraceAction::Step)
            },
            TraceEvent::Stopped(signal, snapshot) => {
                let reason = signal_message(&signal, snapshot.rip.value());
                output.exit_reason = Some(reason);
                (Trace { settings, visibility, output, finished: true }, TraceAction::Finish)
            },
        }
    }
}

/// The message for a process that `signal` stopped at `rip`.
pub fn signal_message(signal: &StopSignal, rip: u64) -> (message: String)
    ensures
        message@ == signal_text(signal.deep_view(), rip),
{
    let (mut message, located) = match signal {
        StopSignal::Trap => (
            String::from_str("Execution stopped by unexpected signal: SIGTRAP"),
            false,
        ),
        StopSignal::Alarm => (String::from_str("Execution timed out (SIGALRM) @ "), true),
        StopSignal::Abort => (
            String::from_str("Execution crashed with an abort (SIGABRT) @ "),
            true,
        ),
        StopSignal::Bus => (
            String::from_str(
                "Execution crashed with a bus error (bad memory access) (SIGBUS) @ ",
            ),
            true,
        ),
        StopSignal::FloatingPoint => (
            String::from_str("Execution crashed with a floating point error (SIGFPE) @ "),
            true,
        ),
        StopSignal::IllegalInstruction => (
            String::from_str("Execution crashed with an illegal instruction (SIGILL) @ "),
            true,
        ),
        StopSignal::Kill => (String::from_str("Execution was killed (SIGKILL) @ "), true),
        StopSignal::SegmentationFault => (
            String::from_str("Execution crashed with a segmentation fault (SIGSEGV) @ "),
            true,
        ),
        StopSignal::Terminate => (String::from_str("Execution was terminated (SIGTERM) @ "), true),
        StopSignal::Other(name) => {
            let mut text = String::from_str("Execution stopped by unexpected signal: ");
            text.append(name.as_str());
            (text, false)
        },
    };
    if located {
        push_address(&mut message, rip);
    }
    message
}

} // verus!
