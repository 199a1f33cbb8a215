//! What a trace leaves behind: the register snapshots that were recorded, and
//! how the traced process ended.

use crate::analyzed_value::{analysis, Analysis, AnalyzedValue};
use vstd::prelude::*;

verus! {

/// The registers that a snapshot holds.
#[derive(Clone, Copy, Debug, PartialEq, Eq, Structural)]
pub enum Register {
    Rip,
    Rax,
    Rbx,
    Rcx,
    Rdx,
    Rsi,
    Rdi,
    Rbp,
    Rsp,
}

/// The register values of a stopped process, as the kernel reports them: the
/// nine that are recorded, and the three that only carry system call
/// arguments.
#[derive(Clone, Copy, Debug, PartialEq, Eq, Structural)]
pub struct Registers {
    pub rip: u64,
    pub rax: u64,
    pub rbx: u64,
    pub rcx: u64,
    pub rdx: u64,
    pub rsi: u64,
    pub rdi: u64,
    pub rbp: u64,
    pub rsp: u64,
    pub r8: u64,
    pub r9: u64,
    pub r10: u64,
}

/// What was read from memory at each recorded register's value: `None` where
/// the address could not be read.
#[derive(Debug)]
pub struct Probes {
    pub rip: Option<Vec<u8>>,
    pub rax: Option<Vec<u8>>,
    pub rbx: Option<Vec<u8>>,
    pub rcx: Option<Vec<u8>>,
    pub rdx: Option<Vec<u8>>,
    pub rsi: Option<Vec<u8>>,
    pub rdi: Option<Vec<u8>>,
    pub rbp: Option<Vec<u8>>,
    pub rsp: Option<Vec<u8>>,
}

/// `Probes` as mathematics.
pub struct ProbedMemory {
    pub rip: Option<Seq<u8>>,
    pub rax: Option<Seq<u8>>,
    pub rbx: Option<Seq<u8>>,
    pub rcx: Option<Seq<u8>>,
    pub rdx: Option<Seq<u8>>,
    pub rsi: Option<Seq<u8>>,
    pub rdi: Option<Seq<u8>>,
    pub rbp: Option<Seq<u8>>,
    pub rsp: Option<Seq<u8>>,
}

impl DeepView for Probes {
    type V = ProbedMemory;

    open spec fn deep_view(&self) -> ProbedMemory {
        ProbedMemory {
            rip: self.rip.deep_view(),
            rax: self.rax.deep_view(),
            rbx: self.rbx.deep_view(),
            rcx: self.rcx.deep_view(),
            rdx: self.rdx.deep_view(),
            rsi: self.rsi.deep_view(),
            rdi: self.rdi.deep_view(),
            rbp: self.rbp.deep_view(),
            rsp: self.rsp.deep_view(),
        }
    }
}

/// The analyzed registers of one stop.
#[derive(Clone, Debug)]
pub struct RegisterSnapshot {
    pub rip: AnalyzedValue,
    pub rax: AnalyzedValue,
    pub rbx: AnalyzedValue,
    pub rcx: AnalyzedValue,
    pub rdx: AnalyzedValue,
    pub rsi: AnalyzedValue,
    pub rdi: AnalyzedValue,
    pub rbp: AnalyzedValue,
    pub rsp: AnalyzedValue,
}

/// A register snapshot as mathematics.
pub struct Snapshot {
    pub rip: Analysis,
    pub rax: Analysis,
    pub rbx: Analysis,
    pub rcx: Analysis,
    pub rdx: Analysis,
    pub rsi: Analysis,
    pub rdi: Analysis,
    pub rbp: Analysis,
    pub rsp: Analysis,
}

impl Snapshot {
    /// The slot of `register`.
    pub open spec fn slot(self, register: Register) -> Analysis {
        match register {
            Register::Rip => self.rip,
            Register::Rax => self.rax,
            Register::Rbx => self.rbx,
            Register::Rcx => self.rcx,
            Register::Rdx => self.rdx,
            Register::Rsi => self.rsi,
            Register::Rdi => self.rdi,
            Register::Rbp => self.rbp,
            Register::Rsp => self.rsp,
        }
    }

    /// Whether the instruction pointer stands at the instruction `text`.
    pub open spec fn stands_at(self, text: Seq<char>) -> bool {
        self.rip.as_instruction == Some(text)
    }
}

impl DeepView for RegisterSnapshot {
    type V = Snapshot;

    open spec fn deep_view(&self) -> Snapshot {
        Snapshot {
            rip: self.rip@,
            rax: self.rax@,
            rbx: self.rbx@,
            rcx: self.rcx@,
            rdx: self.rdx@,
            rsi: self.rsi@,
            rdi: self.rdi@,
            rbp: self.rbp@,
            rsp: self.rsp@,
        }
    }
}

/// The snapshot of `registers`, given what was read at each value. The
/// instruction pointer is analyzed as one; no other register is.
pub open spec fn snapshot_of(
    registers: Registers,
    probes: ProbedMemory,
    snippit_length: nat,
    minimum_viable_string: nat,
) -> Snapshot {
    Snapshot {
        rip: analysis(registers.rip, probes.rip, true, snippit_length, minimum_viable_string),
        rax: analysis(registers.rax, probes.rax, false, snippit_length, minimum_viable_string),
        rbx: analysis(registers.rbx, probes.rbx, false, snippit_length, minimum_viable_string),
        rcx: analysis(registers.rcx, probes.rcx, false, snippit_length, minimum_viable_string),
        rdx: analysis(registers.rdx, probes.rdx, false, snippit_length, minimum_viable_string),
        rsi: analysis(registers.rsi, probes.rsi, false, snippit_length, minimum_viable_string),
        rdi: analysis(registers.rdi, probes.rdi, false, snippit_length, minimum_viable_string),
        rbp: analysis(registers.rbp, probes.rbp, false, snippit_length, minimum_viable_string),
        rsp: analysis(registers.rsp, probes.rsp, false, snippit_length, minimum_viable_string),
    }
}

impl Register {
    /// The register's name, in lower case.
    pub fn name(&self) -> (name: &'static str)
        ensures
            name@ == match *self {
                Register::Rip => "rip"@,
                Register::Rax => "rax"@,
                Register::Rbx => "rbx"@,
                Register::Rcx => "rcx"@,
                Register::Rdx => "rdx"@,
                Register::Rsi => "rsi"@,
                Register::Rdi => "rdi"@,
                Register::Rbp => "rbp"@,
                Register::Rsp => "rsp"@,
            },
    {
        match self {
            Register::Rip => "rip",
            Register::Rax => "rax",
            Register::Rbx => "rbx",
            Register::Rcx => "rcx",
            Register::Rdx => "rdx",
            Register::Rsi => "rsi",
            Register::Rdi => "rdi",
            Register::Rbp => "rbp",
            Register::Rsp => "rsp",
        }
    }
}

impl RegisterSnapshot {
    /// Analyzes the nine recorded registers from their values and from what
    /// was read at each.
    pub fn analyze(
        registers: &Registers,
        probes: Probes,
        snippit_length: usize,
        minimum_viable_string: usize,
    ) -> (snapshot: Self)
        ensures
            snapshot.deep_view() == snapshot_of(
                *registers,
                probes.deep_view(),
                snippit_length as nat,
                minimum_viable_string as nat,
            ),
    {
        let s = snippit_length;
        let m = minimum_viable_string;
        RegisterSnapshot {
            rip: AnalyzedValue::new(registers.rip, probes.rip, true, s, m),
            rax: AnalyzedValue::new(registers.rax, probes.rax, false, s, m),
            rbx: AnalyzedValue::new(registers.rbx, probes.rbx, false, s, m),
            rcx: AnalyzedValue::new(registers.rcx, probes.rcx, false, s, m),
            rdx: AnalyzedValue::new(registers.rdx, probes.rdx, false, s, m),
            rsi: AnalyzedValue::new(registers.rsi, probes.rsi, false, s, m),
            rdi: AnalyzedValue::new(registers.rdi, probes.rdi, false, s, m),
            rbp: AnalyzedValue::new(registers.rbp, probes.rbp, false, s, m),
            rsp: AnalyzedValue::new(registers.rsp, probes.rsp, false, s, m),
        }
    }

    /// The slot of `register`.
    pub fn get(&self, register: Register) -> (slot: &AnalyzedValue)
        ensures
            slot@ == self.deep_view().slot(register),
    {
        match register {
            Register::Rip => &self.rip,
            Register::Rax => &self.rax,
            Register::Rbx => &self.rbx,
            Register::Rcx => &self.rcx,
            Register::Rdx => &self.rdx,
            Register::Rsi => &self.rsi,
            Register::Rdi => &self.rdi,
            Register::Rbp => &self.rbp,
            Register::Rsp => &self.rsp,
        }
    }

    /// Whether the process stopped in front of a `syscall` instruction.
    pub fn is_syscall(&self) -> (yes: bool)
        ensures
            yes == self.deep_view().stands_at("syscall"@),
            yes ==> self.deep_view().rip.memory is Some,
    {
        self.rip.is_instruction("syscall")
    }

    /// Whether the process stopped in front of an `int3` instruction.
    pub fn is_breakpoint(&self) -> (yes: bool)
        ensures
            yes == self.deep_view().stands_at("int3"@),
    {
        self.rip.is_instruction("int3")
    }

    /// The snapshot with `lines` attached to the instruction pointer as its
    /// extra information.
    pub fn with_syscall_info(self, lines: Vec<String>) -> (annotated: Self)
        ensures
            annotated.deep_view() == (Snapshot {
                rip: Analysis {
                    extra: if self.rip@.memory is Some {
                        Some(lines.deep_view())
                    } else {
                        None
                    },
                    ..self.rip@
                },
                ..self.deep_view()
            }),
    {
        RegisterSnapshot {
            rip: self.rip.with_extra(lines),
            rax: self.rax,
            rbx: self.rbx,
            rcx: self.rcx,
            rdx: self.rdx,
            rsi: self.rsi,
            rdi: self.rdi,
            rbp: self.rbp,
            rsp: self.rsp,
        }
    }
}

/// The result of one trace.
#[derive(Clone, Debug)]
pub struct MandrakeOutput {
    /// Always true: a trace that could not be made gives no output at all.
    pub success: bool,
    /// The process that was traced.
    pub pid: u32,
    /// The recorded snapshots, in the order in which the process stopped.
    pub history: Vec<RegisterSnapshot>,
    /// The instruction pointer of the first recorded snapshot.
    pub starting_address: Option<u64>,
    /// How many instructions were stepped over, recorded or not.
    pub instructions_executed: usize,
    /// What the process wrote to its standard output, where that was kept.
    pub stdout: Option<String>,
    /// What the process wrote to its standard error, where that was kept.
    pub stderr: Option<String>,
    /// Why the trace ended.
    pub exit_reason: Option<String>,
    /// The exit code of a process that ended by itself.
    pub exit_code: Option<i32>,
}

/// The result of one trace as mathematics.
pub struct Outcome {
    pub success: bool,
    pub pid: u32,
    pub history: Seq<Snapshot>,
    pub starting_address: Option<u64>,
    pub instructions_executed: nat,
    pub stdout: Option<Seq<char>>,
    pub stderr: Option<Seq<char>>,
    pub exit_reason: Option<Seq<char>>,
    pub exit_code: Option<i32>,
}

impl DeepView for MandrakeOutput {
    type V = Outcome;

    open spec fn deep_view(&self) -> Outcome {
        Outcome {
            success: self.success,
            pid: self.pid,
            history: self.history.deep_view(),
            starting_address: self.starting_address,
            instructions_executed: self.instructions_executed as nat,
            stdout: self.stdout.deep_view(),
            stderr: self.stderr.deep_view(),
            exit_reason: self.exit_reason.deep_view(),
            exit_code: self.exit_code,
        }
    }
}

/// The outcome of a trace of `pid` in which nothing has happened yet.
pub open spec fn blank_outcome(pid: u32) -> Outcome {
    Outcome {
        success: true,
        pid,
        history: Seq::empty(),
        starting_address: None,
        instructions_executed: 0,
        stdout: None,
        stderr: None,
        exit_reason: None,
        exit_code: None,
    }
}

impl MandrakeOutput {
    /// The output of a trace of `pid` in which nothing has happened yet.
    pub fn new(pid: u32) -> (output: Self)
        ensures
            output.deep_view() == blank_outcome(pid),
    {
        let output = MandrakeOutput {
            success: true,
            pid,
            history: Vec::new(),
            starting_address: None,
            instructions_executed: 0,
            stdout: None,
            stderr: None,
            exit_reason: None,
            exit_code: None,
        };
        assert(output.deep_view().history =~= Seq::empty());
        output
    }
}

} // verus!
