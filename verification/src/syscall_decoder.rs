//! System calls made readable: the call's name, and one line for each
//! argument register that the call uses.
//!
//! How an argument is shown depends on what the table says of it. An array
//! of strings is walked entry by entry, which takes reads of the traced
//! process's memory; [`ArrayWalk`] says which reads, and takes their results.

use crate::analyzed_value::{analysis, Analysis, AnalyzedValue};
use crate::mandrake_output::{snapshot_of, ProbedMemory, RegisterSnapshot, Registers, Snapshot};
use crate::hex_codec::{hex_encode, hex_text};
use crate::memory::PROBE_FLOOR;
use crate::syscall_table::SyscallTable;
use crate::syscalls::{ArgumentRegister, Call, Parameter, SyscallEntry};
use crate::text::{address_text, decimal_text, push_address, push_decimal};
use vstd::prelude::*;
use vstd::slice::slice_subrange;
use vstd::string::*;

verus! {

/// How many bytes behind a pointer are shown.
pub const MAX_SYSCALL_MEMORY_SNIPPIT: usize = 8;

/// One argument register at a system call: its analyzed value and, where the
/// value was walked as an array of strings, the strings that were found.
#[derive(Debug)]
pub struct Argument {
    pub value: AnalyzedValue,
    pub strings: Vec<String>,
}

/// An argument register at a system call as mathematics.
pub struct ArgumentValue {
    pub value: Analysis,
    pub strings: Seq<Seq<char>>,
}

impl DeepView for Argument {
    type V = ArgumentValue;

    open spec fn deep_view(&self) -> ArgumentValue {
        ArgumentValue { value: self.value@, strings: self.strings.deep_view() }
    }
}

/// `text` between double quotes.
pub open spec fn quoted(text: Seq<char>) -> Seq<char> {
    seq!['"'] + text + seq!['"']
}

/// The strings, each between double quotes, with a comma and a space between
/// one and the next.
pub open spec fn quoted_list(strings: Seq<Seq<char>>) -> Seq<char>
    decreases strings.len(),
{
    if strings.len() == 0 {
        Seq::empty()
    } else if strings.len() == 1 {
        quoted(strings[0])
    } else {
        quoted_list(strings.drop_last()) + seq![',', ' '] + quoted(strings.last())
    }
}

/// The bytes that are shown of the memory behind a pointer: the first eight,
/// or all of them where there are fewer.
pub open spec fn shown_bytes(memory: Seq<u8>) -> Seq<u8> {
    if memory.len() > MAX_SYSCALL_MEMORY_SNIPPIT {
        memory.take(MAX_SYSCALL_MEMORY_SNIPPIT as int)
    } else {
        memory
    }
}

/// How an argument is shown. The first of these that applies decides: an
/// array is its strings between `[ ` and ` ]`, or a note where the pointer is
/// null; a
/// string is its text between backticks, or a note with the address where no
/// text is there; a pointer is the first bytes behind it in hexadecimal, or a
/// note where it is null or unreadable; anything else is the value as an
/// address between backticks.
pub open spec fn argument_text(parameter: Parameter, argument: ArgumentValue) -> Seq<char> {
    let value = argument.value;
    if parameter.is_array {
        if value.value == 0 {
            "(Empty array)"@
        } else {
            "[ "@ + quoted_list(argument.strings) + " ]"@
        }
    } else if parameter.is_string {
        match value.as_string {
            Some(text) => seq!['`'] + text + seq!['`'],
            None => "Invalid string: "@ + address_text(value.value),
        }
    } else if parameter.is_pointer {
        if value.value == 0 {
            "(nil)"@
        } else {
            match value.memory {
                Some(memory) => seq!['`'] + hex_text(shown_bytes(memory)) + "...`"@,
                None => "Invalid memory pointer: "@ + address_text(value.value),
            }
        }
    } else {
        seq!['`'] + address_text(value.value) + seq!['`']
    }
}

/// The line for one argument: its name, its register, and how it is shown.
pub open spec fn argument_line(
    parameter: Parameter,
    register: ArgumentRegister,
    argument: ArgumentValue,
) -> Seq<char> {
    parameter.field_name + " ("@ + register.spec_name() + ") = "@ + argument_text(
        parameter,
        argument,
    )
}

/// The line for one register: none where the call does not use it.
pub open spec fn register_lines(
    slot: Option<Parameter>,
    register: ArgumentRegister,
    argument: ArgumentValue,
) -> Seq<Seq<char>> {
    match slot {
        Some(parameter) => seq![argument_line(parameter, register, argument)],
        None => Seq::empty(),
    }
}

/// The lines for the arguments of `call`, in the order of the registers.
pub open spec fn argument_lines(
    call: Call,
    rdi: ArgumentValue,
    rsi: ArgumentValue,
    rdx: ArgumentValue,
    r10: ArgumentValue,
    r8: ArgumentValue,
    r9: ArgumentValue,
) -> Seq<Seq<char>> {
    register_lines(call.rdi, ArgumentRegister::Rdi, rdi) + register_lines(
        call.rsi,
        ArgumentRegister::Rsi,
        rsi,
    ) + register_lines(call.rdx, ArgumentRegister::Rdx, rdx) + register_lines(
        call.r10,
        ArgumentRegister::R10,
        r10,
    ) + register_lines(call.r8, ArgumentRegister::R8, r8) + register_lines(
        call.r9,
        ArgumentRegister::R9,
        r9,
    )
}

/// The first line for a call that the table knows.
pub open spec fn known_call_text(name: Seq<char>) -> Seq<char> {
    "Syscall: `"@ + name + seq!['`']
}

/// The only line for a call that the table does not know: the call's number
/// in decimal.
pub open spec fn unknown_call_text(number: u64) -> Seq<char> {
    "Unknown syscall: "@ + decimal_text(number as nat)
}

/// The lines that describe the system call with the number in `rax`.
pub open spec fn syscall_lines(
    table: Map<u64, Call>,
    rax: u64,
    rdi: ArgumentValue,
    rsi: ArgumentValue,
    rdx: ArgumentValue,
    r10: ArgumentValue,
    r8: ArgumentValue,
    r9: ArgumentValue,
) -> Seq<Seq<char>> {
    if table.contains_key(rax) {
        seq![known_call_text(table[rax].name)] + argument_lines(
            table[rax],
            rdi,
            rsi,
            rdx,
            r10,
            r8,
            r9,
        )
    } else {
        seq![unknown_call_text(rax)]
    }
}

/// A call has one argument line for each register that it uses.
pub proof fn lemma_one_line_per_argument(
    call: Call,
    rdi: ArgumentValue,
    rsi: ArgumentValue,
    rdx: ArgumentValue,
    r10: ArgumentValue,
    r8: ArgumentValue,
    r9: ArgumentValue,
)
    ensures
        argument_lines(call, rdi, rsi, rdx, r10, r8, r9).len() == call.arity(),
{
}

/// A known call is described by its name and one line for each register that
/// it uses; an unknown call by one line.
pub proof fn lemma_syscall_lines_count(
    table: Map<u64, Call>,
    rax: u64,
    rdi: ArgumentValue,
    rsi: ArgumentValue,
    rdx: ArgumentValue,
    r10: ArgumentValue,
    r8: ArgumentValue,
    r9: ArgumentValue,
)
    ensures
        syscall_lines(table, rax, rdi, rsi, rdx, r10, r8, r9).len() == if table.contains_key(rax) {
            1 + table[rax].arity()
        } else {
            1
        },
{
    if table.contains_key(rax) {
        lemma_one_line_per_argument(table[rax], rdi, rsi, rdx, r10, r8, r9);
    }
}

fn push_quoted_list(out: &mut String, strings: &Vec<String>)
    ensures
        final(out)@ == old(out)@ + quoted_list(strings.deep_view()),
{
    let ghost all = strings.deep_view();
    let mut i: usize = 0;
    assert(quoted_list(all.take(0)) =~= Seq::<char>::empty());
    while i < strings.len()
        invariant
            i <= strings.len(),
            all == strings.deep_view(),
            out@ == old(out)@ + quoted_list(all.take(i as int)),
        decreases strings.len() - i,
    {
        let ghost earlier = all.take(i as int);
        let ghost upto = all.take(i + 1);
        proof {
            assert(upto.drop_last() =~= earlier);
            assert(upto.last() == strings[i as int]@);
            if i == 0 {
                assert(upto[0] == strings[i as int]@);
                assert(quoted_list(earlier) =~= Seq::<char>::empty());
            }
        }
        if i > 0 {
            out.push(',');
            out.push(' ');
        }
        out.push('"');
        out.append(strings[i].as_str());
        out.push('"');
        i = i + 1;
        assert(out@ =~= old(out)@ + quoted_list(upto));
    }
    assert(all.take(strings.len() as int) =~= all);
}

impl SyscallEntry {
    /// Whether an argument of this kind with this value is walked as an array
    /// of strings: it is an array, and the pointer to it is not null.
    pub fn is_walked(&self, value: u64) -> (walked: bool)
        ensures
            walked == (self.is_array && value != 0),
    {
        self.is_array && value != 0
    }
}

impl AnalyzedValue {
    /// How the argument `argument` of kind `entry` is shown.
    pub fn syscall_param(entry: &SyscallEntry, argument: &Argument) -> (text: String)
        ensures
            text@ == argument_text(entry.deep_view(), argument.deep_view()),
    {
        let value = argument.value.value();
        if entry.is_array {
            if value != 0 {
                let mut text = String::from_str("[ ");
                push_quoted_list(&mut text, &argument.strings);
                text.append(" ]");
                text
            } else {
                String::from_str("(Empty array)")
            }
        } else if entry.is_string {
            match argument.value.as_string() {
                Some(string) => {
                    let mut text = String::new();
                    text.push('`');
                    text.append(string.as_str());
                    text.push('`');
                    assert(text@ =~= seq!['`'] + string@ + seq!['`']);
                    text
                },
                None => {
                    let mut text = String::from_str("Invalid string: ");
                    push_address(&mut text, value);
                    text
                },
            }
        } else if entry.is_pointer {
            if value == 0 {
                String::from_str("(nil)")
            } else {
                match argument.value.memory() {
                    Some(memory) => {
                        let shown = if memory.len() > MAX_SYSCALL_MEMORY_SNIPPIT {
                            slice_subrange(memory.as_slice(), 0, MAX_SYSCALL_MEMORY_SNIPPIT)
                        } else {
                            memory.as_slice()
                        };
                        assert(shown@ =~= shown_bytes(memory@));
                        let mut text = String::new();
                        text.push('`');
                        text.append(hex_encode(shown).as_str());
                        text.append("...`");
                        assert(text@ =~= seq!['`'] + hex_text(shown_bytes(memory@)) + "...`"@);
                        text
                    },
                    None => {
                        let mut text = String::from_str("Invalid memory pointer: ");
                        push_address(&mut text, value);
                        text
                    },
                }
            }
        } else {
            let mut text = String::new();
            text.push('`');
            push_address(&mut text, value);
            text.push('`');
            assert(text@ =~= seq!['`'] + address_text(value) + seq!['`']);
            text
        }
    }

    /// The lines that describe the system call at which the registers hold
    /// these values: the call's name, then one line for each argument register
    /// that the call uses; or one line that says that the call is not known.
    pub fn syscall_info(
        table: &SyscallTable,
        rax: &AnalyzedValue,
        rdi: &Argument,
        rsi: &Argument,
        rdx: &Argument,
        r10: &Argument,
        r8: &Argument,
        r9: &Argument,
    ) -> (lines: Vec<String>)
        ensures
            lines.deep_view() == syscall_lines(
                table@,
                rax@.value,
                rdi.deep_view(),
                rsi.deep_view(),
                rdx.deep_view(),
                r10.deep_view(),
                r8.deep_view(),
                r9.deep_view(),
            ),
    {
        let number = rax.value();
        match table.get(number) {
            Some(call) => {
                let mut first = String::from_str("Syscall: `");
                first.append(call.name.as_str());
                first.push('`');
                assert(first@ =~= known_call_text(call.name@));
                let mut lines: Vec<String> = Vec::new();
                lines.push(first);
                assert(lines.deep_view() =~= seq![known_call_text(call.name@)]);
                push_argument_line(&mut lines, &call.rdi, ArgumentRegister::Rdi, rdi);
                push_argument_line(&mut lines, &call.rsi, ArgumentRegister::Rsi, rsi);
                push_argument_line(&mut lines, &call.rdx, ArgumentRegister::Rdx, rdx);
                push_argument_line(&mut lines, &call.r10, ArgumentRegister::R10, r10);
                push_argument_line(&mut lines, &call.r8, ArgumentRegister::R8, r8);
                push_argument_line(&mut lines, &call.r9, ArgumentRegister::R9, r9);
                assert(lines.deep_view() =~= syscall_lines(
                    table@,
                    rax@.value,
                    rdi.deep_view(),
                    rsi.deep_view(),
                    rdx.deep_view(),
                    r10.deep_view(),
                    r8.deep_view(),
                    r9.deep_view(),
                ));
                lines
            },
            None => {
                let mut only = String::from_str("Unknown syscall: ");
                push_decimal(&mut only, number);
                let mut lines: Vec<String> = Vec::new();
                lines.push(only);
                assert(lines.deep_view() =~= seq![unknown_call_text(number)]);
                lines
            },
        }
    }
}

fn push_argument_line(
    lines: &mut Vec<String>,
    slot: &Option<SyscallEntry>,
    register: ArgumentRegister,
    argument: &Argument,
)
    ensures
        final(lines).deep_view() == old(lines).deep_view() + register_lines(
            slot.deep_view(),
            register,
            argument.deep_view(),
        ),
{
    match slot {
        Some(entry) => {
            let mut line = String::new();
            line.append(entry.field_name.as_str());
            line.append(" (");
            line.append(register.name());
            line.append(") = ");
            line.append(AnalyzedValue::syscall_param(entry, argument).as_str());
            assert(line@ =~= argument_line(entry.deep_view(), register, argument.deep_view()));
            lines.push(line);
            assert(final(lines).deep_view() =~= old(lines).deep_view() + register_lines(
                slot.deep_view(),
                register,
                argument.deep_view(),
            ));
        },
        None => {
            assert(final(lines).deep_view() =~= old(lines).deep_view() + register_lines(
                slot.deep_view(),
                register,
                argument.deep_view(),
            ));
        },
    }
}


/// What a walk over an array of strings needs next from the traced process.
#[derive(Clone, Copy, Debug, PartialEq, Eq, Structural)]
pub enum WalkRequest {
    /// The word at this address: the next entry of the array.
    Entry(u64),
    /// The memory at this address, as for any analyzed value: the string that
    /// the entry points at.
    Text(u64),
    /// Nothing: the walk is over.
    Nothing,
}

/// A walk over an array of pointers to strings, such as the arguments of
/// `execve`.
///
/// The entries are read one word at a time from the array's address on. A
/// null entry ends the array, and so does an entry that cannot be read or
/// that lies beyond the address space. Each other entry is analyzed as a
/// value; the walk takes its string and goes on, or ends where the entry
/// points at no string.
#[derive(Debug)]
pub struct ArrayWalk {
    cursor: u64,
    strings: Vec<String>,
    pending: WalkRequest,
}

/// A walk as mathematics: the address of the entry that is looked at, the
/// strings found so far, and what the walk waits for.
pub struct Walk {
    pub cursor: u64,
    pub strings: Seq<Seq<char>>,
    pub pending: WalkRequest,
}

/// The walk over the array at `base`, before anything was read.
pub open spec fn walk_from(base: u64) -> Walk {
    Walk { cursor: base, strings: Seq::empty(), pending: WalkRequest::Entry(base) }
}

/// The walk after the entry that it asked for was read: `word` is the entry,
/// or `None` where it could not be read.
pub open spec fn after_entry(walk: Walk, word: Option<u64>) -> Walk {
    match walk.pending {
        WalkRequest::Entry(_) => match word {
            Some(pointer) => if pointer == 0 {
                Walk { pending: WalkRequest::Nothing, ..walk }
            } else {
                Walk { pending: WalkRequest::Text(pointer), ..walk }
            },
            None => Walk { pending: WalkRequest::Nothing, ..walk },
        },
        _ => walk,
    }
}

/// The string that an array entry points at, given what was read there.
pub open spec fn entry_string(pointer: u64, probe: Option<Seq<u8>>) -> Option<Seq<char>> {
    analysis(pointer, probe, false, 0, 0).as_string
}

/// The walk after the memory that it asked for was read: `probe` is that
/// memory, or `None` where it could not be read.
pub open spec fn after_text(walk: Walk, probe: Option<Seq<u8>>) -> Walk {
    match walk.pending {
        WalkRequest::Text(pointer) => match entry_string(pointer, probe) {
            Some(text) => if walk.cursor + 8 <= u64::MAX {
                Walk {
                    cursor: (walk.cursor + 8) as u64,
                    strings: walk.strings.push(text),
                    pending: WalkRequest::Entry((walk.cursor + 8) as u64),
                }
            } else {
                Walk { strings: walk.strings.push(text), pending: WalkRequest::Nothing, ..walk }
            },
            None => Walk { pending: WalkRequest::Nothing, ..walk },
        },
        _ => walk,
    }
}

impl DeepView for ArrayWalk {
    type V = Walk;

    closed spec fn deep_view(&self) -> Walk {
        Walk { cursor: self.cursor, strings: self.strings.deep_view(), pending: self.pending }
    }
}

impl ArrayWalk {
    /// How many bytes to read for a `WalkRequest::Text`.
    pub const TEXT_LENGTH: usize = PROBE_FLOOR;

    /// The walk over the array at `base`.
    pub fn new(base: u64) -> (walk: Self)
        ensures
            walk.deep_view() == walk_from(base),
    {
        let walk = ArrayWalk {
            cursor: base,
            strings: Vec::new(),
            pending: WalkRequest::Entry(base),
        };
        assert(walk.strings.deep_view() =~= Seq::empty());
        walk
    }

    /// What the walk needs next.
    pub fn request(&self) -> (request: WalkRequest)
        ensures
            request == self.deep_view().pending,
    {
        self.pending
    }

    /// Hands the walk the array entry that it asked for: the word that was
    /// read, or `None` where the address could not be read.
    pub fn entry(self, word: Option<u64>) -> (walk: Self)
        ensures
            walk.deep_view() == after_entry(self.deep_view(), word),
    {
        match self.pending {
            WalkRequest::Entry(_) => {
                let pending = match word {
                    Some(pointer) => if pointer == 0 {
                        WalkRequest::Nothing
                    } else {
                        WalkRequest::Text(pointer)
                    },
                    None => WalkRequest::Nothing,
                };
                ArrayWalk { cursor: self.cursor, strings: self.strings, pending }
            },
            _ => self,
        }
    }

    /// Hands the walk the memory that it asked for: the bytes that were read,
    /// or `None` where the address could not be read.
    pub fn text(self, probe: Option<Vec<u8>>) -> (walk: Self)
        ensures
            walk.deep_view() == after_text(self.deep_view(), probe.deep_view()),
    {
        match self.pending {
            WalkRequest::Text(pointer) => {
                let pointed = AnalyzedValue::new(pointer, probe, false, 0, 0);
                match pointed.as_string() {
                    Some(text) => {
                        let mut strings = self.strings;
                        let ghost earlier = strings.deep_view();
                        strings.push(text.clone());
                        assert(strings.deep_view() =~= earlier.push(text@));
                        match self.cursor.checked_add(8) {
                            Some(next) => ArrayWalk {
                                cursor: next,
                                strings,
                                pending: WalkRequest::Entry(next),
                            },
                            None => ArrayWalk {
                                cursor: self.cursor,
                                strings,
                                pending: WalkRequest::Nothing,
                            },
                        }
                    },
                    None => ArrayWalk {
                        cursor: self.cursor,
                        strings: self.strings,
                        pending: WalkRequest::Nothing,
                    },
                }
            },
            _ => self,
        }
    }

    /// The strings that the walk found.
    pub fn into_strings(self) -> (strings: Vec<String>)
        ensures
            strings.deep_view() == self.deep_view().strings,
    {
        self.strings
    }
}

/// A register that a snapshot does not hold, as it was read at a system
/// call: its value, what was read from memory at the value, and the strings
/// that were found where the value was walked as an array.
#[derive(Debug)]
pub struct ArgumentRead {
    pub value: u64,
    pub probe: Option<Vec<u8>>,
    pub strings: Vec<String>,
}

/// An `ArgumentRead` as mathematics.
pub struct ArgumentReading {
    pub value: u64,
    pub probe: Option<Seq<u8>>,
    pub strings: Seq<Seq<char>>,
}

impl DeepView for ArgumentRead {
    type V = ArgumentReading;

    open spec fn deep_view(&self) -> ArgumentReading {
        ArgumentReading {
            value: self.value,
            probe: self.probe.deep_view(),
            strings: self.strings.deep_view(),
        }
    }
}

/// What is read at a system call beyond the snapshot: the strings found by
/// walking the arrays in `rdi`, `rsi` and `rdx`, and the registers `r10`, `r8`
/// and `r9`. An array that was not walked has no strings.
#[derive(Debug)]
pub struct SyscallReads {
    pub rdi_strings: Vec<String>,
    pub rsi_strings: Vec<String>,
    pub rdx_strings: Vec<String>,
    pub r10: ArgumentRead,
    pub r8: ArgumentRead,
    pub r9: ArgumentRead,
}

/// `SyscallReads` as mathematics.
pub struct SyscallReadings {
    pub rdi_strings: Seq<Seq<char>>,
    pub rsi_strings: Seq<Seq<char>>,
    pub rdx_strings: Seq<Seq<char>>,
    pub r10: ArgumentReading,
    pub r8: ArgumentReading,
    pub r9: ArgumentReading,
}

impl DeepView for SyscallReads {
    type V = SyscallReadings;

    open spec fn deep_view(&self) -> SyscallReadings {
        SyscallReadings {
            rdi_strings: self.rdi_strings.deep_view(),
            rsi_strings: self.rsi_strings.deep_view(),
            rdx_strings: self.rdx_strings.deep_view(),
            r10: self.r10.deep_view(),
            r8: self.r8.deep_view(),
            r9: self.r9.deep_view(),
        }
    }
}

/// The argument in a register that the snapshot does not hold: its value,
/// analyzed as any register but the instruction pointer is, and its strings.
pub open spec fn read_argument(
    read: ArgumentReading,
    snippit_length: nat,
    minimum_viable_string: nat,
) -> ArgumentValue {
    ArgumentValue {
        value: analysis(read.value, read.probe, false, snippit_length, minimum_viable_string),
        strings: read.strings,
    }
}

/// The lines that describe the system call at a snapshot: the call is the one
/// with the number in the snapshot's `rax`; `rdi`, `rsi` and `rdx` are the
/// snapshot's own, and `r10`, `r8` and `r9` are analyzed from what was read.
pub open spec fn snapshot_syscall_lines(
    table: Map<u64, Call>,
    snapshot: Snapshot,
    reads: SyscallReadings,
    snippit_length: nat,
    minimum_viable_string: nat,
) -> Seq<Seq<char>> {
    syscall_lines(
        table,
        snapshot.rax.value,
        ArgumentValue { value: snapshot.rdi, strings: reads.rdi_strings },
        ArgumentValue { value: snapshot.rsi, strings: reads.rsi_strings },
        ArgumentValue { value: snapshot.rdx, strings: reads.rdx_strings },
        read_argument(reads.r10, snippit_length, minimum_viable_string),
        read_argument(reads.r8, snippit_length, minimum_viable_string),
        read_argument(reads.r9, snippit_length, minimum_viable_string),
    )
}

/// The snapshot with its system call described: where the instruction pointer
/// stands at a `syscall`, its extra information is the lines for the call;
/// anywhere else the snapshot is as it was.
pub open spec fn with_syscall_described(
    table: Map<u64, Call>,
    snapshot: Snapshot,
    reads: SyscallReadings,
    snippit_length: nat,
    minimum_viable_string: nat,
) -> Snapshot {
    if snapshot.stands_at("syscall"@) {
        Snapshot {
            rip: Analysis {
                extra: Some(
                    snapshot_syscall_lines(
                        table,
                        snapshot,
                        reads,
                        snippit_length,
                        minimum_viable_string,
                    ),
                ),
                ..snapshot.rip
            },
            ..snapshot
        }
    } else {
        snapshot
    }
}

/// In the snapshot of a stop, the instruction pointer carries extra
/// information exactly when it stands at a `syscall`, that information is the
/// description of the call, and no other register carries any.
pub proof fn lemma_extra_marks_syscall(
    table: Map<u64, Call>,
    registers: Registers,
    probes: ProbedMemory,
    reads: SyscallReadings,
    snippit_length: nat,
    minimum_viable_string: nat,
)
    ensures
        ({
            let analyzed = snapshot_of(registers, probes, snippit_length, minimum_viable_string);
            let described = with_syscall_described(
                table,
                analyzed,
                reads,
                snippit_length,
                minimum_viable_string,
            );
            &&& described.rip.extra is Some <==> described.stands_at("syscall"@)
            &&& described.stands_at("syscall"@) == analyzed.stands_at("syscall"@)
            &&& described.rip.extra is Some ==> described.rip.extra == Some(
                snapshot_syscall_lines(
                    table,
                    analyzed,
                    reads,
                    snippit_length,
                    minimum_viable_string,
                ),
            )
            &&& described.rax.extra is None
            &&& described.rbx.extra is None
            &&& described.rcx.extra is None
            &&& described.rdx.extra is None
            &&& described.rsi.extra is None
            &&& described.rdi.extra is None
            &&& described.rbp.extra is None
            &&& described.rsp.extra is None
        }),
{
}

impl SyscallTable {
    /// Whether `register`, holding `value` at the call with this number, is
    /// walked as an array of strings: the table knows the call, the call
    /// takes an array in that register, and the pointer to it is not null.
    pub fn is_walked(&self, number: u64, register: ArgumentRegister, value: u64) -> (walked: bool)
        ensures
            walked == (self@.contains_key(number) && (self@[number].slot(register) matches Some(
                parameter,
            ) && parameter.is_array && value != 0)),
    {
        match self.get(number) {
            Some(call) => match call.slot(register) {
                Some(entry) => entry.is_walked(value),
                None => false,
            },
            None => false,
        }
    }
}

impl RegisterSnapshot {
    /// Describes the system call at which the process stopped, if it stopped
    /// at one: the lines for the call are attached to the instruction pointer.
    /// A snapshot that does not stand at a `syscall` is returned as it is.
    pub fn with_syscall(
        self,
        table: &SyscallTable,
        reads: SyscallReads,
        snippit_length: usize,
        minimum_viable_string: usize,
    ) -> (described: Self)
        ensures
            described.deep_view() == with_syscall_described(
                table@,
                self.deep_view(),
                reads.deep_view(),
                snippit_length as nat,
                minimum_viable_string as nat,
            ),
    {
        if !self.is_syscall() {
            return self;
        }
        let rdi = Argument { value: self.rdi.clone(), strings: reads.rdi_strings };
        let rsi = Argument { value: self.rsi.clone(), strings: reads.rsi_strings };
        let rdx = Argument { value: self.rdx.clone(), strings: reads.rdx_strings };
        let r10 = Argument {
            value: AnalyzedValue::new(
                reads.r10.value,
                reads.r10.probe,
                false,
                snippit_length,
                minimum_viable_string,
            ),
            strings: reads.r10.strings,
        };
        let r8 = Argument {
            value: AnalyzedValue::new(
                reads.r8.value,
                reads.r8.probe,
                false,
                snippit_length,
                minimum_viable_string,
            ),
            strings: reads.r8.strings,
        };
        let r9 = Argument {
            value: AnalyzedValue::new(
                reads.r9.value,
                reads.r9.probe,
                false,
                snippit_length,
                minimum_viable_string,
            ),
            strings: reads.r9.strings,
        };
        let lines = AnalyzedValue::syscall_info(table, &self.rax, &rdi, &rsi, &rdx, &r10, &r8, &r9);
        self.with_syscall_info(lines)
    }
}

} // verus!
