//! A single-stepping trace engine for x86-64 Linux processes: the rules that
//! decide what is recorded, how register values are interpreted and how
//! system calls are rendered, stated and proved over plain values.

pub mod analyzed_value;
pub mod disassembly;
pub mod hex_codec;
pub mod mandrake;
pub mod mandrake_output;
pub mod memory;
pub mod syscall_decoder;
pub mod syscall_table;
pub mod syscalls;
pub mod text;
pub mod trace_error;
pub mod visibility_configuration;
