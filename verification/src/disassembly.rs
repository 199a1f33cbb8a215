//! The x86-64 decoder and NASM formatter of `iced_x86`, as the analysis sees
//! them: one instruction is decoded at the start of a buffer, and what comes
//! back is its text and its length in bytes.
//!
//! What the decoder returns for given bytes fills reference manuals. It is a
//! function of the bytes and of the address they are decoded at, so it is
//! named here rather than described, and the analysis is stated over the names.

use iced_x86::{Decoder, DecoderOptions, Formatter, NasmFormatter};
use vstd::prelude::*;

verus! {

/// The text that `NasmFormatter`, with its default options, writes for the
/// first instruction that a 64-bit `Decoder` decodes from `bytes` at address
/// `ip`.
pub uninterp spec fn nasm_text(bytes: Seq<u8>, ip: u64) -> Seq<char>;

/// The length, as `Instruction::len` reports it, of the first instruction that
/// a 64-bit `Decoder` decodes from `bytes` at address `ip`.
pub uninterp spec fn instruction_length(bytes: Seq<u8>, ip: u64) -> nat;

/// One decoded instruction, as plain values.
#[derive(Debug)]
pub struct Decoded {
    /// The instruction in NASM syntax.
    pub text: String,
    /// How many bytes the instruction takes.
    pub length: usize,
}

/// One decoded instruction as mathematics.
pub struct Decoding {
    pub text: Seq<char>,
    pub length: nat,
}

impl DeepView for Decoded {
    type V = Decoding;

    open spec fn deep_view(&self) -> Decoding {
        Decoding { text: self.text@, length: self.length as nat }
    }
}

/// What decoding the start of `bytes` at `ip` gives: nothing for an empty
/// buffer, else the text and length of the first instruction.
pub open spec fn first_instruction(bytes: Seq<u8>, ip: u64) -> Option<Decoding> {
    if bytes.len() > 0 {
        Some(Decoding { text: nasm_text(bytes, ip), length: instruction_length(bytes, ip) })
    } else {
        None
    }
}

/// `Decoder::can_decode` on a decoder that was just made over `bytes`: it
/// compares the read position with the end of the data, so it says whether
/// the buffer holds at least one byte. Not proved.
///
/// `Decoder::with_ip` refuses a bitness other than 16, 32 or 64 and a slice
/// that ends within fifteen bytes of the top of the address space; 64 is
/// passed here, and no allocation lies there.
#[verifier::external_body]
pub(crate) fn can_decode(bytes: &[u8], ip: u64) -> (possible: bool)
    ensures
        possible == (bytes@.len() > 0),
{
    Decoder::with_ip(64, bytes, ip, DecoderOptions::NONE).can_decode()
}

/// `Decoder::decode`, `Instruction::len` and `NasmFormatter::format`: decodes
/// one instruction from the start of `bytes` in 64-bit mode with the
/// instruction pointer at `ip`, and renders it in NASM syntax. The contract
/// only names the two results; nothing in this library says what they are for
/// given bytes. Not proved.
#[verifier::external_body]
pub(crate) fn decode_first(bytes: &[u8], ip: u64) -> (decoded: Decoded)
    ensures
        decoded.text@ == nasm_text(bytes@, ip),
        decoded.length as nat == instruction_length(bytes@, ip),
{
    let mut decoder = Decoder::with_ip(64, bytes, ip, DecoderOptions::NONE);
    let instruction = decoder.decode();
    let mut text = String::new();
    NasmFormatter::new().format(&instruction, &mut text);
    Decoded { text, length: instruction.len() }
}

/// Decodes the first instruction of `bytes` at `ip`, if the buffer holds
/// anything to decode.
pub fn disassemble(bytes: &[u8], ip: u64) -> (decoded: Option<Decoded>)
    ensures
        decoded.deep_view() == first_instruction(bytes@, ip),
{
    if can_decode(bytes, ip) {
        Some(decode_first(bytes, ip))
    } else {
        None
    }
}

} // verus!
