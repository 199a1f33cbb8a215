//! What a 64-bit value points at.
//!
//! A register holds a number. Where that number is a readable address, the
//! bytes there are kept, and two readings of them are tried: as one x86-64
//! instruction, and as a NUL-terminated UTF-8 string. Either may fail; the
//! value itself is always kept.

use crate::disassembly::{disassemble, first_instruction, Decoded, Decoding};
use vstd::prelude::*;
use vstd::slice::slice_subrange;
use crate::text::{address_text, address_string};
use vstd::string::*;
use vstd::utf8::{decode_utf8, encode_utf8, valid_utf8, encode_utf8_decode_utf8};

verus! {

/// What the NASM formatter writes for bytes that are no instruction.
pub open spec fn bad_instruction() -> Seq<char> {
    "(bad)"@
}

/// `n` is where the first zero byte of `bytes` stands, or the length of
/// `bytes` where there is none.
pub open spec fn is_nul_position(bytes: Seq<u8>, n: int) -> bool {
    &&& 0 <= n <= bytes.len()
    &&& forall|i: int| 0 <= i < n ==> bytes[i] != 0
    &&& n < bytes.len() ==> bytes[n] == 0
}

/// Where the first zero byte of `bytes` stands, or the length of `bytes`.
pub open spec fn nul_position(bytes: Seq<u8>) -> int {
    choose|n: int| is_nul_position(bytes, n)
}

/// The bytes in front of the first zero byte.
pub open spec fn text_before_nul(bytes: Seq<u8>) -> Seq<u8> {
    bytes.take(nul_position(bytes))
}

/// The string reading of a buffer: the bytes in front of the first zero byte,
/// where they are UTF-8 and more than `minimum` of them.
pub open spec fn viable_string(bytes: Seq<u8>, minimum: nat) -> Option<Seq<char>> {
    let prefix = text_before_nul(bytes);
    if prefix.len() > minimum && valid_utf8(prefix) {
        Some(decode_utf8(prefix))
    } else {
        None
    }
}

/// `bytes` cut down to `len` bytes; unchanged where it has no more than that.
pub open spec fn shortened(bytes: Seq<u8>, len: nat) -> Seq<u8> {
    if len <= bytes.len() {
        bytes.take(len as int)
    } else {
        bytes
    }
}

/// The instruction reading of a decoder's answer: its text, unless the
/// decoder produced nothing or the text says that the bytes are no
/// instruction.
pub open spec fn instruction_text(decoded: Option<Decoding>) -> Option<Seq<char>> {
    match decoded {
        Some(d) => if d.text == bad_instruction() {
            None
        } else {
            Some(d.text)
        },
        None => None,
    }
}

/// The buffer as the string reading sees it: cut to the instruction where
/// `decoded` holds one, whole where it holds none.
pub open spec fn cut_to_instruction(bytes: Seq<u8>, decoded: Option<Decoding>) -> Seq<u8> {
    match decoded {
        Some(d) => shortened(bytes, d.length),
        None => bytes,
    }
}

/// An analyzed value as mathematics.
pub struct Analysis {
    pub value: u64,
    pub memory: Option<Seq<u8>>,
    pub as_instruction: Option<Seq<char>>,
    pub as_string: Option<Seq<char>>,
    pub extra: Option<Seq<Seq<char>>>,
}

impl Analysis {
    /// Nothing is read out of memory that could not be read.
    pub open spec fn consistent(self) -> bool {
        self.memory is None ==> self.as_instruction is None && self.as_string is None
            && self.extra is None
    }
}

/// The analysis of a value whose address could not be read.
pub open spec fn unreadable(value: u64) -> Analysis {
    Analysis { value, memory: None, as_instruction: None, as_string: None, extra: None }
}

/// The analysis of `value` from the bytes read at it and the decoder's answer
/// for them.
///
/// For an instruction pointer whose bytes the decoder took, the buffer is cut
/// to the instruction, and both the string reading and the stored memory are
/// those bytes. Otherwise the string is read from the whole buffer and the
/// stored memory is cut to `snippit_length`.
pub open spec fn interpretation(
    value: u64,
    bytes: Seq<u8>,
    decoded: Option<Decoding>,
    is_instruction_pointer: bool,
    snippit_length: nat,
    minimum_viable_string: nat,
) -> Analysis {
    let exact = is_instruction_pointer && decoded is Some;
    let seen = if exact {
        cut_to_instruction(bytes, decoded)
    } else {
        bytes
    };
    Analysis {
        value,
        memory: Some(
            if exact {
                seen
            } else {
                shortened(bytes, snippit_length)
            },
        ),
        as_instruction: instruction_text(decoded),
        as_string: viable_string(seen, minimum_viable_string),
        extra: None,
    }
}

/// The analysis of `value` from what was read at it: nothing, or the bytes
/// and what the decoder makes of them at that address.
pub open spec fn analysis(
    value: u64,
    probe: Option<Seq<u8>>,
    is_instruction_pointer: bool,
    snippit_length: nat,
    minimum_viable_string: nat,
) -> Analysis {
    match probe {
        None => unreadable(value),
        Some(bytes) => interpretation(
            value,
            bytes,
            first_instruction(bytes, value),
            is_instruction_pointer,
            snippit_length,
            minimum_viable_string,
        ),
    }
}

proof fn lemma_scan_for_nul(bytes: Seq<u8>, k: int)
    requires
        0 <= k <= bytes.len(),
        forall|i: int| 0 <= i < k ==> bytes[i] != 0,
    ensures
        exists|n: int| is_nul_position(bytes, n),
    decreases bytes.len() - k,
{
    if k == bytes.len() || bytes[k] == 0 {
        assert(is_nul_position(bytes, k));
    } else {
        lemma_scan_for_nul(bytes, k + 1);
    }
}

/// Every buffer has a position of its first zero byte.
pub proof fn lemma_nul_position_exists(bytes: Seq<u8>)
    ensures
        is_nul_position(bytes, nul_position(bytes)),
{
    lemma_scan_for_nul(bytes, 0);
}

/// A buffer has one position of its first zero byte only.
pub proof fn lemma_nul_position_unique(bytes: Seq<u8>, n: int)
    requires
        is_nul_position(bytes, n),
    ensures
        n == nul_position(bytes),
{
    lemma_nul_position_exists(bytes);
    let m = nul_position(bytes);
    if n < m {
        assert(bytes[n] == 0);
    } else if m < n {
        assert(bytes[m] == 0);
    }
}

/// A string that the analysis accepts is longer, in bytes, than the minimum
/// asked for, and holds no zero byte.
pub proof fn lemma_viable_string(bytes: Seq<u8>, minimum: nat)
    ensures
        viable_string(bytes, minimum) matches Some(text) ==> {
            &&& encode_utf8(text) == text_before_nul(bytes)
            &&& encode_utf8(text).len() > minimum
            &&& forall|i: int| 0 <= i < encode_utf8(text).len() ==> encode_utf8(text)[i] != 0
        },
{
    broadcast use vstd::utf8::decode_utf8_encode_utf8;

    lemma_nul_position_exists(bytes);
}

/// Whatever the decoder answered, the analysis of readable memory keeps the
/// value, holds memory and no extra information, and holds a string only
/// where that is longer than the minimum and free of zero bytes.
pub proof fn lemma_interpretation(
    value: u64,
    bytes: Seq<u8>,
    decoded: Option<Decoding>,
    is_instruction_pointer: bool,
    snippit_length: nat,
    minimum_viable_string: nat,
)
    ensures
        ({
            let a = interpretation(
                value,
                bytes,
                decoded,
                is_instruction_pointer,
                snippit_length,
                minimum_viable_string,
            );
            &&& a.value == value
            &&& a.consistent()
            &&& a.memory is Some
            &&& a.extra is None
            &&& a.as_string matches Some(text) ==> {
                &&& encode_utf8(text).len() > minimum_viable_string
                &&& forall|i: int|
                    0 <= i < encode_utf8(text).len() ==> encode_utf8(text)[i] != 0
            }
        }),
{
    let seen = if is_instruction_pointer && decoded is Some {
        cut_to_instruction(bytes, decoded)
    } else {
        bytes
    };
    lemma_viable_string(seen, minimum_viable_string);
}

/// An analysis never holds a reading of memory that could not be read, and a
/// string that it holds is longer than the minimum and free of zero bytes.
pub proof fn lemma_analysis(
    value: u64,
    probe: Option<Seq<u8>>,
    is_instruction_pointer: bool,
    snippit_length: nat,
    minimum_viable_string: nat,
)
    ensures
        ({
            let a = analysis(
                value,
                probe,
                is_instruction_pointer,
                snippit_length,
                minimum_viable_string,
            );
            &&& a.value == value
            &&& a.consistent()
            &&& a.memory is Some <==> probe is Some
            &&& a.extra is None
            &&& a.as_string matches Some(text) ==> {
                &&& encode_utf8(text).len() > minimum_viable_string
                &&& forall|i: int|
                    0 <= i < encode_utf8(text).len() ==> encode_utf8(text)[i] != 0
            }
        }),
{
    match probe {
        None => {},
        Some(bytes) => {
            lemma_interpretation(
                value,
                bytes,
                first_instruction(bytes, value),
                is_instruction_pointer,
                snippit_length,
                minimum_viable_string,
            );
        },
    }
}

/// `std::str::from_utf8`, with the text copied into a `String`: the bytes are
/// accepted exactly when they are valid UTF-8, and the text then encodes to
/// the bytes given. Not proved.
#[verifier::external_body]
pub(crate) fn utf8_text(bytes: &[u8]) -> (text: Option<String>)
    ensures
        text is Some <==> valid_utf8(bytes@),
        text matches Some(s) ==> encode_utf8(s@) == bytes@,
{
    match std::str::from_utf8(bytes) {
        Ok(s) => Some(s.to_string()),
        Err(_) => None,
    }
}

/// Where the first zero byte of `bytes` stands, or the length of `bytes`.
pub fn find_nul(bytes: &[u8]) -> (n: usize)
    ensures
        n as int == nul_position(bytes@),
{
    let mut i: usize = 0;
    while i < bytes.len() && bytes[i] != 0
        invariant
            i <= bytes.len(),
            forall|j: int| 0 <= j < i ==> bytes@[j] != 0,
        decreases bytes.len() - i,
    {
        i = i + 1;
    }
    proof {
        lemma_nul_position_unique(bytes@, i as int);
    }
    i
}

/// The string reading of `bytes`.
pub fn read_string(bytes: &[u8], minimum: usize) -> (text: Option<String>)
    ensures
        text.deep_view() == viable_string(bytes@, minimum as nat),
{
    let n = find_nul(bytes);
    proof {
        lemma_nul_position_exists(bytes@);
    }
    if n > minimum {
        let prefix = slice_subrange(bytes, 0, n);
        match utf8_text(prefix) {
            Some(s) => {
                proof {
                    encode_utf8_decode_utf8(s@);
                }
                Some(s)
            },
            None => None,
        }
    } else {
        None
    }
}

/// A 64-bit value together with what could be made of the memory it points
/// at.
#[derive(Debug)]
pub struct AnalyzedValue {
    value: u64,
    memory: Option<Vec<u8>>,
    as_instruction: Option<String>,
    as_string: Option<String>,
    extra: Option<Vec<String>>,
}

impl View for AnalyzedValue {
    type V = Analysis;

    closed spec fn view(&self) -> Analysis {
        Analysis {
            value: self.value,
            memory: self.memory.deep_view(),
            as_instruction: self.as_instruction.deep_view(),
            as_string: self.as_string.deep_view(),
            extra: self.extra.deep_view(),
        }
    }
}

impl DeepView for AnalyzedValue {
    type V = Analysis;

    open spec fn deep_view(&self) -> Analysis {
        self@
    }
}

impl Clone for AnalyzedValue {
    fn clone(&self) -> (copy: Self)
        ensures
            copy@ == self@,
    {
        proof {
            use_type_invariant(self);
        }
        AnalyzedValue {
            value: self.value,
            memory: self.memory.clone(),
            as_instruction: self.as_instruction.clone(),
            as_string: self.as_string.clone(),
            extra: self.extra.clone(),
        }
    }
}

impl AnalyzedValue {
    #[verifier::type_invariant]
    spec fn consistent(self) -> bool {
        self.memory is None ==> self.as_instruction is None && self.as_string is None
            && self.extra is None
    }

    /// The value of an address that could not be read: the number alone.
    pub fn unreadable(value: u64) -> (analyzed: Self)
        ensures
            analyzed@ == unreadable(value),
    {
        AnalyzedValue { value, memory: None, as_instruction: None, as_string: None, extra: None }
    }

    /// Analyzes `value` from what was read at it. `probe` is the result of
    /// reading memory at `value`: `None` where the address is unreadable.
    pub fn new(
        value: u64,
        probe: Option<Vec<u8>>,
        is_instruction_pointer: bool,
        snippit_length: usize,
        minimum_viable_string: usize,
    ) -> (analyzed: Self)
        ensures
            analyzed@ == analysis(
                value,
                probe.deep_view(),
                is_instruction_pointer,
                snippit_length as nat,
                minimum_viable_string as nat,
            ),
            analyzed@.consistent(),
    {
        match probe {
            None => Self::unreadable(value),
            Some(bytes) => {
                let decoded = disassemble(bytes.as_slice(), value);
                assert(bytes.deep_view() == bytes@);
                Self::from_probe(
                    value,
                    bytes,
                    decoded,
                    is_instruction_pointer,
                    snippit_length,
                    minimum_viable_string,
                )
            },
        }
    }

    /// Analyzes `value` from the bytes read at it and from what the decoder
    /// made of those bytes.
    pub fn from_probe(
        value: u64,
        bytes: Vec<u8>,
        decoded: Option<Decoded>,
        is_instruction_pointer: bool,
        snippit_length: usize,
        minimum_viable_string: usize,
    ) -> (analyzed: Self)
        ensures
            analyzed@ == interpretation(
                value,
                bytes@,
                decoded.deep_view(),
                is_instruction_pointer,
                snippit_length as nat,
                minimum_viable_string as nat,
            ),
            analyzed@.consistent(),
    {
        let mut data = bytes;
        let exact = is_instruction_pointer && decoded.is_some();
        let as_instruction = match decoded {
            Some(d) => {
                if is_instruction_pointer {
                    data.truncate(d.length);
                }
                let bad = String::from_str("(bad)");
                if d.text == bad {
                    None
                } else {
                    Some(d.text)
                }
            },
            None => None,
        };
        let as_string = read_string(data.as_slice(), minimum_viable_string);
        if !exact {
            data.truncate(snippit_length);
        }
        let analyzed = AnalyzedValue {
            value,
            memory: Some(data),
            as_instruction,
            as_string,
            extra: None,
        };
        assert(analyzed@.memory->0 =~= interpretation(
            value,
            bytes@,
            decoded.deep_view(),
            is_instruction_pointer,
            snippit_length as nat,
            minimum_viable_string as nat,
        ).memory->0);
        analyzed
    }

    /// The value with exactly these parts; `None` where the parts hold a
    /// reading of memory without the memory.
    pub fn from_parts(
        value: u64,
        memory: Option<Vec<u8>>,
        as_instruction: Option<String>,
        as_string: Option<String>,
        extra: Option<Vec<String>>,
    ) -> (analyzed: Option<Self>)
        ensures
            ({
                let parts = Analysis {
                    value,
                    memory: memory.deep_view(),
                    as_instruction: as_instruction.deep_view(),
                    as_string: as_string.deep_view(),
                    extra: extra.deep_view(),
                };
                match analyzed {
                    Some(made) => parts.consistent() && made@ == parts,
                    None => !parts.consistent(),
                }
            }),
    {
        if memory.is_none() && (as_instruction.is_some() || as_string.is_some() || extra.is_some()) {
            None
        } else {
            Some(AnalyzedValue { value, memory, as_instruction, as_string, extra })
        }
    }

    /// The number itself.
    pub fn value(&self) -> (value: u64)
        ensures
            value == self@.value,
    {
        self.value
    }

    /// The bytes at the address, where it could be read. Without them the
    /// value holds no reading of them.
    pub fn memory(&self) -> (memory: &Option<Vec<u8>>)
        ensures
            memory.deep_view() == self@.memory,
            self@.consistent(),
    {
        proof {
            use_type_invariant(self);
        }
        &self.memory
    }

    /// The value as an address: `0x` and at least eight hexadecimal digits.
    pub fn to_string(&self) -> (text: String)
        ensures
            text@ == address_text(self@.value),
    {
        address_string(self.value)
    }

    /// The instruction at the address, where the bytes decode to one.
    pub fn as_instruction(&self) -> (text: &Option<String>)
        ensures
            text.deep_view() == self@.as_instruction,
            self@.memory is None ==> text is None,
    {
        proof {
            use_type_invariant(self);
        }
        &self.as_instruction
    }

    /// The string at the address, where the bytes hold one.
    pub fn as_string(&self) -> (text: &Option<String>)
        ensures
            text.deep_view() == self@.as_string,
            self@.memory is None ==> text is None,
    {
        proof {
            use_type_invariant(self);
        }
        &self.as_string
    }

    /// The lines that describe the system call, on an instruction pointer that
    /// stands at one.
    pub fn extra(&self) -> (lines: &Option<Vec<String>>)
        ensures
            lines.deep_view() == self@.extra,
            self@.memory is None ==> lines is None,
    {
        proof {
            use_type_invariant(self);
        }
        &self.extra
    }

    /// Whether the instruction at the address reads exactly `text`. Only
    /// memory that was read holds an instruction.
    pub fn is_instruction(&self, text: &str) -> (same: bool)
        ensures
            same == (self@.as_instruction == Some(text@)),
            same ==> self@.memory is Some,
    {
        proof {
            use_type_invariant(self);
        }
        match &self.as_instruction {
            Some(instruction) => {
                let wanted = String::from_str(text);
                *instruction == wanted
            },
            None => false,
        }
    }

    /// The same value with `lines` as its extra information. A value whose
    /// memory could not be read carries none, and stays as it is.
    pub fn with_extra(self, lines: Vec<String>) -> (annotated: Self)
        ensures
            annotated@ == (Analysis {
                extra: if self@.memory is Some {
                    Some(lines.deep_view())
                } else {
                    None
                },
                ..self@
            }),
            annotated@.consistent(),
    {
        proof {
            use_type_invariant(&self);
        }
        if self.memory.is_some() {
            AnalyzedValue {
                value: self.value,
                memory: self.memory,
                as_instruction: self.as_instruction,
                as_string: self.as_string,
                extra: Some(lines),
            }
        } else {
            self
        }
    }
}

} // verus!
