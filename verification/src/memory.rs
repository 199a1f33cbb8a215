//! Reading a traced process's memory, as far as it can be planned and put
//! together without touching the process.
//!
//! Memory comes in words of eight bytes. A read of `n` bytes at an address is
//! a list of word addresses to fetch; the words that come back, in order, are
//! laid out as the process has them in memory, least significant byte first.
//! One failed word read makes the whole read fail, and so does an address
//! beyond the end of the address space.

use byteorder::{LittleEndian, WriteBytesExt};
use vstd::prelude::*;

verus! {

/// The bytes in one word.
pub const WORD_SIZE: usize = 8;

/// The least that is read at a value, however little of it is kept.
pub const PROBE_FLOOR: usize = 128;

/// How many bytes are read at a value of which `snippit_length` are kept.
pub open spec fn spec_probe_length(snippit_length: nat) -> nat {
    if snippit_length > PROBE_FLOOR {
        snippit_length
    } else {
        PROBE_FLOOR as nat
    }
}

/// How many words hold `n` bytes.
pub open spec fn words_for(n: nat) -> nat {
    (n + 7) / 8
}

/// Byte `i` of `word` in memory, the least significant first.
pub open spec fn word_byte(word: i64, i: int) -> u8 {
    (((word as u64) >> ((8 * i) as u64)) & 0xff) as u8
}

/// The eight bytes of `word` as they lie in memory.
pub open spec fn word_bytes(word: i64) -> Seq<u8> {
    Seq::new(8, |i: int| word_byte(word, i))
}

/// The bytes of `words` as they lie in memory, one word after the other.
pub open spec fn memory_image(words: Seq<i64>) -> Seq<u8> {
    Seq::new(8 * words.len(), |k: int| word_byte(words[k / 8], k % 8))
}

/// Whether all the words of `n` bytes at `address` lie inside the address
/// space.
pub open spec fn readable_range(address: u64, n: nat) -> bool {
    words_for(n) > 0 ==> address + 8 * (words_for(n) - 1) <= u64::MAX
}

/// `WriteBytesExt::write_i64::<LittleEndian>` on a `Vec<u8>`: appends the
/// eight bytes of `word`, least significant first. Writing to a vector does
/// not fail. Not proved.
#[verifier::external_body]
pub(crate) fn append_word(bytes: &mut Vec<u8>, word: i64)
    ensures
        final(bytes)@ == old(bytes)@ + word_bytes(word),
{
    bytes.write_i64::<LittleEndian>(word).unwrap_or(())
}

/// How many bytes to read at a value of which `snippit_length` are kept.
pub fn probe_length(snippit_length: usize) -> (length: usize)
    ensures
        length as nat == spec_probe_length(snippit_length as nat),
        length >= PROBE_FLOOR,
        length >= snippit_length,
{
    if snippit_length > PROBE_FLOOR {
        snippit_length
    } else {
        PROBE_FLOOR
    }
}

/// How many words to read for `n` bytes.
pub fn word_count(n: usize) -> (count: usize)
    ensures
        count as nat == words_for(n as nat),
{
    if n % WORD_SIZE == 0 {
        n / WORD_SIZE
    } else {
        n / WORD_SIZE + 1
    }
}

/// The addresses of the words to read for `n` bytes at `address`, in order;
/// `None` where one of them would lie beyond the address space, which makes
/// the range unreadable.
pub fn word_addresses(address: u64, n: usize) -> (plan: Option<Vec<u64>>)
    ensures
        plan is Some <==> readable_range(address, n as nat),
        plan matches Some(addresses) ==> {
            &&& addresses@.len() == words_for(n as nat)
            &&& forall|i: int|
                0 <= i < addresses@.len() ==> addresses@[i] as int == address + 8 * i
        },
{
    let count = word_count(n);
    let mut addresses: Vec<u64> = Vec::new();
    let mut next: u64 = address;
    let mut i: usize = 0;
    while i < count
        invariant
            i <= count,
            count as nat == words_for(n as nat),
            addresses@.len() == i,
            i < count ==> next as int == address + 8 * i,
            forall|j: int| 0 <= j < i ==> addresses@[j] as int == address + 8 * j,
        decreases count - i,
    {
        addresses.push(next);
        i = i + 1;
        if i < count {
            match next.checked_add(8) {
                Some(following) => {
                    next = following;
                },
                None => {
                    return None;
                },
            }
        }
    }
    proof {
        if count > 0 {
            assert(addresses@[count - 1] as int == address + 8 * (count - 1));
        }
    }
    Some(addresses)
}

/// The memory that `words` were read from, byte by byte.
pub fn words_to_bytes(words: &[i64]) -> (bytes: Vec<u8>)
    ensures
        bytes@ == memory_image(words@),
        bytes@.len() == 8 * words@.len(),
{
    let mut bytes: Vec<u8> = Vec::new();
    let mut i: usize = 0;
    while i < words.len()
        invariant
            i <= words.len(),
            bytes@ == memory_image(words@.take(i as int)),
        decreases words.len() - i,
    {
        append_word(&mut bytes, words[i]);
        i = i + 1;
        assert(bytes@ =~= memory_image(words@.take(i as int)));
    }
    assert(words@.take(words@.len() as int) =~= words@);
    bytes
}

} // verus!
