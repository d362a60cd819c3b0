//! Word-granular byte patching.
//!
//! The trace primitive that reads and writes target memory operates on whole
//! machine words.  Patching a single byte (to plant or remove a trap
//! instruction) therefore reads the containing word, replaces one byte in it,
//! and writes the word back; every other byte of the word must be preserved
//! bit for bit.  This module holds that arithmetic, verified, together with
//! the round-trip lemma: patching a byte and then patching the original value
//! back restores the exact word.

use vstd::prelude::*;

verus! {

/// Number of bytes in a machine word of the traced target.  The patching
/// below, like the frame walk in the unwinder, assumes a 64-bit target with
/// little-endian byte order; this is a platform/ABI assumption.
pub const WORD_SIZE: usize = 8;

/// The byte of `word` at byte offset `k` (little-endian: offset 0 is the
/// least significant byte).
pub open spec fn word_byte(word: u64, k: u64) -> u8
    recommends
        k < 8,
{
    ((word >> (8 * k)) & 0xff) as u8
}

/// `word` with the byte at offset `k` replaced by `val` and every other byte
/// unchanged.
pub open spec fn set_word_byte(word: u64, k: u64, val: u8) -> u64
    recommends
        k < 8,
{
    (word & !(0xffu64 << (8 * k))) | ((val as u64) << (8 * k))
}

/// Largest word-aligned address that is at most `addr`: the start of the
/// word that contains the byte at `addr`.
pub fn align_addr_to_word(addr: usize) -> (aligned: usize)
    ensures
        aligned == addr - addr % 8,
        aligned % 8 == 0,
        aligned <= addr,
        addr - aligned < 8,
{
    proof {
        assert(addr & !7 == addr - addr % 8 && (addr & !7) % 8 == 0 && addr & !7 <= addr
            && addr - (addr & !7) < 8) by (bit_vector);
    }
    addr & !7
}

/// The byte at offset `k` of `word`.
pub fn extract_byte(word: u64, k: usize) -> (b: u8)
    requires
        k < WORD_SIZE,
    ensures
        b == word_byte(word, k as u64),
{
    let shift: u64 = 8 * (k as u64);
    proof {
        assert(((word >> shift) & 0xff) as u8 == word_byte(word, shift / 8)) by (bit_vector)
            requires
                shift < 64 && shift % 8 == 0,
        ;
    }
    ((word >> shift) & 0xff) as u8
}

/// `word` with the byte at offset `k` replaced by `val`.
pub fn replace_byte(word: u64, k: usize, val: u8) -> (patched: u64)
    requires
        k < WORD_SIZE,
    ensures
        patched == set_word_byte(word, k as u64, val),
{
    let shift: u64 = 8 * (k as u64);
    proof {
        assert((word & !(0xffu64 << shift)) | ((val as u64) << shift)
            == set_word_byte(word, shift / 8, val)) by (bit_vector)
            requires
                shift < 64 && shift % 8 == 0,
        ;
    }
    (word & !(0xffu64 << shift)) | ((val as u64) << shift)
}

/// Replacing the byte at offset `k` really stores `val` there.
pub proof fn lemma_patch_sets_byte(word: u64, k: u64, val: u8)
    by (bit_vector)
    requires
        k < 8,
    ensures
        word_byte(set_word_byte(word, k, val), k) == val,
{
}

/// Replacing the byte at offset `k` leaves every other byte of the word
/// untouched.
pub proof fn lemma_patch_preserves_other_bytes(word: u64, k: u64, j: u64, val: u8)
    by (bit_vector)
    requires
        k < 8,
        j < 8,
        j != k,
    ensures
        word_byte(set_word_byte(word, k, val), j) == word_byte(word, j),
{
}

/// Byte round-trip: patching any byte into a word and then patching the
/// original byte back restores the word to its pre-patch bit pattern exactly,
/// non-target bytes included.
pub proof fn lemma_byte_round_trip(word: u64, k: u64, val: u8)
    by (bit_vector)
    requires
        k < 8,
    ensures
        set_word_byte(set_word_byte(word, k, val), k, word_byte(word, k)) == word,
{
}

} // verus!
