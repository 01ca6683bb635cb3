//! The hash engine: a data-dependent, memory-bound traversal of the ROM.
//! The accumulator is seeded from the preimage; each iteration's memory
//! index depends on the word read in the previous one.
use vstd::prelude::*;

use crate::errors::EngineError;
use crate::mix::{
    absorb_bytes, mix64, rotl64, s_absorb, s_mix64, s_rotl, w_add, w_mul, wrapping_add64,
    wrapping_mul64,
};
use crate::rom::Rom;

verus! {

/// Domain-separation value for absorbing a preimage, distinct from the one
/// used when a seed is absorbed during ROM generation.
pub const HASH_DOMAIN: u64 = 0x707265_696d_3031;

/// The output width must be a positive multiple of the engine's 64-bit
/// internal word size.
pub open spec fn valid_output_bits(output_bits: u32) -> bool {
    output_bits > 0 && output_bits % 64 == 0
}

/// One traversal step: reduce the accumulator modulo the ROM length, read
/// that word, and fold it into the accumulator through the mixer. The next
/// index depends on the word just read.
pub open spec fn s_hash_step(rom: Seq<u64>, a: u64) -> u64
    recommends
        rom.len() > 0,
{
    let w = rom[(a % (rom.len() as u64)) as int];
    s_mix64(w_add(s_rotl(a, 13) ^ w, w_mul(w | 1, 0x2545f4914f6cdd1d)))
}

/// Accumulator after `k` traversal steps from `a0`.
pub open spec fn s_hash_acc(rom: Seq<u64>, a0: u64, k: nat) -> u64
    decreases k,
{
    if k == 0 {
        a0
    } else {
        s_hash_step(rom, s_hash_acc(rom, a0, (k - 1) as nat))
    }
}

/// Output word `t` extracted from the final accumulator.
pub open spec fn s_out_word(a: u64, t: u64) -> u64 {
    s_mix64(a ^ w_mul(w_add(t, 1), 0xd6e8feb86659fd93))
}

/// The eight bytes of one output word, least significant first.
pub open spec fn s_word_bytes(w: u64) -> Seq<u8> {
    seq![
        (w % 0x100) as u8,
        ((w / 0x100) % 0x100) as u8,
        ((w / 0x1_0000) % 0x100) as u8,
        ((w / 0x100_0000) % 0x100) as u8,
        ((w / 0x1_0000_0000) % 0x100) as u8,
        ((w / 0x100_0000_0000) % 0x100) as u8,
        ((w / 0x1_0000_0000_0000) % 0x100) as u8,
        ((w / 0x100_0000_0000_0000) % 0x100) as u8,
    ]
}

/// The digest bytes extracted from accumulator `a`: `t` output words of
/// eight bytes each.
pub open spec fn s_out_bytes(a: u64, t: nat) -> Seq<u8>
    decreases t,
{
    if t == 0 {
        Seq::empty()
    } else {
        s_out_bytes(a, (t - 1) as nat) + s_word_bytes(s_out_word(a, (t - 1) as u64))
    }
}

/// The digest as a function of the preimage, the ROM contents, the loop
/// count and the output width.
pub open spec fn spec_digest(preimage: Seq<u8>, rom: Seq<u64>, loop_count: u32, output_bits: u32) -> Seq<u8> {
    s_out_bytes(
        s_hash_acc(rom, s_absorb(preimage, HASH_DOMAIN), loop_count as nat),
        (output_bits / 64) as nat,
    )
}

/// A digest of `t` output words holds exactly `8 * t` bytes.
pub proof fn lemma_out_bytes_len(a: u64, t: nat)
    ensures
        s_out_bytes(a, t).len() == 8 * t,
    decreases t,
{
    if t > 0 {
        lemma_out_bytes_len(a, (t - 1) as nat);
    }
}

fn hash_step(rom: &Rom, a: u64) -> (r: u64)
    requires
        rom@.len() > 0,
    ensures
        r == s_hash_step(rom@, a),
{
    let n: u64 = rom.len() as u64;
    let idx: usize = (a % n) as usize;
    let w: u64 = rom.word_at(idx);
    mix64(wrapping_add64(rotl64(a, 13) ^ w, wrapping_mul64(w | 1, 0x2545f4914f6cdd1d)))
}

fn out_word(a: u64, t: u64) -> (r: u64)
    ensures
        r == s_out_word(a, t),
{
    mix64(a ^ wrapping_mul64(wrapping_add64(t, 1), 0xd6e8feb86659fd93))
}

/// Compute the digest for a preimage against one ROM; the output width has
/// already been checked.
pub(crate) fn digest_unchecked(preimage: &Vec<u8>, rom: &Rom, loop_count: u32, output_bits: u32) -> (d: Vec<u8>)
    requires
        valid_output_bits(output_bits),
    ensures
        d@ == spec_digest(preimage@, rom@, loop_count, output_bits),
        d@.len() == 8 * (output_bits / 64),
{
    proof {
        use_type_invariant(rom);
    }
    let mut acc: u64 = absorb_bytes(preimage, HASH_DOMAIN);
    let ghost a0: u64 = acc;
    for k in 0..loop_count
        invariant
            acc == s_hash_acc(rom@, a0, k as nat),
    {
        acc = hash_step(rom, acc);
    }
    let nwords: u32 = output_bits / 64;
    let mut out: Vec<u8> = Vec::new();
    for t in 0..nwords
        invariant
            out@ == s_out_bytes(acc, t as nat),
    {
        let w: u64 = out_word(acc, t as u64);
        out.push((w % 0x100) as u8);
        out.push(((w / 0x100) % 0x100) as u8);
        out.push(((w / 0x1_0000) % 0x100) as u8);
        out.push(((w / 0x100_0000) % 0x100) as u8);
        out.push(((w / 0x1_0000_0000) % 0x100) as u8);
        out.push(((w / 0x100_0000_0000) % 0x100) as u8);
        out.push(((w / 0x1_0000_0000_0000) % 0x100) as u8);
        out.push(((w / 0x100_0000_0000_0000) % 0x100) as u8);
        proof {
            assert(out@ =~= s_out_bytes(acc, (t + 1) as nat));
        }
    }
    proof {
        lemma_out_bytes_len(acc, nwords as nat);
    }
    out
}

/// Hash one preimage against one ROM.
///
/// Succeeds exactly when the output width is a positive multiple of the
/// engine word size; the digest is then exactly `spec_digest` of the
/// inputs. Fully deterministic, no side effects.
pub fn hash(preimage: &Vec<u8>, rom: &Rom, loop_count: u32, output_bits: u32) -> (r: Result<Vec<u8>, EngineError>)
    ensures
        (r matches Ok(d)) <==> valid_output_bits(output_bits),
        r matches Err(e) ==> e == EngineError::Configuration,
        r matches Ok(d) ==> d@ == spec_digest(preimage@, rom@, loop_count, output_bits)
            && d@.len() == 8 * (output_bits / 64),
{
    if output_bits == 0 || output_bits % 64 != 0 {
        return Err(EngineError::Configuration);
    }
    Ok(digest_unchecked(preimage, rom, loop_count, output_bits))
}

/// Law: hashing is deterministic. Two digests of the same preimage against
/// the same ROM contents, loop count and output width are identical.
pub proof fn lemma_digest_deterministic(
    d1: Seq<u8>,
    d2: Seq<u8>,
    preimage: Seq<u8>,
    rom: Seq<u64>,
    loop_count: u32,
    output_bits: u32,
)
    requires
        d1 == spec_digest(preimage, rom, loop_count, output_bits),
        d2 == spec_digest(preimage, rom, loop_count, output_bits),
    ensures
        d1 == d2,
{
}

} // verus!
