//! Deterministic two-phase construction of the ROM: seed expansion into a
//! pre-buffer, then carry-chained diffusion passes over the full dataset.
use vstd::prelude::*;

use crate::errors::EngineError;
use crate::mix::{
    absorb_bytes, mix64, rotl64, s_absorb, s_mix64, s_rotl, w_add, w_mul, wrapping_add64,
    wrapping_mul64,
};
use crate::params::CostParameters;

verus! {

/// Domain-separation value for absorbing a seed during ROM generation.
pub const ROM_DOMAIN: u64 = 0x726f6d_67656e_3031;

/// Tweak that derives the expansion carry chain's start from the seed key.
pub const EXPAND_TWEAK: u64 = 0x657870_616e_6431;

/// Word `i` of the pre-buffer: counter-mode expansion of the seed key.
pub open spec fn s_pre_word(key: u64, i: u64) -> u64 {
    s_mix64(key ^ w_mul(w_add(i, 1), 0xd1342543de82ef95))
}

/// The whole pre-buffer of `n` words.
pub open spec fn s_pre_buffer(key: u64, n: nat) -> Seq<u64> {
    Seq::new(n, |i: int| s_pre_word(key, i as u64))
}

/// One expansion step: combine a pseudo-randomly selected pre-buffer word
/// with the carry (the previously emitted ROM word) through the mixer.
pub open spec fn s_expand_step(pre: Seq<u64>, c: u64) -> u64
    recommends
        pre.len() > 0,
{
    s_mix64(w_add(pre[(c % (pre.len() as u64)) as int] ^ s_rotl(c, 21), w_mul(c | 1, 0xa0761d6478bd642f)))
}

/// Carry value after `n` expansion steps; ROM word `j` is the carry after
/// `j + 1` steps, so each word depends on all words before it.
pub open spec fn s_expand_carry(pre: Seq<u64>, c0: u64, n: nat) -> u64
    decreases n,
{
    if n == 0 {
        c0
    } else {
        s_expand_step(pre, s_expand_carry(pre, c0, (n - 1) as nat))
    }
}

/// Phase two, first pass: expand the pre-buffer into `n` ROM words.
pub open spec fn s_expand(pre: Seq<u64>, c0: u64, n: nat) -> Seq<u64> {
    Seq::new(n, |j: int| s_expand_carry(pre, c0, (j + 1) as nat))
}

/// One diffusion step of a mixing pass: fold the word being replaced, a
/// pseudo-randomly selected word of the previous pass, and the carry.
pub open spec fn s_pass_step(old: Seq<u64>, c: u64, j: int) -> u64
    recommends
        old.len() > 0,
        0 <= j < old.len(),
{
    s_mix64(w_add(old[j] ^ s_rotl(c, 33), w_mul(old[(c % (old.len() as u64)) as int] | 1, 0xe7037ed1a0b428db)))
}

/// Carry value after `n` steps of one mixing pass over `old`.
pub open spec fn s_pass_carry(old: Seq<u64>, c0: u64, n: nat) -> u64
    decreases n,
{
    if n == 0 {
        c0
    } else {
        s_pass_step(old, s_pass_carry(old, c0, (n - 1) as nat), (n - 1) as int)
    }
}

/// One whole mixing pass over the ROM.
pub open spec fn s_pass(old: Seq<u64>, c0: u64) -> Seq<u64> {
    Seq::new(old.len(), |j: int| s_pass_carry(old, c0, (j + 1) as nat))
}

/// Start value of the carry chain of mixing pass `r`.
pub open spec fn s_round_iv(key: u64, r: u64) -> u64 {
    s_mix64(key ^ w_mul(r, 0x8bb84b93962eacc9))
}

/// The ROM contents after `r` mixing passes over `buf`.
pub open spec fn s_rounds(buf: Seq<u64>, key: u64, r: nat) -> Seq<u64>
    decreases r,
{
    if r == 0 {
        buf
    } else {
        s_pass(s_rounds(buf, key, (r - 1) as nat), s_round_iv(key, r as u64))
    }
}

/// The finished ROM as a function of the seed and the cost parameters:
/// absorb the seed into a key, expand the key into the pre-buffer, expand
/// that into the full dataset, then diffuse it for `rounds` passes.
pub open spec fn spec_rom(seed: Seq<u8>, pre_size: nat, rom_size: nat, rounds: nat) -> Seq<u64> {
    let key = s_absorb(seed, ROM_DOMAIN);
    let pre = s_pre_buffer(key, pre_size);
    let base = s_expand(pre, s_mix64(key ^ EXPAND_TWEAK), rom_size);
    s_rounds(base, key, rounds)
}

/// Mixing passes preserve the dataset's length.
pub proof fn lemma_rounds_len(buf: Seq<u64>, key: u64, r: nat)
    ensures
        s_rounds(buf, key, r).len() == buf.len(),
    decreases r,
{
    if r > 0 {
        lemma_rounds_len(buf, key, (r - 1) as nat);
    }
}

/// The finished ROM has exactly `rom_size` words.
pub proof fn lemma_spec_rom_len(seed: Seq<u8>, pre_size: nat, rom_size: nat, rounds: nat)
    ensures
        spec_rom(seed, pre_size, rom_size, rounds).len() == rom_size,
{
    let key = s_absorb(seed, ROM_DOMAIN);
    let pre = s_pre_buffer(key, pre_size);
    let base = s_expand(pre, s_mix64(key ^ EXPAND_TWEAK), rom_size);
    lemma_rounds_len(base, key, rounds);
}

/// An immutable dataset of fixed-width words, fully built before it is ever
/// shared; safe for unsynchronized concurrent reads.
pub struct Rom {
    words: Vec<u64>,
}

impl View for Rom {
    type V = Seq<u64>;

    closed spec fn view(&self) -> Seq<u64> {
        self.words@
    }
}

impl Rom {
    /// A ROM is never empty, so reducing an accumulator modulo its length
    /// is always possible.
    #[verifier::type_invariant]
    pub open spec fn wf(self) -> bool {
        self@.len() > 0
    }

    /// Number of words in the dataset.
    pub fn len(&self) -> (n: usize)
        ensures
            n == self@.len(),
    {
        self.words.len()
    }

    /// Read-only accessor for one word.
    pub fn word_at(&self, i: usize) -> (w: u64)
        requires
            i < self@.len(),
        ensures
            w == self@[i as int],
    {
        self.words[i]
    }
}

/// Relies on `Vec::try_reserve_exact`: it reserves capacity without touching
/// the contents, and reports failure instead of aborting when the memory
/// cannot be obtained.
#[verifier::external_body]
fn try_reserve_words(v: &mut Vec<u64>, n: usize) -> (r: bool)
    ensures
        final(v)@ == old(v)@,
{
    v.try_reserve_exact(n).is_ok()
}

fn pre_word(key: u64, i: u64) -> (r: u64)
    ensures
        r == s_pre_word(key, i),
{
    mix64(key ^ wrapping_mul64(wrapping_add64(i, 1), 0xd1342543de82ef95))
}

fn expand_step(pre: &Vec<u64>, c: u64) -> (r: u64)
    requires
        pre@.len() > 0,
    ensures
        r == s_expand_step(pre@, c),
{
    let n: u64 = pre.len() as u64;
    let sel: usize = (c % n) as usize;
    mix64(wrapping_add64(pre[sel] ^ rotl64(c, 21), wrapping_mul64(c | 1, 0xa0761d6478bd642f)))
}

fn pass_step(old_words: &Vec<u64>, c: u64, j: usize) -> (r: u64)
    requires
        old_words@.len() > 0,
        j < old_words@.len(),
    ensures
        r == s_pass_step(old_words@, c, j as int),
{
    let n: u64 = old_words.len() as u64;
    let sel: usize = (c % n) as usize;
    mix64(wrapping_add64(old_words[j] ^ rotl64(c, 33), wrapping_mul64(old_words[sel] | 1, 0xe7037ed1a0b428db)))
}

/// Build a ROM from seed material and validated cost parameters.
///
/// Deterministic: the contents are exactly `spec_rom` of the inputs.
/// Invalid parameters are rejected before any allocation; an allocation
/// failure aborts the build with nothing published.
pub fn build_rom(seed: &Vec<u8>, params: &CostParameters) -> (r: Result<Rom, EngineError>)
    ensures
        (r matches Err(e) ==> e == EngineError::Configuration || e == EngineError::Allocation),
        (r matches Err(EngineError::Configuration)) <==> !params.valid(),
        r matches Ok(rom) ==> rom@ == spec_rom(
            seed@,
            params.pre_buffer_size as nat,
            params.rom_size as nat,
            params.mixing_rounds as nat,
        ) && rom@.len() == params.rom_size,
{
    if !params.is_valid() {
        return Err(EngineError::Configuration);
    }
    let key: u64 = absorb_bytes(seed, ROM_DOMAIN);
    let pre_n: usize = params.pre_buffer_size as usize;
    let rom_n: usize = params.rom_size as usize;

    // Phase one: counter-mode expansion of the seed key into the pre-buffer.
    let mut pre: Vec<u64> = Vec::new();
    if !try_reserve_words(&mut pre, pre_n) {
        return Err(EngineError::Allocation);
    }
    for i in 0..pre_n
        invariant
            pre@.len() == i,
            forall|t: int| 0 <= t < i ==> pre@[t] == s_pre_word(key, t as u64),
    {
        pre.push(pre_word(key, i as u64));
    }
    proof {
        assert(pre@ =~= s_pre_buffer(key, pre_n as nat));
    }

    // Phase two, expansion pass: grow the pre-buffer into the full dataset
    // through a carry chain, so every word depends on all earlier ones.
    let mut base: Vec<u64> = Vec::new();
    if !try_reserve_words(&mut base, rom_n) {
        return Err(EngineError::Allocation);
    }
    let c0: u64 = mix64(key ^ EXPAND_TWEAK);
    let mut carry: u64 = c0;
    for j in 0..rom_n
        invariant
            base@.len() == j,
            carry == s_expand_carry(pre@, c0, j as nat),
            forall|t: int| 0 <= t < j ==> base@[t] == s_expand_carry(pre@, c0, (t + 1) as nat),
    {
        let w: u64 = expand_step(&pre, carry);
        base.push(w);
        carry = w;
    }
    proof {
        assert(base@ =~= s_expand(pre@, c0, rom_n as nat));
    }

    // Phase two, mixing passes: whole-dataset diffusion, one carry-chained
    // pass per round.
    let rounds: usize = params.mixing_rounds as usize;
    let ghost base0: Seq<u64> = base@;
    let mut cur: Vec<u64> = base;
    for r in 0..rounds
        invariant
            cur@ == s_rounds(base0, key, r as nat),
            cur@.len() == rom_n,
    {
        let civ: u64 = mix64(key ^ wrapping_mul64((r + 1) as u64, 0x8bb84b93962eacc9));
        assert(civ == s_round_iv(key, (r + 1) as u64));
        let mut next: Vec<u64> = Vec::new();
        if !try_reserve_words(&mut next, rom_n) {
            return Err(EngineError::Allocation);
        }
        let mut c: u64 = civ;
        for j in 0..rom_n
            invariant
                next@.len() == j,
                c == s_pass_carry(cur@, civ, j as nat),
                forall|t: int| 0 <= t < j ==> next@[t] == s_pass_carry(cur@, civ, (t + 1) as nat),
        {
            let w: u64 = pass_step(&cur, c, j);
            next.push(w);
            c = w;
        }
        proof {
            assert(next@ =~= s_pass(cur@, civ));
        }
        cur = next;
    }
    Ok(Rom { words: cur })
}

/// Law: ROM construction is deterministic. Two ROMs built from the same
/// seed and the same cost parameters have bit-identical contents.
pub proof fn lemma_build_deterministic(r1: Rom, r2: Rom, seed: Seq<u8>, params: CostParameters)
    requires
        r1@ == spec_rom(
            seed,
            params.pre_buffer_size as nat,
            params.rom_size as nat,
            params.mixing_rounds as nat,
        ),
        r2@ == spec_rom(
            seed,
            params.pre_buffer_size as nat,
            params.rom_size as nat,
            params.mixing_rounds as nat,
        ),
    ensures
        r1@ == r2@,
{
}

} // verus!
