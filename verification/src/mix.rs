//! Word-level mixing primitives shared by ROM construction and hashing:
//! truncating 64-bit arithmetic, rotation, a strong 64-bit bit mixer, and
//! byte-string absorption into a 64-bit state.
use vstd::prelude::*;

verus! {

/// Truncating 64-bit addition, stated over mathematical integers.
pub open spec fn w_add(a: u64, b: u64) -> u64 {
    ((a + b) % 0x1_0000_0000_0000_0000) as u64
}

/// Truncating 64-bit multiplication, stated over mathematical integers.
pub open spec fn w_mul(a: u64, b: u64) -> u64 {
    ((a * b) % 0x1_0000_0000_0000_0000) as u64
}

/// Left rotation of a 64-bit word by `s` bits.
pub open spec fn s_rotl(x: u64, s: u64) -> u64
    recommends
        0 < s < 64,
{
    (x << s) | (x >> ((64 - s) as u64))
}

/// A 64-bit finalizing mixer: two multiply-xorshift stages followed by a
/// final xorshift, so that every output bit depends on every input bit.
pub open spec fn s_mix64(x: u64) -> u64 {
    let a = w_mul(x ^ (x >> 30), 0xbf58476d1ce4e5b9);
    let b = w_mul(a ^ (a >> 27), 0x94d049bb133111eb);
    b ^ (b >> 31)
}

/// One absorption step: fold one byte into the running 64-bit state.
pub open spec fn s_absorb_step(acc: u64, byte: u8) -> u64 {
    s_mix64(acc ^ w_mul(w_add(byte as u64, 1), 0x9e3779b97f4a7c15))
}

/// Absorb a whole byte string into a 64-bit state, starting from a
/// domain-separation value `iv`.
pub open spec fn s_absorb(s: Seq<u8>, iv: u64) -> u64
    decreases s.len(),
{
    if s.len() == 0 {
        iv
    } else {
        s_absorb_step(s_absorb(s.drop_last(), iv), s.last())
    }
}

pub fn wrapping_add64(a: u64, b: u64) -> (r: u64)
    ensures
        r == w_add(a, b),
{
    let s: u128 = a as u128 + b as u128;
    (s % 0x1_0000_0000_0000_0000u128) as u64
}

pub fn wrapping_mul64(a: u64, b: u64) -> (r: u64)
    ensures
        r == w_mul(a, b),
{
    proof {
        assert((a as int) * (b as int) <= 0xffff_ffff_ffff_ffff * 0xffff_ffff_ffff_ffff)
            by (nonlinear_arith)
            requires
                a <= 0xffff_ffff_ffff_ffffu64,
                b <= 0xffff_ffff_ffff_ffffu64,
        ;
    }
    let p: u128 = (a as u128) * (b as u128);
    (p % 0x1_0000_0000_0000_0000u128) as u64
}

pub fn rotl64(x: u64, s: u64) -> (r: u64)
    requires
        0 < s < 64,
    ensures
        r == s_rotl(x, s),
{
    (x << s) | (x >> (64 - s))
}

pub fn mix64(x: u64) -> (r: u64)
    ensures
        r == s_mix64(x),
{
    let a: u64 = wrapping_mul64(x ^ (x >> 30), 0xbf58476d1ce4e5b9);
    let b: u64 = wrapping_mul64(a ^ (a >> 27), 0x94d049bb133111eb);
    b ^ (b >> 31)
}

pub fn absorb_step(acc: u64, byte: u8) -> (r: u64)
    ensures
        r == s_absorb_step(acc, byte),
{
    mix64(acc ^ wrapping_mul64(wrapping_add64(byte as u64, 1), 0x9e3779b97f4a7c15))
}

pub fn absorb_bytes(s: &Vec<u8>, iv: u64) -> (r: u64)
    ensures
        r == s_absorb(s@, iv),
{
    let mut acc: u64 = iv;
    for i in 0..s.len()
        invariant
            acc == s_absorb(s@.take(i as int), iv),
    {
        acc = absorb_step(acc, s[i]);
        proof {
            assert(s@.take(i + 1).drop_last() =~= s@.take(i as int));
            assert(s@.take(i + 1).last() == s@[i as int]);
        }
    }
    proof {
        assert(s@.take(s@.len() as int) =~= s@);
    }
    acc
}

} // verus!
