//! The batch dispatcher: fan a sequence of preimages out across a worker
//! pool, hash each against one shared read-only ROM, and return the
//! digests index-aligned with the inputs.
use vstd::prelude::*;

use rayon::iter::{IntoParallelRefIterator, ParallelIterator};

use crate::engine::{digest_unchecked, spec_digest, valid_output_bits};
use crate::errors::EngineError;
use crate::hexcode::{hex_encode, spec_hex_of};
use crate::rom::Rom;

verus! {

/// The batch result: the digest of each preimage, at the same index.
pub open spec fn spec_batch_digests(
    preimages: Seq<Seq<u8>>,
    rom: Seq<u64>,
    loop_count: u32,
    output_bits: u32,
) -> Seq<Seq<u8>> {
    Seq::new(preimages.len(), |i: int| spec_digest(preimages[i], rom, loop_count, output_bits))
}

/// Hash one batch item and render it; the per-item work unit handed to the
/// worker pool.
pub(crate) fn hash_item(preimage: &Vec<u8>, rom: &Rom, loop_count: u32, output_bits: u32) -> (s: String)
    requires
        valid_output_bits(output_bits),
    ensures
        s@ == spec_hex_of(spec_digest(preimage@, rom@, loop_count, output_bits)),
{
    let d: Vec<u8> = digest_unchecked(preimage, rom, loop_count, output_bits);
    hex_encode(&d)
}

/// Relies on rayon's `par_iter().map(..).collect()`: over a `Vec` it yields
/// exactly the per-element images of the mapped function, index-aligned
/// with the input regardless of how the work was partitioned or scheduled.
#[verifier::external_body]
fn par_hash_all(preimages: &Vec<Vec<u8>>, rom: &Rom, loop_count: u32, output_bits: u32) -> (r: Vec<
    String,
>)
    requires
        valid_output_bits(output_bits),
    ensures
        r@.len() == preimages@.len(),
        forall|i: int|
            0 <= i < preimages@.len() ==> r@[i]@ == spec_hex_of(
                spec_digest(preimages@[i]@, rom@, loop_count, output_bits),
            ),
{
    preimages.par_iter().map(|p| hash_item(p, rom, loop_count, output_bits)).collect()
}

/// Hash a whole batch against one ROM, preserving input order.
///
/// An empty batch is rejected up front with no work performed; an invalid
/// output width is the caller's configuration error. On success every
/// digest is exactly the one `hash` returns for the preimage at the same
/// index, whatever worker processed it.
pub fn batch_hash(preimages: &Vec<Vec<u8>>, rom: &Rom, loop_count: u32, output_bits: u32) -> (r:
    Result<Vec<String>, EngineError>)
    ensures
        (r matches Err(EngineError::Validation)) <==> preimages@.len() == 0,
        (r matches Err(EngineError::Configuration)) <==> (preimages@.len() > 0
            && !valid_output_bits(output_bits)),
        (r matches Ok(hs)) <==> (preimages@.len() > 0 && valid_output_bits(output_bits)),
        r matches Ok(hs) ==> hs@.len() == preimages@.len() && forall|i: int|
            0 <= i < preimages@.len() ==> hs@[i]@ == spec_hex_of(
                spec_batch_digests(
                    preimages@.map_values(|p: Vec<u8>| p@),
                    rom@,
                    loop_count,
                    output_bits,
                )[i],
            ),
{
    if preimages.len() == 0 {
        return Err(EngineError::Validation);
    }
    if output_bits == 0 || output_bits % 64 != 0 {
        return Err(EngineError::Configuration);
    }
    Ok(par_hash_all(preimages, rom, loop_count, output_bits))
}

/// Law: batch/single consistency and order preservation. The batch result
/// at index `i` is exactly the digest of the preimage at index `i`, for
/// the same ROM and parameters.
pub proof fn lemma_batch_single_consistency(
    preimages: Seq<Seq<u8>>,
    rom: Seq<u64>,
    loop_count: u32,
    output_bits: u32,
    i: int,
)
    requires
        0 <= i < preimages.len(),
    ensures
        spec_batch_digests(preimages, rom, loop_count, output_bits)[i] == spec_digest(
            preimages[i],
            rom,
            loop_count,
            output_bits,
        ),
{
}

} // verus!
