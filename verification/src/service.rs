//! The request-level operations: build-and-publish, single hash, and batch
//! hash against the currently published ROM, with the fixed digest defaults
//! the hashing endpoints use.
use vstd::prelude::*;

use std::sync::Arc;

use crate::batch::{batch_hash, spec_batch_digests};
use crate::engine::{hash, spec_digest, valid_output_bits};
use crate::errors::EngineError;
use crate::hexcode::{hex_encode, spec_hex_of};
use crate::params::CostParameters;
use crate::registry::RomRegistry;
use crate::rom::{build_rom, spec_rom, Rom};

verus! {

/// Loop count the hashing endpoints use, independent of per-request input.
pub const DEFAULT_LOOP_COUNT: u32 = 8;

/// Digest width in bits the hashing endpoints use.
pub const DEFAULT_OUTPUT_BITS: u32 = 256;

/// Build a ROM from the seed and parameters and publish it on success.
///
/// Invalid parameters are rejected before any allocation, and on any
/// failure the previously published ROM, if any, is left untouched: the
/// registry is only written after a fully successful build.
pub fn initialize(registry: &RomRegistry, seed: &Vec<u8>, params: &CostParameters) -> (r: Result<
    (),
    EngineError,
>)
    ensures
        (r matches Err(e) ==> e == EngineError::Configuration || e == EngineError::Allocation),
        (r matches Err(EngineError::Configuration)) <==> !params.valid(),
{
    match build_rom(seed, params) {
        Ok(rom) => {
            registry.publish(rom);
            Ok(())
        },
        Err(e) => Err(e),
    }
}

/// Answer a single-hash request given the ROM handle that was current when
/// the request fetched it.
///
/// Before the first publish there is no handle and the uninitialized error
/// is returned; with a handle, the call always succeeds and the digest is
/// computed entirely against that one ROM, even if a newer one has been
/// published meanwhile.
pub fn respond_hash(current: Option<Arc<Rom>>, preimage: &Vec<u8>) -> (r: Result<
    String,
    EngineError,
>)
    ensures
        (r is Err) <==> current is None,
        r matches Err(e) ==> e == EngineError::Uninitialized,
        current matches Some(rom) ==> (r matches Ok(s) && s@ == spec_hex_of(
            spec_digest(preimage@, rom@, DEFAULT_LOOP_COUNT, DEFAULT_OUTPUT_BITS),
        ) && s@.len() == 64),
{
    match current {
        None => Err(EngineError::Uninitialized),
        Some(rom_handle) => {
            match hash(preimage, &rom_handle, DEFAULT_LOOP_COUNT, DEFAULT_OUTPUT_BITS) {
                Ok(d) => Ok(hex_encode(&d)),
                Err(_) => {
                    proof {
                        assert(false);
                    }
                    Err(EngineError::Configuration)
                },
            }
        },
    }
}

/// Answer a batch-hash request given the ROM handle that was current when
/// the request fetched it.
///
/// Availability is checked once, before any fan-out; an empty batch is a
/// validation error with no work performed; otherwise every preimage is
/// hashed against that one ROM and the digests come back index-aligned.
pub fn respond_batch(current: Option<Arc<Rom>>, preimages: &Vec<Vec<u8>>) -> (r: Result<
    Vec<String>,
    EngineError,
>)
    ensures
        (r matches Err(EngineError::Uninitialized)) <==> current is None,
        (r matches Err(EngineError::Validation)) <==> (current is Some && preimages@.len() == 0),
        (r matches Ok(hs)) <==> (current is Some && preimages@.len() > 0),
        current matches Some(rom) ==> preimages@.len() > 0 ==> (r matches Ok(hs)
            && hs@.len() == preimages@.len() && forall|i: int|
            0 <= i < preimages@.len() ==> hs@[i]@ == spec_hex_of(
                spec_batch_digests(
                    preimages@.map_values(|p: Vec<u8>| p@),
                    rom@,
                    DEFAULT_LOOP_COUNT,
                    DEFAULT_OUTPUT_BITS,
                )[i],
            )),
{
    match current {
        None => Err(EngineError::Uninitialized),
        Some(rom_handle) => {
            match batch_hash(preimages, &rom_handle, DEFAULT_LOOP_COUNT, DEFAULT_OUTPUT_BITS) {
                Ok(hs) => Ok(hs),
                Err(e) => {
                    proof {
                        assert(e == EngineError::Validation);
                    }
                    Err(e)
                },
            }
        },
    }
}

/// Convenience for the single-hash endpoint: fetch the current handle and
/// answer with it.
pub fn hash_request(registry: &RomRegistry, preimage: &Vec<u8>) -> (r: Result<String, EngineError>)
    ensures
        r matches Err(e) ==> e == EngineError::Uninitialized,
{
    respond_hash(registry.get(), preimage)
}

/// Convenience for the batch endpoints: fetch the current handle and
/// answer with it.
pub fn batch_request(registry: &RomRegistry, preimages: &Vec<Vec<u8>>) -> (r: Result<
    Vec<String>,
    EngineError,
>)
    ensures
        r matches Err(e) ==> e == EngineError::Uninitialized || e == EngineError::Validation,
{
    respond_batch(registry.get(), preimages)
}

} // verus!
