use hashengine::batch::batch_hash;
use hashengine::engine::hash;
use hashengine::errors::EngineError;
use hashengine::params::CostParameters;
use hashengine::rom::{build_rom, Rom};

fn small_params() -> CostParameters {
    CostParameters {
        loop_count: 8,
        instruction_budget: 16,
        pre_buffer_size: 64,
        rom_size: 1024,
        mixing_rounds: 2,
    }
}

fn build(seed: &[u8], params: &CostParameters) -> Rom {
    match build_rom(&seed.to_vec(), params) {
        Ok(rom) => rom,
        Err(_) => panic!("build failed"),
    }
}

#[test]
fn build_is_deterministic() {
    let params = small_params();
    let a = build(b"determinism seed", &params);
    let b = build(b"determinism seed", &params);
    assert_eq!(a.len(), 1024);
    assert_eq!(b.len(), 1024);
    for i in 0..a.len() {
        assert_eq!(a.word_at(i), b.word_at(i));
    }
}

#[test]
fn hash_is_deterministic() {
    let params = small_params();
    let rom = build(b"determinism seed", &params);
    let d1 = hash(&b"hello".to_vec(), &rom, 8, 256).unwrap();
    let d2 = hash(&b"hello".to_vec(), &rom, 8, 256).unwrap();
    assert_eq!(d1, d2);
    assert_eq!(d1.len(), 32);
}

#[test]
fn rom_avalanche_on_seed_bit_flip() {
    let params = small_params();
    let seed_a = b"avalanche seed material!".to_vec();
    let mut seed_b = seed_a.clone();
    seed_b[0] ^= 0x01;
    let a = build(&seed_a, &params);
    let b = build(&seed_b, &params);
    let mut differing_bits: u64 = 0;
    for i in 0..a.len() {
        differing_bits += (a.word_at(i) ^ b.word_at(i)).count_ones() as u64;
    }
    let total_bits: u64 = 64 * 1024;
    // One flipped seed bit must change a large fraction of the ROM's bits;
    // the expectation for an unrelated pair is one half.
    assert!(differing_bits > total_bits * 3 / 10);
    assert!(differing_bits < total_bits * 7 / 10);
}

#[test]
fn digest_avalanche_on_preimage_change() {
    let params = small_params();
    let rom = build(b"avalanche seed material!", &params);
    let d1 = hash(&b"hello".to_vec(), &rom, 8, 256).unwrap();
    let d2 = hash(&b"Hello".to_vec(), &rom, 8, 256).unwrap();
    let equal_bytes = d1.iter().zip(d2.iter()).filter(|(x, y)| x == y).count();
    // Nearly every byte must differ; the expectation is 1/256 per position.
    assert!(equal_bytes <= 4);
}

#[test]
fn digest_depends_on_loop_count_and_width() {
    let params = small_params();
    let rom = build(b"loop count seed", &params);
    let d8 = hash(&b"hello".to_vec(), &rom, 8, 256).unwrap();
    let d9 = hash(&b"hello".to_vec(), &rom, 9, 256).unwrap();
    assert_ne!(d8, d9);
    let wide = hash(&b"hello".to_vec(), &rom, 8, 512).unwrap();
    assert_eq!(wide.len(), 64);
}

#[test]
fn invalid_output_bits_rejected() {
    let params = small_params();
    let rom = build(b"width seed", &params);
    assert_eq!(hash(&b"hello".to_vec(), &rom, 8, 0), Err(EngineError::Configuration));
    assert_eq!(hash(&b"hello".to_vec(), &rom, 8, 100), Err(EngineError::Configuration));
    let preimages = vec![b"hello".to_vec()];
    assert_eq!(batch_hash(&preimages, &rom, 8, 100), Err(EngineError::Configuration));
}

#[test]
fn batch_matches_single() {
    let params = small_params();
    let rom = build(b"batch seed", &params);
    let preimages = vec![b"alpha".to_vec(), b"beta".to_vec(), b"gamma".to_vec()];
    let hashes = batch_hash(&preimages, &rom, 8, 256).unwrap();
    assert_eq!(hashes.len(), 3);
    let single = hash(&b"beta".to_vec(), &rom, 8, 256).unwrap();
    let mut rendered = String::new();
    for byte in single.iter() {
        rendered.push_str(&format!("{:02x}", byte));
    }
    assert_eq!(hashes[1], rendered);
}

#[test]
fn batch_preserves_order() {
    let params = small_params();
    let rom = build(b"order seed", &params);
    let mut preimages: Vec<Vec<u8>> = Vec::new();
    for i in 0..32u32 {
        preimages.push(format!("preimage number {}", i).into_bytes());
    }
    let hashes = batch_hash(&preimages, &rom, 8, 256).unwrap();
    assert_eq!(hashes.len(), preimages.len());
    for (i, p) in preimages.iter().enumerate() {
        let single = hash(p, &rom, 8, 256).unwrap();
        let mut rendered = String::new();
        for byte in single.iter() {
            rendered.push_str(&format!("{:02x}", byte));
        }
        assert_eq!(hashes[i], rendered);
    }
}

#[test]
fn empty_batch_rejected() {
    let params = small_params();
    let rom = build(b"empty batch seed", &params);
    let preimages: Vec<Vec<u8>> = Vec::new();
    assert_eq!(batch_hash(&preimages, &rom, 8, 256), Err(EngineError::Validation));
}

#[test]
fn invalid_parameters_rejected_before_any_work() {
    let seed = b"config seed".to_vec();
    let mut params = small_params();
    params.rom_size = 32;
    // ROM smaller than the pre-buffer is a configuration error.
    assert!(matches!(build_rom(&seed, &params), Err(EngineError::Configuration)));
    let mut zeroed = small_params();
    zeroed.mixing_rounds = 0;
    assert!(matches!(build_rom(&seed, &zeroed), Err(EngineError::Configuration)));
    let mut no_loops = small_params();
    no_loops.loop_count = 0;
    assert!(matches!(build_rom(&seed, &no_loops), Err(EngineError::Configuration)));
}
