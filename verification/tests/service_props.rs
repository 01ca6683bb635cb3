use hashengine::engine::hash;
use hashengine::errors::EngineError;
use hashengine::params::CostParameters;
use hashengine::registry::RomRegistry;
use hashengine::rom::build_rom;
use hashengine::service::{batch_request, hash_request, initialize, respond_hash};

fn small_params() -> CostParameters {
    CostParameters {
        loop_count: 8,
        instruction_budget: 16,
        pre_buffer_size: 64,
        rom_size: 1024,
        mixing_rounds: 2,
    }
}

fn hex_of(bytes: &[u8]) -> String {
    let mut rendered = String::new();
    for byte in bytes {
        rendered.push_str(&format!("{:02x}", byte));
    }
    rendered
}

#[test]
fn uninitialized_hash_rejected() {
    let registry = RomRegistry::new();
    assert!(!registry.is_initialized());
    assert_eq!(hash_request(&registry, &b"hello".to_vec()), Err(EngineError::Uninitialized));
    assert_eq!(
        batch_request(&registry, &vec![b"hello".to_vec()]),
        Err(EngineError::Uninitialized)
    );
}

#[test]
fn initialize_then_hash() {
    let registry = RomRegistry::new();
    let params = small_params();
    initialize(&registry, &b"service seed".to_vec(), &params).unwrap();
    assert!(registry.is_initialized());
    let rendered = hash_request(&registry, &b"hello".to_vec()).unwrap();
    let rom = build_rom(&b"service seed".to_vec(), &params).unwrap();
    let digest = hash(&b"hello".to_vec(), &rom, 8, 256).unwrap();
    assert_eq!(rendered, hex_of(&digest));
}

#[test]
fn failed_initialize_leaves_previous_rom() {
    let registry = RomRegistry::new();
    let params = small_params();
    initialize(&registry, &b"first seed".to_vec(), &params).unwrap();
    let before = hash_request(&registry, &b"hello".to_vec()).unwrap();
    let mut bad = small_params();
    bad.pre_buffer_size = 2048;
    assert_eq!(
        initialize(&registry, &b"second seed".to_vec(), &bad),
        Err(EngineError::Configuration)
    );
    let after = hash_request(&registry, &b"hello".to_vec()).unwrap();
    assert_eq!(before, after);
}

#[test]
fn reinitialize_supersedes_but_old_handle_survives() {
    let registry = RomRegistry::new();
    let params = small_params();
    initialize(&registry, &b"old challenge".to_vec(), &params).unwrap();
    let old_handle = registry.get();
    initialize(&registry, &b"new challenge".to_vec(), &params).unwrap();

    // A hash dispatched with the superseded handle still completes, entirely
    // against the old ROM.
    let with_old = respond_hash(old_handle, &b"hello".to_vec()).unwrap();
    let old_rom = build_rom(&b"old challenge".to_vec(), &params).unwrap();
    let old_digest = hash(&b"hello".to_vec(), &old_rom, 8, 256).unwrap();
    assert_eq!(with_old, hex_of(&old_digest));

    // A fetch after the publish observes the new ROM.
    let with_new = hash_request(&registry, &b"hello".to_vec()).unwrap();
    let new_rom = build_rom(&b"new challenge".to_vec(), &params).unwrap();
    let new_digest = hash(&b"hello".to_vec(), &new_rom, 8, 256).unwrap();
    assert_eq!(with_new, hex_of(&new_digest));
    assert_ne!(with_old, with_new);
}

#[test]
fn batch_request_validates_emptiness_after_availability() {
    let registry = RomRegistry::new();
    let empty: Vec<Vec<u8>> = Vec::new();
    assert_eq!(batch_request(&registry, &empty), Err(EngineError::Uninitialized));
    initialize(&registry, &b"batch seed".to_vec(), &small_params()).unwrap();
    assert_eq!(batch_request(&registry, &empty), Err(EngineError::Validation));
    let hashes = batch_request(&registry, &vec![b"a".to_vec(), b"b".to_vec()]).unwrap();
    assert_eq!(hashes.len(), 2);
    assert_ne!(hashes[0], hashes[1]);
}

#[test]
fn hex_rendering_matches_digest_bytes() {
    let registry = RomRegistry::new();
    let params = small_params();
    initialize(&registry, &b"hex seed".to_vec(), &params).unwrap();
    let rendered = hash_request(&registry, &b"abc".to_vec()).unwrap();
    let rom = build_rom(&b"hex seed".to_vec(), &params).unwrap();
    let digest = hash(&b"abc".to_vec(), &rom, 8, 256).unwrap();
    assert_eq!(rendered.len(), 64);
    assert_eq!(rendered, hex_of(&digest));
    assert!(rendered.chars().all(|c| c.is_ascii_hexdigit() && !c.is_ascii_uppercase()));
}

#[test]
fn example_challenge_flow() {
    let registry = RomRegistry::new();
    let params = CostParameters {
        loop_count: 8,
        instruction_budget: 16,
        pre_buffer_size: 1024,
        rom_size: 1_048_576,
        mixing_rounds: 4,
    };
    let seed = b"an example seed of ample length".to_vec();
    assert!(seed.len() >= 16);
    initialize(&registry, &seed, &params).unwrap();

    let first = hash_request(&registry, &b"hello".to_vec()).unwrap();
    assert_eq!(first.len(), 64);
    assert!(first.chars().all(|c| c.is_ascii_hexdigit() && !c.is_ascii_uppercase()));

    let again = hash_request(&registry, &b"hello".to_vec()).unwrap();
    assert_eq!(first, again);

    let other = hash_request(&registry, &b"Hello".to_vec()).unwrap();
    let equal_positions = first
        .bytes()
        .zip(other.bytes())
        .filter(|(x, y)| x == y)
        .count();
    // Nearly every digest byte changes, so nearly every hex digit does too.
    assert!(equal_positions <= 16);
}
