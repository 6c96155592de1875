use blake2::digest::FixedOutput;
use blake2::digest::KeyInit;
use blake2::digest::Update;
use blake2::Blake2sMac256;
use elspeth_sidecar::crypto::Secrets;
use uuid::Uuid;

fn fixed_digest(tag: u8) -> [u8; 32] {
    [tag; 32]
}

fn generate() -> Secrets {
    Secrets::generate().expect("RNG failure")
}

fn fixed_secrets() -> Secrets {
    let mut bytes = [0u8; 64];
    for (i, byte) in bytes.iter_mut().enumerate() {
        *byte = i as u8;
    }
    Secrets::from_entropy(&bytes)
}

#[test]
fn test_compute_seal_deterministic() {
    let secrets = generate();
    let frame = Uuid::new_v4().into_bytes();
    let digest = [0x55; 32];
    let seal1 = secrets.compute_seal(frame, 3, &digest);
    let seal2 = secrets.compute_seal(frame, 3, &digest);
    assert_eq!(seal1, seal2);
}

#[test]
fn crypto_test_verify_seal_success() {
    let secrets = generate();
    let frame = Uuid::new_v4().into_bytes();
    let digest = [0x66; 32];
    let seal = secrets.compute_seal(frame, 3, &digest);
    assert!(secrets.verify_seal(frame, 3, &digest, &seal));
}

#[test]
fn test_verify_seal_wrong_frame_id() {
    let secrets = generate();
    let frame = Uuid::new_v4().into_bytes();
    let digest = [0x44; 32];
    let seal = secrets.compute_seal(frame, 3, &digest);
    assert!(!secrets.verify_seal(Uuid::new_v4().into_bytes(), 3, &digest, &seal));
}

#[test]
fn test_secrets_generate_creates_random_values() {
    let frame_id = Uuid::new_v4().into_bytes();
    let digest = fixed_digest(0xAB);
    let seal1 = generate().compute_seal(frame_id, 3, &digest);
    let seal2 = generate().compute_seal(frame_id, 3, &digest);

    // Independent secrets should produce different seals with overwhelming probability.
    assert_ne!(seal1, seal2);
    assert_eq!(seal1.len(), 32);
    assert_eq!(seal2.len(), 32);
}

#[test]
fn test_secrets_compute_seal_deterministic() {
    let secrets = generate();
    let frame_id = Uuid::new_v4().into_bytes();
    let digest = fixed_digest(0xAB);
    let level = 3u32;

    let seal1 = secrets.compute_seal(frame_id, level, &digest);
    let seal2 = secrets.compute_seal(frame_id, level, &digest);

    // Same inputs produce same seal
    assert_eq!(seal1, seal2);
    assert_eq!(seal1.len(), 32);
}

#[test]
fn test_secrets_verify_seal_success() {
    let secrets = generate();
    let frame_id = Uuid::new_v4().into_bytes();
    let digest = fixed_digest(0x42);

    let seal = secrets.compute_seal(frame_id, 2, &digest);

    // Verification succeeds for matching tuple
    assert!(secrets.verify_seal(frame_id, 2, &digest, &seal));
}

#[test]
fn test_secrets_verify_seal_fails_wrong_frame_id() {
    let secrets = generate();
    let frame_id = Uuid::new_v4().into_bytes();
    let other_frame_id = Uuid::new_v4().into_bytes();
    let digest = fixed_digest(0x11);

    let seal = secrets.compute_seal(frame_id, 1, &digest);

    assert!(!secrets.verify_seal(other_frame_id, 1, &digest, &seal));
}

#[test]
fn test_secrets_verify_seal_fails_wrong_level() {
    let secrets = generate();
    let frame_id = Uuid::new_v4().into_bytes();
    let digest = fixed_digest(0x22);

    let seal = secrets.compute_seal(frame_id, 4, &digest);

    assert!(!secrets.verify_seal(frame_id, 3, &digest, &seal));
}

#[test]
fn test_secrets_verify_seal_fails_wrong_digest() {
    let secrets = generate();
    let frame_id = Uuid::new_v4().into_bytes();

    let seal = secrets.compute_seal(frame_id, 3, &fixed_digest(0x33));

    assert!(!secrets.verify_seal(frame_id, 3, &fixed_digest(0x34), &seal));
}

#[test]
fn from_entropy_partitions_the_bytes() {
    let secrets = fixed_secrets();
    let mut expected_token = [0u8; 32];
    for (i, byte) in expected_token.iter_mut().enumerate() {
        *byte = i as u8;
    }
    assert_eq!(secrets.construction_ticket(), expected_token);
}

#[test]
fn seal_is_the_blake2s_mac_of_the_big_endian_message() {
    let secrets = fixed_secrets();
    let frame_id = [0x01u8; 16];
    let level: u32 = 0x0102_0304;
    let digest = [0xAAu8; 32];

    let mut key = [0u8; 32];
    for (i, byte) in key.iter_mut().enumerate() {
        *byte = (i + 32) as u8;
    }
    let mut message = Vec::new();
    message.extend_from_slice(&frame_id);
    message.extend_from_slice(&[0x01, 0x02, 0x03, 0x04]);
    message.extend_from_slice(&digest);
    assert_eq!(message.len(), 52);
    let mut mac = Blake2sMac256::new_from_slice(&key).unwrap();
    mac.update(&message);
    let expected: [u8; 32] = mac.finalize_fixed().into();

    let seal = secrets.compute_seal(frame_id, level, &digest);
    assert_eq!(seal, expected);
    assert_ne!(&seal[..], &message[..32]);
    assert_ne!(seal, key);
}

#[test]
fn seal_depends_on_the_key_and_the_triple_alone() {
    let first = fixed_secrets();
    let second = fixed_secrets();
    let frame_id = [0x07u8; 16];
    let digest = fixed_digest(0x70);
    assert_eq!(first.compute_seal(frame_id, 9, &digest), second.compute_seal(frame_id, 9, &digest));
}

#[test]
fn verify_seal_refuses_other_lengths() {
    let secrets = fixed_secrets();
    let frame_id = [0x05u8; 16];
    let digest = fixed_digest(0x50);
    let seal = secrets.compute_seal(frame_id, 1, &digest);
    assert!(secrets.verify_seal(frame_id, 1, &digest, &seal));
    assert!(!secrets.verify_seal(frame_id, 1, &digest, &seal[..31]));
    assert!(!secrets.verify_seal(frame_id, 1, &digest, &[]));
    let mut longer = seal.to_vec();
    longer.push(0);
    assert!(!secrets.verify_seal(frame_id, 1, &digest, &longer));
}

#[test]
fn verify_seal_refuses_a_flipped_bit() {
    let secrets = fixed_secrets();
    let frame_id = [0x05u8; 16];
    let digest = fixed_digest(0x50);
    let mut seal = secrets.compute_seal(frame_id, 1, &digest);
    seal[31] ^= 1;
    assert!(!secrets.verify_seal(frame_id, 1, &digest, &seal));
}

#[test]
fn level_bytes_are_big_endian() {
    let secrets = fixed_secrets();
    let frame_id = [0x05u8; 16];
    let digest = fixed_digest(0x50);
    // 1 and 0x0100_0000 differ only in byte order.
    assert_ne!(secrets.compute_seal(frame_id, 1, &digest), secrets.compute_seal(frame_id, 0x0100_0000, &digest));
}
