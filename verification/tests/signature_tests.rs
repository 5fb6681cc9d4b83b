use ethers_core::k256::ecdsa::SigningKey;
use ethers_core::utils::secret_key_to_address;
use zk_attestify::error::VerifyError;
use zk_attestify::signature::{check_signer, recover, verify, Signature};

fn key_of(seed: u8) -> SigningKey {
    let mut secret = [0u8; 32];
    secret[31] = seed;
    SigningKey::from_slice(&secret).unwrap()
}

fn address_of(key: &SigningKey) -> [u8; 20] {
    secret_key_to_address(key).0
}

fn sign_digest(key: &SigningKey, digest: &[u8; 32]) -> Signature {
    let (signature, recovery_id) = key.sign_prehash_recoverable(digest).unwrap();
    let bytes = signature.to_bytes();
    let mut r = [0u8; 32];
    let mut s = [0u8; 32];
    r.copy_from_slice(&bytes[0..32]);
    s.copy_from_slice(&bytes[32..64]);
    Signature { r, s, v: 27 + recovery_id.to_byte() as u64 }
}

#[test]
fn recover_gives_the_address_of_the_signing_key() {
    for seed in [1u8, 2, 3, 77, 255] {
        let key = key_of(seed);
        let digest = [seed; 32];
        let signature = sign_digest(&key, &digest);
        assert_eq!(recover(&digest, &signature), Ok(address_of(&key)));
    }
}

#[test]
fn recover_of_the_key_one_is_its_known_address() {
    let key = key_of(1);
    let expected: [u8; 20] = [
        0x7e, 0x5f, 0x45, 0x52, 0x09, 0x1a, 0x69, 0x12, 0x5d, 0x5d, 0xfc, 0xb7, 0xb8, 0xc2, 0x65,
        0x90, 0x29, 0x39, 0x5b, 0xdf,
    ];
    let digest = [0x42; 32];
    assert_eq!(recover(&digest, &sign_digest(&key, &digest)), Ok(expected));
}

#[test]
fn recover_accepts_the_bare_recovery_indicator() {
    let key = key_of(9);
    let digest = [0x5A; 32];
    let mut signature = sign_digest(&key, &digest);
    signature.v -= 27;
    assert!(signature.v <= 1);
    assert_eq!(recover(&digest, &signature), Ok(address_of(&key)));
}

#[test]
fn recover_over_another_digest_gives_another_address() {
    let key = key_of(5);
    let digest = [0x10; 32];
    let signature = sign_digest(&key, &digest);
    let mut other = digest;
    other[0] ^= 1;
    assert_ne!(recover(&other, &signature), Ok(address_of(&key)));
}

#[test]
fn recover_with_the_other_indicator_gives_another_address() {
    let key = key_of(6);
    let digest = [0x20; 32];
    let mut signature = sign_digest(&key, &digest);
    signature.v = if signature.v == 27 { 28 } else { 27 };
    assert_ne!(recover(&digest, &signature), Ok(address_of(&key)));
}

#[test]
fn recover_rejects_zero_scalars() {
    let signature = Signature { r: [0; 32], s: [0; 32], v: 27 };
    assert_eq!(recover(&[1; 32], &signature), Err(VerifyError::InvalidSignature));
    let signature = Signature { r: [0; 32], s: [1; 32], v: 28 };
    assert_eq!(recover(&[1; 32], &signature), Err(VerifyError::InvalidSignature));
}

#[test]
fn recover_rejects_scalars_above_the_group_order() {
    let signature = Signature { r: [0xFF; 32], s: [0xFF; 32], v: 27 };
    assert_eq!(recover(&[1; 32], &signature), Err(VerifyError::InvalidSignature));
}

#[test]
fn verify_is_byte_equality() {
    let address = [7u8; 20];
    assert!(verify(&address, &address));
    assert!(verify(&[0; 20], &[0; 20]));
    for position in 0..20 {
        let mut other = address;
        other[position] ^= 1;
        assert!(!verify(&address, &other));
        assert!(!verify(&other, &address));
    }
}

#[test]
fn verify_does_not_fold_case() {
    let mut lower = [0u8; 20];
    let mut upper = [0u8; 20];
    lower[0] = b'a';
    upper[0] = b'A';
    assert!(!verify(&lower, &upper));
}

#[test]
fn check_signer_passes_only_the_claimed_address() {
    let claimed = [3u8; 20];
    assert_eq!(check_signer(&claimed, &Ok(claimed)), Ok(()));
    assert_eq!(check_signer(&claimed, &Ok([4u8; 20])), Err(VerifyError::InvalidSignature));
    assert_eq!(
        check_signer(&claimed, &Err(VerifyError::InvalidSignature)),
        Err(VerifyError::InvalidSignature)
    );
}
