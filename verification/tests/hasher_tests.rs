use ethers_core::utils::keccak256;
use zk_attestify::hasher::{
    digest_preimage, encode_struct, hash_message, payload_hash, struct_hash, type_hash,
    AttestationRecord, ATTEST_TYPE, PREFIX,
};

fn sample_record() -> AttestationRecord {
    let mut data = vec![0u8; 32];
    data[28..32].copy_from_slice(&950_000_000u32.to_be_bytes());
    AttestationRecord {
        version: 2,
        schema: [0x11; 32],
        recipient: [0x22; 20],
        time: 1_700_000_000,
        expiration_time: 0,
        revocable: true,
        ref_uid: [0x33; 32],
        data,
        salt: [0x44; 32],
    }
}

fn word_of(value: u64) -> [u8; 32] {
    let mut word = [0u8; 32];
    word[24..32].copy_from_slice(&value.to_be_bytes());
    word
}

fn expected_layout(type_hash: &[u8; 32], record: &AttestationRecord, data_hash: &[u8; 32]) -> Vec<u8> {
    let mut bytes = Vec::new();
    bytes.extend_from_slice(type_hash);
    bytes.extend_from_slice(&word_of(record.version as u64));
    bytes.extend_from_slice(&record.schema);
    bytes.extend_from_slice(&[0u8; 12]);
    bytes.extend_from_slice(&record.recipient);
    bytes.extend_from_slice(&word_of(record.time));
    bytes.extend_from_slice(&word_of(record.expiration_time));
    bytes.extend_from_slice(&word_of(record.revocable as u64));
    bytes.extend_from_slice(&record.ref_uid);
    bytes.extend_from_slice(data_hash);
    bytes.extend_from_slice(&record.salt);
    bytes
}

fn expected_digest(domain_separator: &[u8; 32], record: &AttestationRecord) -> [u8; 32] {
    let layout = expected_layout(
        &keccak256(ATTEST_TYPE.as_bytes()),
        record,
        &keccak256(&record.data),
    );
    let mut preimage = vec![0x19u8, 0x01u8];
    preimage.extend_from_slice(domain_separator);
    preimage.extend_from_slice(&keccak256(&layout));
    keccak256(&preimage)
}

#[test]
fn type_string_is_the_canonical_one() {
    assert_eq!(
        ATTEST_TYPE,
        "Attest(uint16 version,bytes32 schema,address recipient,uint64 time,uint64 expirationTime,bool revocable,bytes32 refUID,bytes data,bytes32 salt)"
    );
    assert_eq!(ATTEST_TYPE.len(), 143);
    assert!(ATTEST_TYPE.is_ascii());
    assert_eq!(PREFIX, [0x19, 0x01]);
}

#[test]
fn payload_hash_of_the_empty_payload_is_the_known_vector() {
    let expected: [u8; 32] = [
        0xc5, 0xd2, 0x46, 0x01, 0x86, 0xf7, 0x23, 0x3c, 0x92, 0x7e, 0x7d, 0xb2, 0xdc, 0xc7, 0x03,
        0xc0, 0xe5, 0x00, 0xb6, 0x53, 0xca, 0x82, 0x27, 0x3b, 0x7b, 0xfa, 0xd8, 0x04, 0x5d, 0x85,
        0xa4, 0x70,
    ];
    assert_eq!(payload_hash(&Vec::new()), expected);
}

#[test]
fn payload_hash_of_abc_is_the_known_vector() {
    let expected: [u8; 32] = [
        0x4e, 0x03, 0x65, 0x7a, 0xea, 0x45, 0xa9, 0x4f, 0xc7, 0xd4, 0x7b, 0xa8, 0x26, 0xc8, 0xd6,
        0x67, 0xc0, 0xd1, 0xe6, 0xe3, 0x3a, 0x64, 0xa0, 0x36, 0xec, 0x44, 0xf5, 0x8f, 0xa1, 0x2d,
        0x6c, 0x45,
    ];
    assert_eq!(payload_hash(&b"abc".to_vec()), expected);
}

#[test]
fn type_hash_is_the_hash_of_the_type_string() {
    assert_eq!(type_hash(), keccak256(ATTEST_TYPE.as_bytes()));
    assert_eq!(type_hash(), type_hash());
}

#[test]
fn encode_struct_lays_out_ten_words_in_order() {
    let record = sample_record();
    let type_hash = [0xAA; 32];
    let data_hash = [0xBB; 32];
    let encoded = encode_struct(&type_hash, &record, &data_hash);
    assert_eq!(encoded.len(), 320);
    assert_eq!(encoded, expected_layout(&type_hash, &record, &data_hash));
    assert_eq!(&encoded[0..32], &[0xAA; 32]);
    assert_eq!(&encoded[32..62], &[0u8; 30]);
    assert_eq!(&encoded[62..64], &[0x00, 0x02]);
    assert_eq!(&encoded[64..96], &[0x11; 32]);
    assert_eq!(&encoded[96..108], &[0u8; 12]);
    assert_eq!(&encoded[108..128], &[0x22; 20]);
    assert_eq!(&encoded[152..160], &1_700_000_000u64.to_be_bytes());
    assert_eq!(&encoded[160..192], &[0u8; 32]);
    assert_eq!(encoded[223], 1);
    assert_eq!(&encoded[224..256], &[0x33; 32]);
    assert_eq!(&encoded[256..288], &[0xBB; 32]);
    assert_eq!(&encoded[288..320], &[0x44; 32]);
}

#[test]
fn encode_struct_writes_extreme_integers_and_false() {
    let mut record = sample_record();
    record.version = u16::MAX;
    record.time = u64::MAX;
    record.expiration_time = 1;
    record.revocable = false;
    let encoded = encode_struct(&[0; 32], &record, &[0; 32]);
    assert_eq!(&encoded[32..62], &[0u8; 30]);
    assert_eq!(&encoded[62..64], &[0xFF, 0xFF]);
    assert_eq!(&encoded[128..152], &[0u8; 24]);
    assert_eq!(&encoded[152..160], &[0xFF; 8]);
    assert_eq!(&encoded[160..191], &[0u8; 31]);
    assert_eq!(encoded[191], 1);
    assert_eq!(&encoded[192..224], &[0u8; 32]);
}

#[test]
fn struct_hash_is_the_hash_of_the_layout() {
    let record = sample_record();
    let layout = encode_struct(&type_hash(), &record, &payload_hash(&record.data));
    assert_eq!(struct_hash(&record), keccak256(&layout));
}

#[test]
fn digest_preimage_is_prefix_separator_and_struct_hash() {
    let preimage = digest_preimage(&[0x55; 32], &[0x66; 32]);
    assert_eq!(preimage.len(), 66);
    assert_eq!(&preimage[0..2], &[0x19, 0x01]);
    assert_eq!(&preimage[2..34], &[0x55; 32]);
    assert_eq!(&preimage[34..66], &[0x66; 32]);
}

#[test]
fn hash_message_follows_the_two_stage_scheme() {
    let record = sample_record();
    let domain_separator = [0x77; 32];
    let digest = hash_message(&domain_separator, &record);
    assert_eq!(digest, expected_digest(&domain_separator, &record));
    assert_eq!(
        digest,
        keccak256(digest_preimage(&domain_separator, &struct_hash(&record)))
    );
}

#[test]
fn hash_message_is_deterministic() {
    let record = sample_record();
    assert_eq!(hash_message(&[1; 32], &record), hash_message(&[1; 32], &record.clone()));
}

#[test]
fn hash_message_depends_on_the_domain_separator() {
    let record = sample_record();
    let mut other = [0x77; 32];
    other[31] ^= 1;
    assert_ne!(hash_message(&[0x77; 32], &record), hash_message(&other, &record));
}

#[test]
fn hash_message_changes_with_one_bit_of_any_field() {
    let record = sample_record();
    let separator = [0x77; 32];
    let baseline = hash_message(&separator, &record);

    let mut mutated = record.clone();
    mutated.version ^= 1;
    assert_ne!(hash_message(&separator, &mutated), baseline);

    let mut mutated = record.clone();
    mutated.schema[0] ^= 0x80;
    assert_ne!(hash_message(&separator, &mutated), baseline);

    let mut mutated = record.clone();
    mutated.recipient[19] ^= 1;
    assert_ne!(hash_message(&separator, &mutated), baseline);

    let mut mutated = record.clone();
    mutated.time ^= 1 << 63;
    assert_ne!(hash_message(&separator, &mutated), baseline);

    let mut mutated = record.clone();
    mutated.expiration_time ^= 1;
    assert_ne!(hash_message(&separator, &mutated), baseline);

    let mut mutated = record.clone();
    mutated.revocable = !mutated.revocable;
    assert_ne!(hash_message(&separator, &mutated), baseline);

    let mut mutated = record.clone();
    mutated.ref_uid[16] ^= 0x10;
    assert_ne!(hash_message(&separator, &mutated), baseline);

    let mut mutated = record.clone();
    mutated.data[31] ^= 1;
    assert_ne!(hash_message(&separator, &mutated), baseline);

    let mut mutated = record.clone();
    mutated.salt[31] ^= 1;
    assert_ne!(hash_message(&separator, &mutated), baseline);
}

#[test]
fn hash_message_hashes_the_payload_not_its_bytes() {
    let mut record = sample_record();
    record.data = vec![1, 2, 3];
    let digest = hash_message(&[0; 32], &record);
    assert_eq!(digest, expected_digest(&[0; 32], &record));
    record.data = Vec::new();
    assert_eq!(hash_message(&[0; 32], &record), expected_digest(&[0; 32], &record));
    assert_ne!(hash_message(&[0; 32], &record), digest);
}
