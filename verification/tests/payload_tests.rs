use zk_attestify::error::VerifyError;
use zk_attestify::payload::decode_date_of_birth;

fn payload_word(value: u64) -> Vec<u8> {
    let mut word = vec![0u8; 32];
    word[24..32].copy_from_slice(&value.to_be_bytes());
    word
}

#[test]
fn decode_date_of_birth_reads_the_word() {
    assert_eq!(decode_date_of_birth(&payload_word(950_000_000)), Ok(950_000_000));
    assert_eq!(decode_date_of_birth(&payload_word(0)), Ok(0));
    assert_eq!(decode_date_of_birth(&payload_word(1)), Ok(1));
    assert_eq!(decode_date_of_birth(&payload_word(u64::MAX)), Ok(u64::MAX));
    assert_eq!(
        decode_date_of_birth(&payload_word(0x0102_0304_0506_0708)),
        Ok(0x0102_0304_0506_0708)
    );
}

#[test]
fn decode_date_of_birth_rejects_the_empty_payload() {
    assert_eq!(decode_date_of_birth(&Vec::new()), Err(VerifyError::DecodeError));
}

#[test]
fn decode_date_of_birth_rejects_a_short_payload() {
    assert_eq!(decode_date_of_birth(&vec![0u8; 1]), Err(VerifyError::DecodeError));
    assert_eq!(decode_date_of_birth(&vec![0u8; 8]), Err(VerifyError::DecodeError));
    assert_eq!(decode_date_of_birth(&vec![0u8; 31]), Err(VerifyError::DecodeError));
}

#[test]
fn decode_date_of_birth_rejects_a_long_payload() {
    assert_eq!(decode_date_of_birth(&vec![0u8; 33]), Err(VerifyError::DecodeError));
    assert_eq!(decode_date_of_birth(&vec![0u8; 64]), Err(VerifyError::DecodeError));
}

#[test]
fn decode_date_of_birth_keeps_the_low_64_bits() {
    let mut word = payload_word(5);
    word[23] = 1;
    assert_eq!(decode_date_of_birth(&word), Ok(5));
    let mut word = payload_word(950_000_000);
    word[0] = 0xFF;
    word[15] = 0x01;
    assert_eq!(decode_date_of_birth(&word), Ok(950_000_000));
    assert_eq!(decode_date_of_birth(&vec![0xFFu8; 32]), Ok(u64::MAX));
    let mut word = vec![0xFFu8; 32];
    word[24..32].copy_from_slice(&[0u8; 8]);
    assert_eq!(decode_date_of_birth(&word), Ok(0));
}
