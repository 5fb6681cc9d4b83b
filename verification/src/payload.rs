//! The date of birth in an attestation's payload.
//!
//! The payload is one ABI word: an unsigned 256-bit integer, most significant
//! byte first. The date of birth is that integer narrowed to 64 bits; the
//! narrowing keeps the low 64 bits and never fails.

use vstd::prelude::*;
use ethers_core::abi::{ParamType, Token};
use crate::error::VerifyError;
use crate::words::{be_value, lemma_be_value_low_u64};

verus! {

/// The error of the ABI decoder.
#[verifier::external_type_specification]
#[verifier::external_body]
pub struct ExAbiError(ethers_core::abi::Error);

/// The date of birth that a payload holds: defined for payloads of exactly
/// one word, as the word's value modulo 2^64.
pub open spec fn birth_timestamp(payload: Seq<u8>) -> Option<u64> {
    if payload.len() == 32 {
        Some((be_value(payload) % 0x1_0000_0000_0000_0000) as u64)
    } else {
        None
    }
}

/// Calls `ethers_core::abi::decode` for the single parameter type
/// `uint256` and hands out the four 64-bit limbs of the decoded integer,
/// least significant first. The decoder is claimed to succeed exactly where
/// the input holds at least one word, to read the first word as a
/// big-endian integer, and to ignore what follows it.
#[verifier::external_body]
fn abi_decode_uint256(data: &[u8]) -> (limbs: Result<[u64; 4], ethers_core::abi::Error>)
    ensures
        limbs is Ok <==> data@.len() >= 32,
        limbs matches Ok(l) ==> {
            &&& l@[0] as nat == be_value(data@.subrange(24, 32))
            &&& l@[1] as nat == be_value(data@.subrange(16, 24))
            &&& l@[2] as nat == be_value(data@.subrange(8, 16))
            &&& l@[3] as nat == be_value(data@.subrange(0, 8))
        },
{
    let tokens = ethers_core::abi::decode(&[ParamType::Uint(256)], data)?;
    tokens.into_iter().next().and_then(Token::into_uint).map(|value| value.0).ok_or(
        ethers_core::abi::Error::InvalidData,
    )
}

/// Decodes the date of birth from a payload.
///
/// Succeeds exactly on payloads of 32 bytes; shorter and longer ones are a
/// `DecodeError`. An integer above 64 bits is narrowed to its low 64 bits.
pub fn decode_date_of_birth(data: &Vec<u8>) -> (dob: Result<u64, VerifyError>)
    ensures
        dob is Ok <==> data@.len() == 32,
        dob matches Ok(t) ==> birth_timestamp(data@) == Some(t),
        dob matches Ok(t) ==> t as nat == be_value(data@) % 0x1_0000_0000_0000_0000,
        dob matches Err(e) ==> e == VerifyError::DecodeError && birth_timestamp(data@) is None,
{
    if data.len() != 32 {
        return Err(VerifyError::DecodeError);
    }
    match abi_decode_uint256(data.as_slice()) {
        Ok(limbs) => {
            proof {
                lemma_be_value_low_u64(data@);
            }
            Ok(limbs[0])
        },
        Err(_) => Err(VerifyError::DecodeError),
    }
}

} // verus!
