//! Recovery of the signer of a digest, and its comparison with the claimed
//! signer.

use vstd::prelude::*;
use ethers_core::types::{RecoveryMessage, H256, U256};
use crate::error::VerifyError;

verus! {

/// A recoverable ECDSA signature over secp256k1: the two scalars, most
/// significant byte first, and the recovery indicator.
#[derive(Clone, Copy, Debug, PartialEq, Eq)]
pub struct Signature {
    pub r: [u8; 32],
    pub s: [u8; 32],
    pub v: u64,
}

/// The error of the signature recovery.
#[verifier::external_type_specification]
#[verifier::external_body]
pub struct ExSignatureError(ethers_core::types::SignatureError);

/// The address whose key signed `digest` with the signature `(r, s, v)`, or
/// `None` where no key can be recovered from them.
pub uninterp spec fn recovered_signer(digest: Seq<u8>, r: Seq<u8>, s: Seq<u8>, v: u64) -> Option<
    Seq<u8>,
>;

/// Calls `ethers_core::types::Signature::recover` on a message hash. The
/// outcome is taken to be a function of the digest and of the signature's
/// three parts alone, `recovered_signer`: an address where the call
/// succeeds, `None` where it fails.
#[verifier::external_body]
fn recover_address(digest: &[u8; 32], signature: &Signature) -> (address: Result<
    [u8; 20],
    ethers_core::types::SignatureError,
>)
    ensures
        match address {
            Ok(a) => recovered_signer(digest@, signature.r@, signature.s@, signature.v) == Some(
                a@,
            ),
            Err(_) => recovered_signer(digest@, signature.r@, signature.s@, signature.v) is None,
        },
{
    let outside = ethers_core::types::Signature {
        r: U256::from_big_endian(&signature.r),
        s: U256::from_big_endian(&signature.s),
        v: signature.v,
    };
    outside.recover(RecoveryMessage::Hash(H256::from(*digest))).map(|address| address.0)
}

/// What the signature check says once the recovery has been attempted: the
/// recovered address must exist and be the claimed one.
pub open spec fn signer_check(claimed: Seq<u8>, recovered: Option<Seq<u8>>) -> Result<
    (),
    VerifyError,
> {
    match recovered {
        Some(address) => if address == claimed {
            Ok(())
        } else {
            Err(VerifyError::InvalidSignature)
        },
        None => Err(VerifyError::InvalidSignature),
    }
}

/// Recovers the address that signed `digest`. A signature from which no key
/// can be recovered is an `InvalidSignature`.
pub fn recover(digest: &[u8; 32], signature: &Signature) -> (address: Result<[u8; 20], VerifyError>)
    ensures
        match address {
            Ok(a) => recovered_signer(digest@, signature.r@, signature.s@, signature.v) == Some(
                a@,
            ),
            Err(e) => e == VerifyError::InvalidSignature && recovered_signer(
                digest@,
                signature.r@,
                signature.s@,
                signature.v,
            ) is None,
        },
{
    match recover_address(digest, signature) {
        Ok(address) => Ok(address),
        Err(_) => Err(VerifyError::InvalidSignature),
    }
}

/// Whether the recovered address is the claimed one, byte for byte.
pub fn verify(claimed: &[u8; 20], recovered: &[u8; 20]) -> (same: bool)
    ensures
        same <==> claimed@ == recovered@,
{
    let mut i: usize = 0;
    while i < 20
        invariant
            i <= 20,
            forall|k: int| 0 <= k < i ==> claimed@[k] == recovered@[k],
        decreases 20 - i,
    {
        if claimed[i] != recovered[i] {
            return false;
        }
        i += 1;
    }
    assert(claimed@ =~= recovered@);
    true
}

/// Decides the signature check from the outcome of the recovery.
pub fn check_signer(claimed: &[u8; 20], recovered: &Result<[u8; 20], VerifyError>) -> (checked:
    Result<(), VerifyError>)
    ensures
        checked == signer_check(
            claimed@,
            match recovered {
                Ok(a) => Some(a@),
                Err(_) => None,
            },
        ),
        checked is Ok <==> (recovered matches Ok(a) && a@ == claimed@),
        checked matches Err(e) ==> e == VerifyError::InvalidSignature,
{
    match recovered {
        Ok(address) => if verify(claimed, address) {
            Ok(())
        } else {
            Err(VerifyError::InvalidSignature)
        },
        Err(_) => Err(VerifyError::InvalidSignature),
    }
}

} // verus!
