//! Verification of a signed attestation against an age policy.
//!
//! An attestation record is hashed into a domain-separated typed-data digest,
//! the address that signed the digest is recovered and compared with the
//! claimed signer, the date of birth carried in the record's payload is held
//! against a threshold age, and on success the public output tuple is encoded.

pub mod error;
pub mod hasher;
pub mod output;
pub mod payload;
pub mod policy;
pub mod orchestrator;
pub mod report;
pub mod signature;
pub mod words;

pub use crate::error::VerifyError;
pub use crate::hasher::{hash_message, AttestationRecord};
pub use crate::orchestrator::{verify_attestation, SignedClaim, VerifierState};
pub use crate::output::PublicOutput;
pub use crate::payload::decode_date_of_birth;
pub use crate::policy::PolicyInput;
pub use crate::report::ReceiptVerificationResult;
pub use crate::signature::Signature;
