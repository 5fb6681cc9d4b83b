//! The reasons for which a verification run is abandoned.

use vstd::prelude::*;

verus! {

/// Why a run failed. Every failure ends the run without any output bytes.
#[derive(Clone, Copy, Debug, PartialEq, Eq, Structural)]
pub enum VerifyError {
    /// No signer can be recovered from the signature, or the recovered signer
    /// is not the claimed one.
    InvalidSignature,
    /// The payload is not the encoding of a single 256-bit unsigned integer.
    DecodeError,
    /// The date of birth lies after the reference timestamp.
    InvalidTimestamps,
    /// The age is well defined but smaller than the threshold.
    AgeBelowThreshold,
}

} // verus!
