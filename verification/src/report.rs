//! How the verification of a proof is reported: whether the proof verified,
//! and the error's description where it did not.

use vstd::prelude::*;

verus! {

/// The report on one proof.
#[derive(Clone, Debug, PartialEq, Eq)]
pub struct ReceiptVerificationResult {
    pub verified: bool,
    pub error: String,
}

impl ReceiptVerificationResult {
    /// The report on a proof whose verification ended in `outcome`: verified with an
    /// empty error where it succeeded, not verified with the error's
    /// description where it failed.
    pub fn from_outcome(outcome: Result<(), String>) -> (report: ReceiptVerificationResult)
        ensures
            report.verified <==> outcome is Ok,
            outcome is Ok ==> report.error@ == Seq::<char>::empty(),
            outcome matches Err(description) ==> report.error@ == description@,
    {
        match outcome {
            Ok(_) => ReceiptVerificationResult { verified: true, error: String::new() },
            Err(description) => ReceiptVerificationResult { verified: false, error: description },
        }
    }
}

} // verus!
