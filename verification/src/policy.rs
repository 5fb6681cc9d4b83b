//! The age policy: the age in seconds at a reference timestamp, and its
//! comparison with a threshold.

use vstd::prelude::*;
use crate::error::VerifyError;

verus! {

/// The threshold age and the reference timestamp of one run, both in seconds.
#[derive(Clone, Copy, Debug, PartialEq, Eq, Structural)]
pub struct PolicyInput {
    pub threshold_age: u64,
    pub current_timestamp: u64,
}

/// The age at `current_timestamp` of a subject born at `birth_timestamp`, or
/// `InvalidTimestamps` where the birth lies in the future.
pub open spec fn spec_age_in_seconds(current_timestamp: u64, birth_timestamp: u64) -> Result<
    u64,
    VerifyError,
> {
    if birth_timestamp > current_timestamp {
        Err(VerifyError::InvalidTimestamps)
    } else {
        Ok((current_timestamp - birth_timestamp) as u64)
    }
}

/// An age meets a threshold when it is at least the threshold.
pub open spec fn spec_meets_threshold(age: u64, threshold: u64) -> bool {
    age >= threshold
}

/// What the policy says of a date of birth: the age, or the reason for which
/// the subject does not pass.
pub open spec fn policy_outcome(policy: PolicyInput, birth_timestamp: u64) -> Result<
    u64,
    VerifyError,
> {
    match spec_age_in_seconds(policy.current_timestamp, birth_timestamp) {
        Err(e) => Err(e),
        Ok(age) => if spec_meets_threshold(age, policy.threshold_age) {
            Ok(age)
        } else {
            Err(VerifyError::AgeBelowThreshold)
        },
    }
}

/// Subtracts the date of birth from the reference timestamp. A date of birth
/// after the reference timestamp is an error and never wraps around.
pub fn age_in_seconds(current_timestamp: u64, birth_timestamp: u64) -> (age: Result<
    u64,
    VerifyError,
>)
    ensures
        age == spec_age_in_seconds(current_timestamp, birth_timestamp),
        age is Err <==> current_timestamp < birth_timestamp,
        age matches Ok(a) ==> a + birth_timestamp == current_timestamp,
        age matches Err(e) ==> e == VerifyError::InvalidTimestamps,
{
    if birth_timestamp > current_timestamp {
        Err(VerifyError::InvalidTimestamps)
    } else {
        Ok(current_timestamp - birth_timestamp)
    }
}

/// Whether `age` is at least `threshold`; an age equal to the threshold passes.
pub fn meets_threshold(age: u64, threshold: u64) -> (passes: bool)
    ensures
        passes == spec_meets_threshold(age, threshold),
        passes <==> age >= threshold,
{
    age >= threshold
}

/// Applies the policy to a date of birth.
pub fn evaluate_policy(policy: &PolicyInput, birth_timestamp: u64) -> (outcome: Result<
    u64,
    VerifyError,
>)
    ensures
        outcome == policy_outcome(*policy, birth_timestamp),
{
    match age_in_seconds(policy.current_timestamp, birth_timestamp) {
        Err(e) => Err(e),
        Ok(age) => if meets_threshold(age, policy.threshold_age) {
            Ok(age)
        } else {
            Err(VerifyError::AgeBelowThreshold)
        },
    }
}

/// A subject whose age is exactly the threshold passes, and one second less
/// does not.
pub proof fn lemma_threshold_boundary(birth_timestamp: u64, threshold: u64)
    requires
        birth_timestamp + threshold <= u64::MAX,
    ensures
        policy_outcome(
            PolicyInput {
                threshold_age: threshold,
                current_timestamp: (birth_timestamp + threshold) as u64,
            },
            birth_timestamp,
        ) == Ok::<u64, VerifyError>(threshold),
        threshold >= 1 ==> policy_outcome(
            PolicyInput {
                threshold_age: threshold,
                current_timestamp: (birth_timestamp + threshold - 1) as u64,
            },
            birth_timestamp,
        ) == Err::<u64, VerifyError>(VerifyError::AgeBelowThreshold),
{
}

/// A reference timestamp before the date of birth is always
/// `InvalidTimestamps`, whatever the threshold.
pub proof fn lemma_future_birth_is_invalid(policy: PolicyInput, birth_timestamp: u64)
    requires
        policy.current_timestamp < birth_timestamp,
    ensures
        policy_outcome(policy, birth_timestamp) == Err::<u64, VerifyError>(
            VerifyError::InvalidTimestamps,
        ),
{
}

} // verus!
