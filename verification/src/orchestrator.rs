//! The verification of a signed claim, as a state machine.
//!
//! A run starts in `Start` and moves through `DigestComputed`,
//! `SignatureChecked` and `AgeChecked` to `Committed`, which carries the
//! output bytes. Any step that cannot be taken ends the run in `Failed`
//! with the reason; a failed run carries no output.

use vstd::prelude::*;
use crate::error::VerifyError;
use crate::hasher::{hash_message, typed_data_digest, AttestationRecord, AttestationRecordView};
use crate::output::{encode, public_output_encoding, PublicOutputView};
use crate::payload::{birth_timestamp, decode_date_of_birth};
use crate::policy::{evaluate_policy, policy_outcome, PolicyInput};
use crate::signature::{check_signer, recover, recovered_signer, signer_check, Signature};

verus! {

/// An attestation record with the domain it was signed under, the address
/// that is claimed to have signed it, and the signature.
#[derive(Clone, Debug, PartialEq, Eq)]
pub struct SignedClaim {
    pub record: AttestationRecord,
    pub domain_separator: [u8; 32],
    pub signer: [u8; 20],
    pub signature: Signature,
}

/// A signed claim as plain values.
pub struct SignedClaimView {
    pub record: AttestationRecordView,
    pub domain_separator: Seq<u8>,
    pub signer: Seq<u8>,
    pub r: Seq<u8>,
    pub s: Seq<u8>,
    pub v: u64,
}

impl View for SignedClaim {
    type V = SignedClaimView;

    open spec fn view(&self) -> SignedClaimView {
        SignedClaimView {
            record: self.record@,
            domain_separator: self.domain_separator@,
            signer: self.signer@,
            r: self.signature.r@,
            s: self.signature.s@,
            v: self.signature.v,
        }
    }
}

impl SignedClaimView {
    /// The digest that the signature is held against.
    pub open spec fn digest(self) -> Seq<u8> {
        typed_data_digest(self.domain_separator, self.record)
    }

    /// The address recovered from the signature over the claim's digest.
    pub open spec fn recovery(self) -> Option<Seq<u8>> {
        recovered_signer(self.digest(), self.r, self.s, self.v)
    }

    /// Whether the signature over the claim's digest is the claimed
    /// signer's.
    pub open spec fn is_authentic(self) -> bool {
        self.recovery() == Some(self.signer)
    }

    /// The public output of a successful run on this claim.
    pub open spec fn output(self, policy: PolicyInput) -> PublicOutputView {
        PublicOutputView {
            signer: self.signer,
            threshold_age: policy.threshold_age,
            current_timestamp: policy.current_timestamp,
            attest_time: self.record.time,
            recipient: self.record.recipient,
            domain_separator: self.domain_separator,
        }
    }
}

/// Where a run stands.
#[derive(Clone, Debug, PartialEq, Eq)]
pub enum VerifierState {
    Start,
    DigestComputed { digest: [u8; 32] },
    SignatureChecked,
    AgeChecked,
    Committed { output: Vec<u8> },
    Failed { reason: VerifyError },
}

/// A state as plain values.
pub enum VerifierStateView {
    Start,
    DigestComputed { digest: Seq<u8> },
    SignatureChecked,
    AgeChecked,
    Committed { output: Seq<u8> },
    Failed { reason: VerifyError },
}

impl View for VerifierState {
    type V = VerifierStateView;

    open spec fn view(&self) -> VerifierStateView {
        match self {
            VerifierState::Start => VerifierStateView::Start,
            VerifierState::DigestComputed { digest } => VerifierStateView::DigestComputed {
                digest: digest@,
            },
            VerifierState::SignatureChecked => VerifierStateView::SignatureChecked,
            VerifierState::AgeChecked => VerifierStateView::AgeChecked,
            VerifierState::Committed { output } => VerifierStateView::Committed {
                output: output@,
            },
            VerifierState::Failed { reason } => VerifierStateView::Failed { reason: *reason },
        }
    }
}

impl VerifierStateView {
    /// `Committed` and `Failed` end a run.
    pub open spec fn is_terminal(self) -> bool {
        self is Committed || self is Failed
    }

    /// How many steps a run in this state has before it.
    pub open spec fn steps_left(self) -> nat {
        match self {
            VerifierStateView::Start => 4,
            VerifierStateView::DigestComputed { .. } => 3,
            VerifierStateView::SignatureChecked => 2,
            VerifierStateView::AgeChecked => 1,
            VerifierStateView::Committed { .. } => 0,
            VerifierStateView::Failed { .. } => 0,
        }
    }

    /// What has been established of the claim when a run that began in
    /// `Start` stands in this state.
    pub open spec fn consistent(self, claim: SignedClaimView, policy: PolicyInput) -> bool {
        match self {
            VerifierStateView::Start => true,
            VerifierStateView::DigestComputed { digest } => digest == claim.digest(),
            VerifierStateView::SignatureChecked => claim.is_authentic(),
            VerifierStateView::AgeChecked => verification_outcome(claim, policy) is Ok,
            VerifierStateView::Committed { output } => verification_outcome(claim, policy) == Ok::<
                Seq<u8>,
                VerifyError,
            >(output),
            VerifierStateView::Failed { reason } => verification_outcome(claim, policy) == Err::<
                Seq<u8>,
                VerifyError,
            >(reason),
        }
    }
}

/// What the age check says of a claim's payload.
pub open spec fn age_check(claim: SignedClaimView, policy: PolicyInput) -> Result<(), VerifyError> {
    match birth_timestamp(claim.record.data) {
        None => Err(VerifyError::DecodeError),
        Some(birth) => match policy_outcome(policy, birth) {
            Err(reason) => Err(reason),
            Ok(_) => Ok(()),
        },
    }
}

/// The state that follows `state` in a run on `claim` under `policy`.
/// Terminal states follow themselves.
pub open spec fn next_state(
    state: VerifierStateView,
    claim: SignedClaimView,
    policy: PolicyInput,
) -> VerifierStateView {
    match state {
        VerifierStateView::Start => VerifierStateView::DigestComputed { digest: claim.digest() },
        VerifierStateView::DigestComputed { digest } => match signer_check(
            claim.signer,
            recovered_signer(digest, claim.r, claim.s, claim.v),
        ) {
            Ok(_) => VerifierStateView::SignatureChecked,
            Err(reason) => VerifierStateView::Failed { reason },
        },
        VerifierStateView::SignatureChecked => match age_check(claim, policy) {
            Ok(_) => VerifierStateView::AgeChecked,
            Err(reason) => VerifierStateView::Failed { reason },
        },
        VerifierStateView::AgeChecked => VerifierStateView::Committed {
            output: public_output_encoding(claim.output(policy)),
        },
        VerifierStateView::Committed { output } => state,
        VerifierStateView::Failed { reason } => state,
    }
}

/// The terminal state that a run in `state` ends in.
pub open spec fn final_state(
    state: VerifierStateView,
    claim: SignedClaimView,
    policy: PolicyInput,
) -> VerifierStateView
    decreases state.steps_left(),
{
    if state.is_terminal() {
        state
    } else {
        final_state(next_state(state, claim, policy), claim, policy)
    }
}

/// The result of verifying `claim` under `policy`: the output bytes, or the
/// first check that fails. The signature is checked before the payload is
/// read, and the payload is read before the policy is applied.
pub open spec fn verification_outcome(claim: SignedClaimView, policy: PolicyInput) -> Result<
    Seq<u8>,
    VerifyError,
> {
    match signer_check(claim.signer, claim.recovery()) {
        Err(reason) => Err(reason),
        Ok(_) => match age_check(claim, policy) {
            Err(reason) => Err(reason),
            Ok(_) => Ok(public_output_encoding(claim.output(policy))),
        },
    }
}

/// The terminal state that stands for a result.
pub open spec fn outcome_state(outcome: Result<Seq<u8>, VerifyError>) -> VerifierStateView {
    match outcome {
        Ok(output) => VerifierStateView::Committed { output },
        Err(reason) => VerifierStateView::Failed { reason },
    }
}

/// A step keeps a run consistent with its claim, and brings a run that has
/// not ended closer to its end.
pub proof fn lemma_step(state: VerifierStateView, claim: SignedClaimView, policy: PolicyInput)
    requires
        state.consistent(claim, policy),
    ensures
        next_state(state, claim, policy).consistent(claim, policy),
        !state.is_terminal() ==> next_state(state, claim, policy).steps_left()
            < state.steps_left(),
        state.is_terminal() ==> next_state(state, claim, policy) == state,
{
}

/// A consistent run ends in the state that stands for the claim's result.
pub proof fn lemma_final_state(
    state: VerifierStateView,
    claim: SignedClaimView,
    policy: PolicyInput,
)
    requires
        state.consistent(claim, policy),
    ensures
        final_state(state, claim, policy) == outcome_state(verification_outcome(claim, policy)),
    decreases state.steps_left(),
{
    if !state.is_terminal() {
        lemma_step(state, claim, policy);
        lemma_final_state(next_state(state, claim, policy), claim, policy);
    }
}

/// A run from `Start` ends in `Committed` with the output exactly where the
/// claim verifies, and in `Failed` with the reason where it does not.
pub proof fn lemma_run_from_start(claim: SignedClaimView, policy: PolicyInput)
    ensures
        final_state(VerifierStateView::Start, claim, policy) == outcome_state(
            verification_outcome(claim, policy),
        ),
{
    lemma_final_state(VerifierStateView::Start, claim, policy);
}

/// A claim whose signature is the claimed signer's passes the signature
/// check, and no other claim does.
pub proof fn lemma_authentic_claim_passes(claim: SignedClaimView, policy: PolicyInput)
    ensures
        signer_check(claim.signer, claim.recovery()) is Ok <==> claim.is_authentic(),
        claim.is_authentic() ==> next_state(
            VerifierStateView::DigestComputed { digest: claim.digest() },
            claim,
            policy,
        ) == VerifierStateView::SignatureChecked,
        !claim.is_authentic() ==> next_state(
            VerifierStateView::DigestComputed { digest: claim.digest() },
            claim,
            policy,
        ) == (VerifierStateView::Failed { reason: VerifyError::InvalidSignature }),
{
}

/// A claim verifies exactly where its signature is the claimed signer's,
/// its payload holds a date of birth, and the age at the reference
/// timestamp is at least the threshold.
pub proof fn lemma_outcome_ok(claim: SignedClaimView, policy: PolicyInput)
    ensures
        verification_outcome(claim, policy) is Ok <==> {
            &&& claim.is_authentic()
            &&& birth_timestamp(claim.record.data) matches Some(birth)
            &&& birth <= policy.current_timestamp
            &&& policy.current_timestamp - birth >= policy.threshold_age
        },
        !claim.is_authentic() ==> verification_outcome(claim, policy) == Err::<
            Seq<u8>,
            VerifyError,
        >(VerifyError::InvalidSignature),
{
}

/// Each failure comes on exactly the claims that pass every earlier check
/// and fail its own: the signature first, then the payload's width, then
/// the order of the two timestamps, then the threshold.
pub proof fn lemma_outcome_err(claim: SignedClaimView, policy: PolicyInput)
    ensures
        verification_outcome(claim, policy) == Err::<Seq<u8>, VerifyError>(
            VerifyError::InvalidSignature,
        ) <==> !claim.is_authentic(),
        verification_outcome(claim, policy) == Err::<Seq<u8>, VerifyError>(
            VerifyError::DecodeError,
        ) <==> claim.is_authentic() && claim.record.data.len() != 32,
        verification_outcome(claim, policy) == Err::<Seq<u8>, VerifyError>(
            VerifyError::InvalidTimestamps,
        ) <==> {
            &&& claim.is_authentic()
            &&& birth_timestamp(claim.record.data) matches Some(birth)
            &&& birth > policy.current_timestamp
        },
        verification_outcome(claim, policy) == Err::<Seq<u8>, VerifyError>(
            VerifyError::AgeBelowThreshold,
        ) <==> {
            &&& claim.is_authentic()
            &&& birth_timestamp(claim.record.data) matches Some(birth)
            &&& birth <= policy.current_timestamp
            &&& policy.current_timestamp - birth < policy.threshold_age
        },
{
}

/// Takes one step of a run.
pub fn advance(state: VerifierState, claim: &SignedClaim, policy: &PolicyInput) -> (next:
    VerifierState)
    ensures
        next@ == next_state(state@, claim@, *policy),
{
    match state {
        VerifierState::Start => VerifierState::DigestComputed {
            digest: hash_message(&claim.domain_separator, &claim.record),
        },
        VerifierState::DigestComputed { digest } => {
            let recovered = recover(&digest, &claim.signature);
            match check_signer(&claim.signer, &recovered) {
                Ok(_) => VerifierState::SignatureChecked,
                Err(reason) => VerifierState::Failed { reason },
            }
        },
        VerifierState::SignatureChecked => match decode_date_of_birth(&claim.record.data) {
            Err(reason) => VerifierState::Failed { reason },
            Ok(birth) => match evaluate_policy(policy, birth) {
                Err(reason) => VerifierState::Failed { reason },
                Ok(_) => VerifierState::AgeChecked,
            },
        },
        VerifierState::AgeChecked => VerifierState::Committed {
            output: encode(
                &claim.signer,
                policy.threshold_age,
                policy.current_timestamp,
                claim.record.time,
                &claim.record.recipient,
                &claim.domain_separator,
            ),
        },
        VerifierState::Committed { output } => VerifierState::Committed { output },
        VerifierState::Failed { reason } => VerifierState::Failed { reason },
    }
}

/// Verifies a signed claim under a policy: runs the state machine from
/// `Start` to its end and returns the output bytes of `Committed`, or the
/// reason of `Failed`.
pub fn verify_attestation(claim: &SignedClaim, policy: &PolicyInput) -> (result: Result<
    Vec<u8>,
    VerifyError,
>)
    ensures
        match result {
            Ok(output) => verification_outcome(claim@, *policy) == Ok::<Seq<u8>, VerifyError>(
                output@,
            ),
            Err(reason) => verification_outcome(claim@, *policy) == Err::<Seq<u8>, VerifyError>(
                reason,
            ),
        },
{
    let mut state = VerifierState::Start;
    loop
        invariant
            !state@.is_terminal(),
            state@.consistent(claim@, *policy),
        decreases state@.steps_left(),
    {
        proof {
            lemma_step(state@, claim@, *policy);
        }
        match advance(state, claim, policy) {
            VerifierState::Committed { output } => {
                return Ok(output);
            },
            VerifierState::Failed { reason } => {
                return Err(reason);
            },
            next => {
                state = next;
            },
        }
    }
}

} // verus!
