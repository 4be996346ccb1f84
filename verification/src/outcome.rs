//! What a verification attempt ends in.

use crate::principal::{Principal, PrincipalView};
use vstd::prelude::*;

verus! {

/// Why a request was not authenticated. It is meant for the operator's log and
/// never reaches the caller.
#[derive(Clone, Copy, Debug, PartialEq, Eq, Structural)]
pub enum Reason {
    TransportReadFailure,
    MalformedSignatureHeaders,
    SignatureMismatch,
    ClockSkewExceeded,
    UnknownSigningKey,
}

/// A request either verifies, which yields the caller's identity, or fails
/// for one reason.
#[derive(Debug, PartialEq, Eq)]
pub enum VerificationOutcome {
    Verified(Principal),
    Failed(Reason),
}

impl Clone for VerificationOutcome {
    fn clone(&self) -> (copy: Self)
        ensures
            copy == *self,
    {
        match self {
            VerificationOutcome::Verified(principal) => VerificationOutcome::Verified(
                principal.clone(),
            ),
            VerificationOutcome::Failed(reason) => VerificationOutcome::Failed(*reason),
        }
    }
}

/// The mathematical value of a [`VerificationOutcome`].
pub enum OutcomeView {
    Verified(PrincipalView),
    Failed(Reason),
}

impl View for VerificationOutcome {
    type V = OutcomeView;

    open spec fn view(&self) -> OutcomeView {
        match *self {
            VerificationOutcome::Verified(principal) => OutcomeView::Verified(principal@),
            VerificationOutcome::Failed(reason) => OutcomeView::Failed(reason),
        }
    }
}

} // verus!
