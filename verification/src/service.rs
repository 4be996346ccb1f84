//! The interceptor's settings, fixed when it is built.

use crate::interception::{Interception, InterceptionView};
use crate::request::RequestHead;
use vstd::prelude::*;

verus! {

/// Which key of the SigV4 derivation chain the key lookup hands out.
#[derive(Clone, Copy, Debug, PartialEq, Eq, Structural)]
pub enum SigningKeyKind {
    KSecret,
    KDate,
    KRegion,
    KService,
    KSigning,
}

/// The clock skew that is allowed unless another is set, in minutes.
pub const DEFAULT_ALLOWED_MISMATCH_MINUTES: i64 = 5;

/// Authenticates requests against the AWS SigV4 signing protocol in front of
/// the handler `implementation`.
pub struct AwsSigV4VerifierService<S> {
    pub signing_key_kind: SigningKeyKind,
    /// The allowed clock skew in seconds; `None` switches the check off.
    pub allowed_mismatch: Option<i64>,
    pub region: String,
    pub service: String,
    pub implementation: S,
}

impl<S: Clone> Clone for AwsSigV4VerifierService<S> {
    /// A copy for another request: the same settings, and a clone of the
    /// handler.
    fn clone(&self) -> (copy: Self)
        ensures
            copy.signing_key_kind == self.signing_key_kind,
            copy.allowed_mismatch == self.allowed_mismatch,
            copy.region == self.region,
            copy.service == self.service,
            cloned(self.implementation, copy.implementation),
    {
        AwsSigV4VerifierService {
            signing_key_kind: self.signing_key_kind,
            allowed_mismatch: self.allowed_mismatch,
            region: self.region.clone(),
            service: self.service.clone(),
            implementation: self.implementation.clone(),
        }
    }
}

/// What the verifier is handed for one request: the interceptor's settings,
/// the request's head, and the whole body.
#[derive(Debug)]
pub struct VerifierInput<'a> {
    pub region: &'a str,
    pub service: &'a str,
    pub signing_key_kind: SigningKeyKind,
    pub allowed_mismatch: Option<i64>,
    pub head: &'a RequestHead,
    pub body: &'a [u8],
}

/// `chrono::Duration::minutes`, read back with `num_seconds`: sixty seconds
/// for each minute. The bounds keep the duration inside chrono's range, where
/// `minutes` does not panic.
#[verifier::external_body]
fn minutes_as_seconds(minutes: i64) -> (seconds: i64)
    requires
        -153_722_867_280_912 <= minutes <= 153_722_867_280_912,
    ensures
        seconds == minutes * 60,
{
    chrono::Duration::minutes(minutes).num_seconds()
}

/// Whether a request stamped `request_time` may be accepted at
/// `verifier_time`, both in seconds: the two differ by no more than the
/// allowed skew. Without a limit every timestamp passes.
pub open spec fn skew_permitted(
    allowed_mismatch: Option<i64>,
    request_time: int,
    verifier_time: int,
) -> bool {
    match allowed_mismatch {
        None => true,
        Some(allowed) => -allowed <= verifier_time - request_time <= allowed,
    }
}

impl<S> AwsSigV4VerifierService<S> {
    /// An interceptor for the given region and service, with the derived
    /// signing key and five minutes of allowed clock skew.
    pub fn new(region: &str, service: &str, implementation: S) -> (built: Self)
        ensures
            built.signing_key_kind == SigningKeyKind::KSigning,
            built.allowed_mismatch == Some(300i64),
            built.region@ == region@,
            built.service@ == service@,
            built.implementation == implementation,
    {
        AwsSigV4VerifierService {
            signing_key_kind: SigningKeyKind::KSigning,
            allowed_mismatch: Some(minutes_as_seconds(DEFAULT_ALLOWED_MISMATCH_MINUTES)),
            region: region.to_owned(),
            service: service.to_owned(),
            implementation,
        }
    }

    /// Decides the clock-skew check for one request.
    pub fn within_allowed_mismatch(&self, request_time: i64, verifier_time: i64) -> (permitted:
        bool)
        ensures
            permitted == skew_permitted(
                self.allowed_mismatch,
                request_time as int,
                verifier_time as int,
            ),
    {
        match self.allowed_mismatch {
            None => true,
            Some(allowed) => {
                let difference: i128 = verifier_time as i128 - request_time as i128;
                -(allowed as i128) <= difference && difference <= allowed as i128
            },
        }
    }

    /// What to ask the verifier about, once the body is whole: the settings as
    /// they were built, the head as it came, and every byte of the body.
    /// There is nothing to ask in any other state.
    pub fn verifier_input<'a>(&'a self, state: &'a Interception) -> (input: Option<
        VerifierInput<'a>,
    >)
        ensures
            match input {
                Some(input) => {
                    &&& state@ == (InterceptionView::Verifying {
                        head: input.head@,
                        body: input.body@,
                    })
                    &&& input.region@ == self.region@
                    &&& input.service@ == self.service@
                    &&& input.signing_key_kind == self.signing_key_kind
                    &&& input.allowed_mismatch == self.allowed_mismatch
                },
                None => !(state@ is Verifying),
            },
    {
        match state {
            Interception::Verifying { head, body } => Some(
                VerifierInput {
                    region: self.region.as_str(),
                    service: self.service.as_str(),
                    signing_key_kind: self.signing_key_kind,
                    allowed_mismatch: self.allowed_mismatch,
                    head,
                    body: body.as_slice(),
                },
            ),
            _ => None,
        }
    }

    /// Takes a request in: the interception starts with an empty buffer and
    /// waits for the body.
    pub fn intercept(&self, head: RequestHead) -> (started: Interception)
        ensures
            started@ == crate::interception::initial(head@),
    {
        Interception::Draining { head, buffered: Vec::new() }
    }
}

/// A timestamp exactly at the edge of the allowed skew passes, on either
/// side; one second beyond the edge does not.
pub proof fn lemma_skew_boundary(allowed: i64, request_time: int)
    requires
        allowed >= 0,
    ensures
        skew_permitted(Some(allowed), request_time, request_time + allowed),
        skew_permitted(Some(allowed), request_time, request_time - allowed),
        !skew_permitted(Some(allowed), request_time, request_time + allowed + 1),
        !skew_permitted(Some(allowed), request_time, request_time - allowed - 1),
{
}

} // verus!
