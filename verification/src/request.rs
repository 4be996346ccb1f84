//! Requests as the interceptor sees them: a head of plain values, the
//! out-of-band metadata map, and a body that is buffered, not streamed.

use crate::principal::{Principal, PrincipalView};
use vstd::prelude::*;

verus! {

#[verifier::external_type_specification]
#[verifier::external_body]
pub struct ExExtensions(http::Extensions);

/// What the metadata map holds in the slot that belongs to [`Principal`]: the
/// identity attached to the request, if any. The map is keyed by type, so no
/// other value can occupy this slot.
pub uninterp spec fn principal_slot(extensions: http::Extensions) -> Option<PrincipalView>;

/// `http::Extensions::new`: a fresh map has no entry, so the identity slot is
/// empty.
#[verifier::external_body]
fn extensions_new() -> (extensions: http::Extensions)
    ensures
        principal_slot(extensions) is None,
{
    http::Extensions::new()
}

/// `http::Extensions::insert` with a [`Principal`]: afterwards the identity
/// slot holds the given value, and the value that it held before is returned.
#[verifier::external_body]
fn extensions_insert(extensions: &mut http::Extensions, principal: Principal) -> (previous: Option<
    Principal,
>)
    ensures
        principal_slot(*final(extensions)) == Some(principal@),
        match previous {
            Some(earlier) => principal_slot(*old(extensions)) == Some(earlier@),
            None => principal_slot(*old(extensions)) is None,
        },
{
    extensions.insert(principal)
}

/// `http::Extensions::get` for [`Principal`]: a reference to the value in the
/// identity slot, or `None` when the slot is empty.
#[verifier::external_body]
fn extensions_get(extensions: &http::Extensions) -> (found: Option<&Principal>)
    ensures
        match found {
            Some(principal) => principal_slot(*extensions) == Some(principal@),
            None => principal_slot(*extensions) is None,
        },
{
    extensions.get::<Principal>()
}

/// One header line.
#[derive(Debug, PartialEq, Eq)]
pub struct Header {
    pub name: String,
    pub value: Vec<u8>,
}

impl View for Header {
    type V = (Seq<char>, Seq<u8>);

    open spec fn view(&self) -> (Seq<char>, Seq<u8>) {
        (self.name@, self.value@)
    }
}

/// The views of a list of headers, in order.
pub open spec fn header_views(headers: Seq<Header>) -> Seq<(Seq<char>, Seq<u8>)> {
    headers.map_values(|header: Header| header@)
}

/// Everything of a request but its body.
#[derive(Debug)]
pub struct RequestHead {
    pub method: String,
    pub uri: String,
    pub headers: Vec<Header>,
    pub extensions: http::Extensions,
}

/// The mathematical value of a [`RequestHead`]. Of the metadata map it shows
/// the identity slot, the one entry that the interceptor writes.
pub struct RequestHeadView {
    pub method: Seq<char>,
    pub uri: Seq<char>,
    pub headers: Seq<(Seq<char>, Seq<u8>)>,
    pub principal: Option<PrincipalView>,
}

impl View for RequestHead {
    type V = RequestHeadView;

    open spec fn view(&self) -> RequestHeadView {
        RequestHeadView {
            method: self.method@,
            uri: self.uri@,
            headers: header_views(self.headers@),
            principal: principal_slot(self.extensions),
        }
    }
}

impl RequestHeadView {
    /// The same head with the given identity in its slot.
    pub open spec fn with_principal(self, principal: PrincipalView) -> RequestHeadView {
        RequestHeadView { principal: Some(principal), ..self }
    }
}

impl RequestHead {
    /// A head with empty metadata: no identity is attached to it.
    pub fn new(method: String, uri: String, headers: Vec<Header>) -> (head: RequestHead)
        ensures
            head@ == (RequestHeadView {
                method: method@,
                uri: uri@,
                headers: header_views(headers@),
                principal: None,
            }),
    {
        RequestHead { method, uri, headers, extensions: extensions_new() }
    }

    /// Attaches the authenticated identity to the metadata. Nothing else of
    /// the head changes, and an identity attached earlier is replaced.
    pub fn attach_principal(&mut self, principal: Principal)
        ensures
            final(self)@ == old(self)@.with_principal(principal@),
    {
        let _ = extensions_insert(&mut self.extensions, principal);
    }

    /// The identity attached to the request, for code downstream of the
    /// interceptor.
    pub fn principal(&self) -> (found: Option<&Principal>)
        ensures
            match found {
                Some(principal) => self@.principal == Some(principal@),
                None => self@.principal is None,
            },
    {
        extensions_get(&self.extensions)
    }
}

/// A request whose body is an owned buffer.
#[derive(Debug)]
pub struct Request {
    pub head: RequestHead,
    pub body: Vec<u8>,
}

/// The mathematical value of a [`Request`].
pub struct RequestView {
    pub head: RequestHeadView,
    pub body: Seq<u8>,
}

impl View for Request {
    type V = RequestView;

    open spec fn view(&self) -> RequestView {
        RequestView { head: self.head@, body: self.body@ }
    }
}

/// Attaching the same identity again changes nothing.
pub proof fn lemma_attach_is_idempotent(head: RequestHeadView, principal: PrincipalView)
    ensures
        head.with_principal(principal).with_principal(principal) == head.with_principal(
            principal,
        ),
{
}

} // verus!
