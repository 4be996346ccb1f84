//! The authenticated identity that a verified signature resolves to.

use vstd::prelude::*;

verus! {

/// What kind of caller an identity names.
#[derive(Clone, Copy, Debug, PartialEq, Eq, Structural)]
pub enum PrincipalKind {
    Service,
    User,
}

/// An authenticated caller: a service or a user inside a namespace.
#[derive(Debug, PartialEq, Eq)]
pub struct Principal {
    pub kind: PrincipalKind,
    pub namespace: String,
    pub name: String,
}

/// The mathematical value of a [`Principal`].
pub struct PrincipalView {
    pub kind: PrincipalKind,
    pub namespace: Seq<char>,
    pub name: Seq<char>,
}

impl View for Principal {
    type V = PrincipalView;

    open spec fn view(&self) -> PrincipalView {
        PrincipalView { kind: self.kind, namespace: self.namespace@, name: self.name@ }
    }
}

impl Clone for Principal {
    fn clone(&self) -> (copy: Self)
        ensures
            copy == *self,
    {
        Principal { kind: self.kind, namespace: self.namespace.clone(), name: self.name.clone() }
    }
}

impl Principal {
    /// A service identity.
    pub fn service(namespace: &str, name: &str) -> (principal: Principal)
        ensures
            principal@ == (PrincipalView {
                kind: PrincipalKind::Service,
                namespace: namespace@,
                name: name@,
            }),
    {
        Principal {
            kind: PrincipalKind::Service,
            namespace: namespace.to_owned(),
            name: name.to_owned(),
        }
    }

    /// A user identity.
    pub fn user(namespace: &str, name: &str) -> (principal: Principal)
        ensures
            principal@ == (PrincipalView {
                kind: PrincipalKind::User,
                namespace: namespace@,
                name: name@,
            }),
    {
        Principal {
            kind: PrincipalKind::User,
            namespace: namespace.to_owned(),
            name: name.to_owned(),
        }
    }
}

} // verus!
