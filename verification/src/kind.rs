//! The resource kinds the host can be asked about.

use vstd::prelude::*;

verus! {

/// One of the resource kinds a query can name.
#[derive(Debug, Clone, Copy, PartialEq, Eq, Structural)]
pub enum ResourceKind {
    Namespace,
    Service,
    Ingress,
}

impl ResourceKind {
    /// The token that names the kind in a request to the host.
    pub open spec fn token(self) -> Seq<char> {
        match self {
            ResourceKind::Namespace => "namespaces"@,
            ResourceKind::Service => "services"@,
            ResourceKind::Ingress => "ingresses"@,
        }
    }

    /// The word for one resource of the kind, as error messages use it.
    pub open spec fn noun(self) -> Seq<char> {
        match self {
            ResourceKind::Namespace => "namespace"@,
            ResourceKind::Service => "service"@,
            ResourceKind::Ingress => "ingress"@,
        }
    }

    /// Whether resources of the kind live inside a namespace. Namespaces
    /// themselves do not.
    pub open spec fn namespaced(self) -> bool {
        self != ResourceKind::Namespace
    }

    /// The token that names the kind in a request to the host.
    pub fn plural(self) -> (token: &'static str)
        ensures
            token@ == self.token(),
    {
        match self {
            ResourceKind::Namespace => "namespaces",
            ResourceKind::Service => "services",
            ResourceKind::Ingress => "ingresses",
        }
    }

    /// The word for one resource of the kind.
    pub fn singular(self) -> (word: &'static str)
        ensures
            word@ == self.noun(),
    {
        match self {
            ResourceKind::Namespace => "namespace",
            ResourceKind::Service => "service",
            ResourceKind::Ingress => "ingress",
        }
    }

    /// Whether resources of the kind live inside a namespace.
    pub fn is_namespaced(self) -> (r: bool)
        ensures
            r == self.namespaced(),
    {
        match self {
            ResourceKind::Namespace => false,
            ResourceKind::Service => true,
            ResourceKind::Ingress => true,
        }
    }
}

} // verus!
