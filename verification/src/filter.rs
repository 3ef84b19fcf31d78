//! The namespace filter that every namespaced query takes.

use vstd::prelude::*;

verus! {

/// Selects the namespaces whose records a query returns.
#[derive(Debug)]
pub enum NamespaceFilter {
    /// Every record passes, whatever its namespace, also one without any.
    AllNamespaces,
    /// Only records of exactly this namespace pass.
    Namespace(String),
}

/// The mathematical value of a [`NamespaceFilter`].
pub enum Scope {
    All,
    Only(Seq<char>),
}

impl Scope {
    /// Whether a record whose namespace field reads `namespace` is in scope.
    /// The comparison is exact: no case folding, no wildcard.
    pub open spec fn admits(self, namespace: Option<Seq<char>>) -> bool {
        match self {
            Scope::All => true,
            Scope::Only(wanted) => namespace == Some(wanted),
        }
    }
}

impl View for NamespaceFilter {
    type V = Scope;

    open spec fn view(&self) -> Scope {
        match self {
            NamespaceFilter::AllNamespaces => Scope::All,
            NamespaceFilter::Namespace(name) => Scope::Only(name@),
        }
    }
}

/// The text of an optional string, as contracts speak of it.
pub open spec fn text_of(field: Option<String>) -> Option<Seq<char>> {
    match field {
        Some(s) => Some(s@),
        None => None,
    }
}

impl NamespaceFilter {
    /// Decides whether a record with the given namespace field passes.
    pub fn admits(&self, namespace: &Option<String>) -> (r: bool)
        ensures
            r == self@.admits(text_of(*namespace)),
    {
        match self {
            NamespaceFilter::AllNamespaces => true,
            NamespaceFilter::Namespace(wanted) => match namespace {
                Some(actual) => *wanted == *actual,
                None => false,
            },
        }
    }
}

impl PartialEq for NamespaceFilter {
    fn eq(&self, other: &NamespaceFilter) -> (r: bool) {
        match (self, other) {
            (NamespaceFilter::AllNamespaces, NamespaceFilter::AllNamespaces) => true,
            (NamespaceFilter::Namespace(a), NamespaceFilter::Namespace(b)) => *a == *b,
            _ => false,
        }
    }
}

impl vstd::std_specs::cmp::PartialEqSpecImpl for NamespaceFilter {
    open spec fn obeys_eq_spec() -> bool {
        true
    }

    open spec fn eq_spec(&self, other: &NamespaceFilter) -> bool {
        self@ == other@
    }
}

} // verus!
