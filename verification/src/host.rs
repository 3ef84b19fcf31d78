//! The call gate of the host: the request that lists the resources of a kind,
//! and the answer that comes back.

use crate::kind::ResourceKind;
use vstd::prelude::*;

verus! {

/// The host's answer to a request: the bytes of its response, or the reason
/// it gave for failing the call.
pub type HostResponse = Result<Vec<u8>, String>;

/// The host's answer, as contracts speak of it.
pub open spec fn answer_view(response: HostResponse) -> Result<Seq<u8>, Seq<char>> {
    match response {
        Ok(bytes) => Ok(bytes@),
        Err(reason) => Err(reason@),
    }
}

/// A request to the host's call gate: the binding that serves it, the
/// resource kind it is about, the operation, and the payload.
#[derive(Debug)]
pub struct HostRequest {
    pub binding: &'static str,
    pub resource: &'static str,
    pub operation: &'static str,
    pub payload: Vec<u8>,
}

/// The binding that serves every request of this library.
pub open spec fn cluster_binding() -> Seq<char> {
    "kubernetes"@
}

/// The one operation this library asks for: the whole collection of a kind.
pub open spec fn list_operation() -> Seq<char> {
    "list"@
}

impl HostRequest {
    /// The request that lists every resource of `kind`. It carries no
    /// payload: the host is asked for the whole collection, and narrowing
    /// happens on the answer.
    pub fn list(kind: ResourceKind) -> (request: HostRequest)
        ensures
            request.binding@ == cluster_binding(),
            request.resource@ == kind.token(),
            request.operation@ == list_operation(),
            request.payload@ == Seq::<u8>::empty(),
    {
        HostRequest {
            binding: "kubernetes",
            resource: kind.plural(),
            operation: "list",
            payload: Vec::new(),
        }
    }
}

} // verus!
