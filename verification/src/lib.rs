//! Read access to a cluster's namespaces, services and ingresses for a policy
//! that runs in a sandbox.
//!
//! The sandbox reaches the cluster only through one call gate of its host. This
//! library says which request to hand to that gate for each resource kind
//! ([`HostRequest::list`]) and what the host's answer means: the
//! answer is decoded into [`Resource`] records, narrowed by a
//! [`NamespaceFilter`] and, for the single-item queries, searched by name.
//! Performing the call itself is left to the caller.

pub mod context;
pub mod decode;
pub mod error;
pub mod filter;
pub mod host;
pub mod kind;
pub mod resource;

pub use context::ClusterContext;
pub use decode::{IngressObject, NamespaceObject, ServiceObject};
pub use error::{AccessError, DecodeFailure};
pub use filter::{NamespaceFilter, Scope};
pub use host::{HostRequest, HostResponse};
pub use kind::ResourceKind;
pub use resource::{Identity, Resource};
