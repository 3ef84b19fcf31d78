//! Decoding the host's answer. The bytes are read as UTF-8 by the standard
//! library and the text as a JSON list by `serde_json` with the object types
//! of `k8s_openapi`. None of that code is verified here: this module states
//! what the rest of the library relies on.

use crate::resource::{identities, Identity, Resource};
use vstd::prelude::*;
use vstd::utf8::{decode_utf8, valid_utf8};

verus! {

/// A cluster namespace, as `k8s_openapi` describes it.
pub type NamespaceObject = k8s_openapi::api::core::v1::Namespace;

/// A service, as `k8s_openapi` describes it.
pub type ServiceObject = k8s_openapi::api::core::v1::Service;

/// An ingress route, as `k8s_openapi` describes it.
pub type IngressObject = k8s_openapi::api::networking::v1::Ingress;

/// `k8s_openapi`'s `Namespace`. The verifier sees nothing inside a value of
/// it: such a value is only carried from the decoder to the caller.
#[verifier::external_type_specification]
#[verifier::external_body]
pub struct ExNamespace(k8s_openapi::api::core::v1::Namespace);

/// `k8s_openapi`'s `Service`. The verifier sees nothing inside a value of
/// it: such a value is only carried from the decoder to the caller.
#[verifier::external_type_specification]
#[verifier::external_body]
pub struct ExService(k8s_openapi::api::core::v1::Service);

/// `k8s_openapi`'s `Ingress`. The verifier sees nothing inside a value of
/// it: such a value is only carried from the decoder to the caller.
#[verifier::external_type_specification]
#[verifier::external_body]
pub struct ExIngress(k8s_openapi::api::networking::v1::Ingress);

/// What `serde_json::from_str` makes of `text` when it is asked for a
/// `k8s_openapi::List` of `Namespace` objects: the identities of the list's
/// items in their order, or the decoder's message.
pub uninterp spec fn namespaces_in_json(text: Seq<char>) -> Result<Seq<Identity>, Seq<char>>;

/// What `serde_json::from_str` makes of `text` when it is asked for a
/// `k8s_openapi::List` of `Service` objects: the identities of the list's
/// items in their order, or the decoder's message.
pub uninterp spec fn services_in_json(text: Seq<char>) -> Result<Seq<Identity>, Seq<char>>;

/// What `serde_json::from_str` makes of `text` when it is asked for a
/// `k8s_openapi::List` of `Ingress` objects: the identities of the list's
/// items in their order, or the decoder's message.
pub uninterp spec fn ingresses_in_json(text: Seq<char>) -> Result<Seq<Identity>, Seq<char>>;

/// Whether what a decoder handed back is what `decoding` says of the text:
/// the same identities in the same order, or the same message.
pub open spec fn agrees<T>(
    outcome: Result<Vec<Resource<T>>, String>,
    decoding: Result<Seq<Identity>, Seq<char>>,
) -> bool {
    match outcome {
        Ok(items) => decoding == Ok::<Seq<Identity>, Seq<char>>(identities(items@)),
        Err(message) => decoding == Err::<Seq<Identity>, Seq<char>>(message@),
    }
}

/// Calls `std::str::from_utf8`. Trusted: the bytes are accepted exactly when
/// they are well-formed UTF-8, and the text is then the one they encode.
#[verifier::external_body]
pub(crate) fn utf8_text(bytes: &[u8]) -> (text: Option<&str>)
    ensures
        text is Some <==> valid_utf8(bytes@),
        text matches Some(t) ==> t@ == decode_utf8(bytes@),
{
    match std::str::from_utf8(bytes) {
        Ok(text) => Some(text),
        Err(_) => None,
    }
}

/// Calls `serde_json::from_str` for a `k8s_openapi::List` of `Namespace`
/// objects. Trusted: the outcome depends on the text alone. Each decoded
/// object comes with a copy of its `metadata.name` and `metadata.namespace`;
/// a failure comes as the decoder's message.
#[verifier::external_body]
pub(crate) fn decode_namespaces(text: &str) -> (outcome: Result<
    Vec<Resource<NamespaceObject>>,
    String,
>)
    ensures
        agrees(outcome, namespaces_in_json(text@)),
{
    match serde_json::from_str::<k8s_openapi::List<NamespaceObject>>(text) {
        Ok(list) => Ok(
            list.items.into_iter().map(
                |object| Resource {
                    name: object.metadata.name.clone(),
                    namespace: object.metadata.namespace.clone(),
                    object,
                },
            ).collect(),
        ),
        Err(error) => Err(error.to_string()),
    }
}

/// Calls `serde_json::from_str` for a `k8s_openapi::List` of `Service`
/// objects. Trusted: the outcome depends on the text alone. Each decoded
/// object comes with a copy of its `metadata.name` and `metadata.namespace`;
/// a failure comes as the decoder's message.
#[verifier::external_body]
pub(crate) fn decode_services(text: &str) -> (outcome: Result<
    Vec<Resource<ServiceObject>>,
    String,
>)
    ensures
        agrees(outcome, services_in_json(text@)),
{
    match serde_json::from_str::<k8s_openapi::List<ServiceObject>>(text) {
        Ok(list) => Ok(
            list.items.into_iter().map(
                |object| Resource {
                    name: object.metadata.name.clone(),
                    namespace: object.metadata.namespace.clone(),
                    object,
                },
            ).collect(),
        ),
        Err(error) => Err(error.to_string()),
    }
}

/// Calls `serde_json::from_str` for a `k8s_openapi::List` of `Ingress`
/// objects. Trusted: the outcome depends on the text alone. Each decoded
/// object comes with a copy of its `metadata.name` and `metadata.namespace`;
/// a failure comes as the decoder's message.
#[verifier::external_body]
pub(crate) fn decode_ingresses(text: &str) -> (outcome: Result<
    Vec<Resource<IngressObject>>,
    String,
>)
    ensures
        agrees(outcome, ingresses_in_json(text@)),
{
    match serde_json::from_str::<k8s_openapi::List<IngressObject>>(text) {
        Ok(list) => Ok(
            list.items.into_iter().map(
                |object| Resource {
                    name: object.metadata.name.clone(),
                    namespace: object.metadata.namespace.clone(),
                    object,
                },
            ).collect(),
        ),
        Err(error) => Err(error.to_string()),
    }
}

} // verus!
