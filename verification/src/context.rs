//! The queries: for each resource kind a listing and a lookup by name, each
//! worked out from one answer of the host.

use crate::decode::{
    decode_ingresses, decode_namespaces, decode_services, ingresses_in_json, namespaces_in_json,
    services_in_json, utf8_text, IngressObject, NamespaceObject, ServiceObject,
};
use crate::error::{AccessError, AccessErrorView, DecodeFailure, DecodeFailureView};
use crate::filter::{NamespaceFilter, Scope};
use crate::host::{answer_view, HostResponse};
use crate::kind::ResourceKind;
use crate::resource::{
    filter_by_namespace, find_by_name, first_named, found_identity, identities, in_scope,
    lemma_found_is_first_match, lemma_identities_first_named, lemma_identities_in_scope,
    lemma_in_scope_idempotent, lemma_listed_are_admitted, lemma_not_found_iff_no_match, Identity,
    Resource,
};
use vstd::prelude::*;
use vstd::utf8::{decode_utf8, valid_utf8};

verus! {

/// Gives a policy the cluster's namespaces, services and ingresses.
///
/// Every query works on the host's answer to the request
/// [`HostRequest::list`](crate::host::HostRequest::list) of its kind, which the caller
/// has performed. Nothing is kept between queries.
pub struct ClusterContext {}

/// What the decoder makes of a text that should hold a list of `kind`.
pub open spec fn decoded_list(kind: ResourceKind, text: Seq<char>) -> Result<
    Seq<Identity>,
    Seq<char>,
> {
    match kind {
        ResourceKind::Namespace => namespaces_in_json(text),
        ResourceKind::Service => services_in_json(text),
        ResourceKind::Ingress => ingresses_in_json(text),
    }
}

/// The records of a decoded collection that a listing of `kind` returns:
/// those in scope for a namespaced kind, all of them for the others.
pub open spec fn selected<R: View<V = Identity>>(
    kind: ResourceKind,
    items: Seq<R>,
    scope: Scope,
) -> Seq<R> {
    if kind.namespaced() {
        in_scope(items, scope)
    } else {
        items
    }
}

/// What a listing of `kind` under `scope` makes of the host's answer: the
/// identities of the records it returns, in order, or the error it fails
/// with.
pub open spec fn listing(
    kind: ResourceKind,
    response: Result<Seq<u8>, Seq<char>>,
    scope: Scope,
) -> Result<Seq<Identity>, AccessErrorView> {
    match response {
        Err(reason) => Err(AccessErrorView::Bridge { kind, reason }),
        Ok(bytes) => if !valid_utf8(bytes) {
            Err(AccessErrorView::Decode { kind, failure: DecodeFailureView::InvalidUtf8 })
        } else {
            match decoded_list(kind, decode_utf8(bytes)) {
                Err(message) => Err(
                    AccessErrorView::Decode {
                        kind,
                        failure: DecodeFailureView::Malformed(message),
                    },
                ),
                Ok(items) => Ok(selected(kind, items, scope)),
            }
        },
    }
}

/// What a lookup of `name` makes of the host's answer: the identity of the
/// first record of the listing that carries the name, or nothing, or the
/// error the listing fails with.
pub open spec fn lookup(
    kind: ResourceKind,
    response: Result<Seq<u8>, Seq<char>>,
    scope: Scope,
    name: Seq<char>,
) -> Result<Option<Identity>, AccessErrorView> {
    match listing(kind, response, scope) {
        Ok(items) => Ok(first_named(items, name)),
        Err(error) => Err(error),
    }
}

/// The outcome of a listing, as contracts speak of it.
pub open spec fn listed_view<T>(outcome: Result<Vec<Resource<T>>, AccessError>) -> Result<
    Seq<Identity>,
    AccessErrorView,
> {
    match outcome {
        Ok(items) => Ok(identities(items@)),
        Err(error) => Err(error@),
    }
}

/// The outcome of a lookup, as contracts speak of it.
pub open spec fn found_view<T>(outcome: Result<Option<Resource<T>>, AccessError>) -> Result<
    Option<Identity>,
    AccessErrorView,
> {
    match outcome {
        Ok(found) => Ok(found_identity(found)),
        Err(error) => Err(error@),
    }
}

/// Every record of a listing satisfies the filter the listing was made
/// under. This holds of the namespaced kinds under every filter, and of
/// namespaces under the filter that admits everything: a namespace has no
/// namespace of its own to compare.
pub proof fn lemma_listing_is_admitted(
    kind: ResourceKind,
    response: Result<Seq<u8>, Seq<char>>,
    scope: Scope,
)
    requires
        kind.namespaced() || scope == Scope::All,
    ensures
        listing(kind, response, scope) matches Ok(items) ==> forall|i: int|
            0 <= i < items.len() ==> scope.admits((#[trigger] items[i]).namespace),
{
    if let Ok(items) = listing(kind, response, scope) {
        let decoded = decoded_list(kind, decode_utf8(response->Ok_0))->Ok_0;
        lemma_listed_are_admitted(decoded, scope);
    }
}

/// What a listing returns is left as it is when it is narrowed again by the
/// filter it was made under, whatever the kind.
pub proof fn lemma_selection_is_idempotent<R: View<V = Identity>>(
    kind: ResourceKind,
    items: Seq<R>,
    scope: Scope,
)
    ensures
        selected(kind, selected(kind, items, scope), scope) == selected(kind, items, scope),
{
    lemma_in_scope_idempotent(items, scope);
}

/// A listing succeeds exactly when the call succeeded, its answer is UTF-8
/// and the decoder accepts the text. An answer that is not UTF-8, or whose
/// text the decoder rejects, fails the listing and the lookup with a decode
/// error of the kind asked for: such an answer never yields records, not
/// even an empty collection.
pub proof fn lemma_undecodable_answer_is_an_error(
    kind: ResourceKind,
    response: Result<Seq<u8>, Seq<char>>,
    scope: Scope,
    name: Seq<char>,
)
    ensures
        listing(kind, response, scope) is Ok <==> (response matches Ok(body) && valid_utf8(body)
            && decoded_list(kind, decode_utf8(body)) is Ok),
        lookup(kind, response, scope, name) is Ok <==> listing(kind, response, scope) is Ok,
        response matches Ok(body) && !(valid_utf8(body) && decoded_list(
            kind,
            decode_utf8(body),
        ) is Ok) ==> (listing(kind, response, scope) matches Err(error) && error is Decode
            && error.kind() == kind && lookup(kind, response, scope, name) == Err::<
            Option<Identity>,
            AccessErrorView,
        >(error)),
{
}

/// A lookup answers with the first record of the listing that carries the
/// name, at the position returned: the listing holds the record there, and
/// no earlier record of the listing carries the name.
pub proof fn lemma_lookup_finds_first_listed(
    kind: ResourceKind,
    response: Result<Seq<u8>, Seq<char>>,
    scope: Scope,
    name: Seq<char>,
) -> (i: int)
    requires
        lookup(kind, response, scope, name) matches Ok(Some(_)),
    ensures
        listing(kind, response, scope) matches Ok(items) && 0 <= i < items.len() && lookup(
            kind,
            response,
            scope,
            name,
        ) == Ok::<Option<Identity>, AccessErrorView>(Some(items[i])) && items[i].named(name)
            && forall|j: int| 0 <= j < i ==> !(#[trigger] items[j]).named(name),
{
    lemma_found_is_first_match(listing(kind, response, scope)->Ok_0, name)
}

/// A lookup answers with nothing if and only if the listing succeeds and
/// none of its records carries the name.
pub proof fn lemma_lookup_finds_nothing(
    kind: ResourceKind,
    response: Result<Seq<u8>, Seq<char>>,
    scope: Scope,
    name: Seq<char>,
)
    ensures
        lookup(kind, response, scope, name) == Ok::<Option<Identity>, AccessErrorView>(None)
            <==> (listing(kind, response, scope) matches Ok(items) && forall|i: int|
            0 <= i < items.len() ==> !(#[trigger] items[i]).named(name)),
{
    if let Ok(items) = listing(kind, response, scope) {
        lemma_not_found_iff_no_match(items, name);
    }
}

impl ClusterContext {
    /// Reads the host's answer to a request about `kind` as text. A failed
    /// call is a bridge error with the host's reason; an answer that is not
    /// UTF-8 is a decode error.
    pub fn answer_text<'a>(kind: ResourceKind, response: &'a HostResponse) -> (text:
        Result<&'a str, AccessError>)
        ensures
            match *response {
                Err(reason) => text matches Err(error) && error@ == (AccessErrorView::Bridge {
                    kind,
                    reason: reason@,
                }),
                Ok(bytes) => if valid_utf8(bytes@) {
                    text matches Ok(t) && t@ == decode_utf8(bytes@)
                } else {
                    text matches Err(error) && error@ == (AccessErrorView::Decode {
                        kind,
                        failure: DecodeFailureView::InvalidUtf8,
                    })
                },
            },
    {
        match response {
            Err(reason) => Err(AccessError::Bridge { kind, reason: reason.clone() }),
            Ok(bytes) => match utf8_text(bytes.as_slice()) {
                Some(text) => Ok(text),
                None => Err(AccessError::Decode { kind, failure: DecodeFailure::InvalidUtf8 }),
            },
        }
    }

    /// Finishes a listing of `kind` once the decoder has spoken: a decoded
    /// collection is narrowed by `filter` if the kind is namespaced and
    /// returned whole if it is not; the decoder's failure becomes a decode
    /// error that keeps its message.
    pub fn listed<T>(
        kind: ResourceKind,
        decoded: Result<Vec<Resource<T>>, String>,
        filter: &NamespaceFilter,
    ) -> (outcome: Result<Vec<Resource<T>>, AccessError>)
        ensures
            match decoded {
                Ok(items) => outcome matches Ok(kept) && kept@ == selected(
                    kind,
                    items@,
                    filter@,
                ),
                Err(message) => outcome matches Err(error) && error == (AccessError::Decode {
                    kind,
                    failure: DecodeFailure::Malformed(message),
                }),
            },
    {
        match decoded {
            Ok(items) => if kind.is_namespaced() {
                Ok(filter_by_namespace(items, filter))
            } else {
                Ok(items)
            },
            Err(message) => Err(
                AccessError::Decode { kind, failure: DecodeFailure::Malformed(message) },
            ),
        }
    }

    /// Finishes a lookup once the listing is there: the first listed record
    /// that carries the name, or nothing; a failed listing fails the lookup
    /// with the same error.
    pub fn looked_up<T>(listed: Result<Vec<Resource<T>>, AccessError>, name: &str) -> (outcome:
        Result<Option<Resource<T>>, AccessError>)
        ensures
            match listed {
                Ok(items) => outcome matches Ok(found) && found == first_named(items@, name@),
                Err(error) => outcome matches Err(e) && e == error,
            },
    {
        match listed {
            Ok(items) => Ok(find_by_name(items, name)),
            Err(error) => Err(error),
        }
    }

    /// Lists the ingresses that `namespace` admits, in the host's order.
    pub fn ingresses(response: HostResponse, namespace: NamespaceFilter) -> (outcome:
        Result<Vec<Resource<IngressObject>>, AccessError>)
        ensures
            listed_view(outcome) == listing(
                ResourceKind::Ingress,
                answer_view(response),
                namespace@,
            ),
            outcome matches Ok(items) ==> forall|i: int|
                0 <= i < items.len() ==> namespace@.admits((#[trigger] items[i])@.namespace),
    {
        let text = match Self::answer_text(ResourceKind::Ingress, &response) {
            Ok(text) => text,
            Err(error) => { return Err(error); },
        };
        let decoded = decode_ingresses(text);
        proof {
            if decoded is Ok {
                lemma_identities_in_scope(decoded->Ok_0@, namespace@);
                lemma_listed_are_admitted(decoded->Ok_0@, namespace@);
            }
        }
        Self::listed(ResourceKind::Ingress, decoded, &namespace)
    }

    /// Lists the cluster's namespaces, in the host's order. Namespaces live
    /// outside any namespace, so there is no filter to apply.
    pub fn namespaces(response: HostResponse) -> (outcome: Result<
        Vec<Resource<NamespaceObject>>,
        AccessError,
    >)
        ensures
            listed_view(outcome) == listing(
                ResourceKind::Namespace,
                answer_view(response),
                Scope::All,
            ),
    {
        let text = match Self::answer_text(ResourceKind::Namespace, &response) {
            Ok(text) => text,
            Err(error) => { return Err(error); },
        };
        let decoded = decode_namespaces(text);
        Self::listed(ResourceKind::Namespace, decoded, &NamespaceFilter::AllNamespaces)
    }

    /// Lists the services that `namespace` admits, in the host's order.
    pub fn services(response: HostResponse, namespace: NamespaceFilter) -> (outcome:
        Result<Vec<Resource<ServiceObject>>, AccessError>)
        ensures
            listed_view(outcome) == listing(
                ResourceKind::Service,
                answer_view(response),
                namespace@,
            ),
            outcome matches Ok(items) ==> forall|i: int|
                0 <= i < items.len() ==> namespace@.admits((#[trigger] items[i])@.namespace),
    {
        let text = match Self::answer_text(ResourceKind::Service, &response) {
            Ok(text) => text,
            Err(error) => { return Err(error); },
        };
        let decoded = decode_services(text);
        proof {
            if decoded is Ok {
                lemma_identities_in_scope(decoded->Ok_0@, namespace@);
                lemma_listed_are_admitted(decoded->Ok_0@, namespace@);
            }
        }
        Self::listed(ResourceKind::Service, decoded, &namespace)
    }

    /// Returns the first ingress of the listing under `namespace` whose name
    /// is `name`, or nothing if the listing holds none.
    pub fn ingress(response: HostResponse, namespace: NamespaceFilter, name: &str) -> (outcome:
        Result<Option<Resource<IngressObject>>, AccessError>)
        ensures
            found_view(outcome) == lookup(
                ResourceKind::Ingress,
                answer_view(response),
                namespace@,
                name@,
            ),
            outcome matches Ok(Some(record)) ==> record@.named(name@) && namespace@.admits(
                record@.namespace,
            ),
    {
        let listed = Self::ingresses(response, namespace);
        proof {
            if listed is Ok {
                let items = listed->Ok_0@;
                lemma_identities_first_named(items, name@);
                if first_named(items, name@) is Some {
                    let i = lemma_found_is_first_match(items, name@);
                }
            }
        }
        Self::looked_up(listed, name)
    }

    /// Returns the first namespace of the listing whose name is `name`, or
    /// nothing if the listing holds none.
    pub fn namespace(response: HostResponse, name: &str) -> (outcome: Result<
        Option<Resource<NamespaceObject>>,
        AccessError,
    >)
        ensures
            found_view(outcome) == lookup(
                ResourceKind::Namespace,
                answer_view(response),
                Scope::All,
                name@,
            ),
            outcome matches Ok(Some(record)) ==> record@.named(name@),
    {
        let listed = Self::namespaces(response);
        proof {
            if listed is Ok {
                let items = listed->Ok_0@;
                lemma_identities_first_named(items, name@);
                if first_named(items, name@) is Some {
                    let i = lemma_found_is_first_match(items, name@);
                }
            }
        }
        Self::looked_up(listed, name)
    }

    /// Returns the first service of the listing under `namespace` whose name
    /// is `name`, or nothing if the listing holds none.
    pub fn service(response: HostResponse, namespace: NamespaceFilter, name: &str) -> (outcome:
        Result<Option<Resource<ServiceObject>>, AccessError>)
        ensures
            found_view(outcome) == lookup(
                ResourceKind::Service,
                answer_view(response),
                namespace@,
                name@,
            ),
            outcome matches Ok(Some(record)) ==> record@.named(name@) && namespace@.admits(
                record@.namespace,
            ),
    {
        let listed = Self::services(response, namespace);
        proof {
            if listed is Ok {
                let items = listed->Ok_0@;
                lemma_identities_first_named(items, name@);
                if first_named(items, name@) is Some {
                    let i = lemma_found_is_first_match(items, name@);
                }
            }
        }
        Self::looked_up(listed, name)
    }
}

} // verus!
