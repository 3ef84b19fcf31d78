//! Resource records, and the two operations every query is made of: keeping
//! the records of a namespace, and finding the first record of a name.

use crate::filter::{text_of, NamespaceFilter, Scope};
use vstd::prelude::*;

verus! {

/// One decoded resource: the two metadata fields that queries read, and the
/// decoded object itself, which is carried along untouched.
#[derive(Debug)]
pub struct Resource<T> {
    /// The object's `metadata.name`.
    pub name: Option<String>,
    /// The object's `metadata.namespace`; absent for objects that live
    /// outside any namespace.
    pub namespace: Option<String>,
    /// The object as the host described it.
    pub object: T,
}

/// What a query reads of a record: its name and its namespace.
pub struct Identity {
    pub name: Option<Seq<char>>,
    pub namespace: Option<Seq<char>>,
}

impl Identity {
    /// Whether the record carries exactly the name `name`.
    pub open spec fn named(self, name: Seq<char>) -> bool {
        self.name == Some(name)
    }
}

impl View for Identity {
    type V = Identity;

    open spec fn view(&self) -> Identity {
        *self
    }
}

impl<T> View for Resource<T> {
    type V = Identity;

    open spec fn view(&self) -> Identity {
        Identity { name: text_of(self.name), namespace: text_of(self.namespace) }
    }
}

/// The identities of a sequence of records, in the same order.
pub open spec fn identities<R: View<V = Identity>>(items: Seq<R>) -> Seq<Identity> {
    items.map_values(|r: R| r@)
}

/// The records of `items` that `scope` admits, in the order they had.
pub open spec fn in_scope<R: View<V = Identity>>(items: Seq<R>, scope: Scope) -> Seq<R> {
    items.filter(|r: R| scope.admits(r@.namespace))
}

/// The records of `items` that are named `name`, in the order they had.
pub open spec fn all_named<R: View<V = Identity>>(items: Seq<R>, name: Seq<char>) -> Seq<R> {
    items.filter(|r: R| r@.named(name))
}

/// The first record of `items` that is named `name`, if there is one.
pub open spec fn first_named<R: View<V = Identity>>(items: Seq<R>, name: Seq<char>) -> Option<R> {
    let matching = all_named(items, name);
    if matching.len() == 0 {
        None
    } else {
        Some(matching[0])
    }
}

/// The identity of the record a lookup found, if it found one.
pub open spec fn found_identity<R: View<V = Identity>>(found: Option<R>) -> Option<Identity> {
    match found {
        Some(record) => Some(record@),
        None => None,
    }
}

/// Keeps the records that `filter` admits, in the order they had, and drops
/// the others. A record without a namespace passes only `AllNamespaces`.
pub fn filter_by_namespace<T>(items: Vec<Resource<T>>, filter: &NamespaceFilter) -> (kept: Vec<
    Resource<T>,
>)
    ensures
        kept@ == in_scope(items@, filter@),
{
    let ghost all = items@;
    let ghost admitted = |r: Resource<T>| filter@.admits(r@.namespace);
    let mut kept: Vec<Resource<T>> = Vec::new();
    proof {
        reveal(Seq::filter);
    }
    for item in it: items
        invariant
            it.seq() == all,
            admitted == (|r: Resource<T>| filter@.admits(r@.namespace)),
            kept@ == all.take(it.index() as int).filter(admitted),
    {
        proof {
            let seen = all.take(it.index() as int);
            assert(all.take(it.index() + 1) == seen.push(item));
            seen.lemma_filter_push(item, admitted);
        }
        if filter.admits(&item.namespace) {
            kept.push(item);
        }
    }
    assert(all.take(all.len() as int) == all);
    kept
}

/// Returns the first record, in the order of `items`, whose name is exactly
/// `name`. Where several records share the name, the earliest wins; a record
/// without a name matches nothing.
pub fn find_by_name<T>(items: Vec<Resource<T>>, name: &str) -> (found: Option<Resource<T>>)
    ensures
        found == first_named(items@, name@),
{
    let ghost all = items@;
    let ghost wanted = |r: Resource<T>| r@.named(name@);
    let needle = name.to_owned();
    proof {
        reveal(Seq::filter);
    }
    for item in it: items
        invariant
            it.seq() == all,
            needle@ == name@,
            wanted == (|r: Resource<T>| r@.named(name@)),
            all.take(it.index() as int).filter(wanted).len() == 0,
    {
        let is_match = match &item.name {
            Some(actual) => *actual == needle,
            None => false,
        };
        proof {
            let seen = all.take(it.index() as int);
            assert(all.take(it.index() + 1) == seen.push(item));
            seen.lemma_filter_push(item, wanted);
        }
        if is_match {
            proof {
                let upto = all.take(it.index() + 1);
                let rest = all.skip(it.index() + 1);
                assert(all == upto + rest);
                Seq::filter_distributes_over_add(upto, rest, wanted);
            }
            return Some(item);
        }
    }
    assert(all.take(all.len() as int) == all);
    None
}

/// A filter whose every candidate passes changes nothing.
proof fn lemma_filter_of_admitted<A>(items: Seq<A>, pred: spec_fn(A) -> bool)
    requires
        forall|i: int| 0 <= i < items.len() ==> pred(#[trigger] items[i]),
    ensures
        items.filter(pred) == items,
    decreases items.len(),
{
    reveal(Seq::filter);
    if items.len() > 0 {
        lemma_filter_of_admitted(items.drop_last(), pred);
        assert(items.drop_last().push(items.last()) == items);
    }
}

/// Every record of a listing satisfies the filter it was listed under: under
/// `Only(n)` its namespace is present and equal to `n`.
pub proof fn lemma_listed_are_admitted<R: View<V = Identity>>(items: Seq<R>, scope: Scope)
    ensures
        forall|i: int|
            0 <= i < in_scope(items, scope).len() ==> scope.admits(
                (#[trigger] in_scope(items, scope)[i])@.namespace,
            ),
        scope matches Scope::Only(n) ==> forall|i: int|
            0 <= i < in_scope(items, scope).len() ==> (#[trigger] in_scope(
                items,
                scope,
            )[i])@.namespace == Some(n),
{
    let admitted = |r: R| scope.admits(r@.namespace);
    assert forall|i: int| 0 <= i < in_scope(items, scope).len() implies admitted(
        #[trigger] in_scope(items, scope)[i],
    ) by {
        items.lemma_filter_pred(admitted, i);
    }
}

/// Under `All` a listing is the whole collection, in its order.
pub proof fn lemma_all_namespaces_keeps_everything<R: View<V = Identity>>(items: Seq<R>)
    ensures
        in_scope(items, Scope::All) == items,
{
    lemma_filter_of_admitted(items, |r: R| Scope::All.admits(r@.namespace));
}

/// Filtering is idempotent: a collection that was filtered by a scope is
/// left as it is when it is filtered by that scope again.
pub proof fn lemma_in_scope_idempotent<R: View<V = Identity>>(items: Seq<R>, scope: Scope)
    ensures
        in_scope(in_scope(items, scope), scope) == in_scope(items, scope),
{
    lemma_listed_are_admitted(items, scope);
    lemma_filter_of_admitted(in_scope(items, scope), |r: R| scope.admits(r@.namespace));
}

/// Narrowing records and reading their identities commute.
pub proof fn lemma_identities_in_scope<R: View<V = Identity>>(items: Seq<R>, scope: Scope)
    ensures
        identities(in_scope(items, scope)) == in_scope(identities(items), scope),
{
    vstd::seq_lib::lemma_filter_view_commute(
        items,
        |r: R| scope.admits(r@.namespace),
        |i: Identity| scope.admits(i@.namespace),
    );
    assert(identities(in_scope(items, scope)) =~= in_scope(items, scope).map_values(
        |x: R| x.view(),
    ));
    assert(identities(items) =~= items.map_values(|x: R| x.view()));
}

/// Looking a name up among records and among their identities commute.
pub proof fn lemma_identities_first_named<R: View<V = Identity>>(items: Seq<R>, name: Seq<char>)
    ensures
        found_identity(first_named(items, name)) == first_named(identities(items), name),
{
    vstd::seq_lib::lemma_filter_view_commute(
        items,
        |r: R| r@.named(name),
        |i: Identity| i@.named(name),
    );
    assert(identities(all_named(items, name)) =~= all_named(items, name).map_values(
        |x: R| x.view(),
    ));
    assert(identities(items) =~= items.map_values(|x: R| x.view()));
    assert(identities(all_named(items, name)) == all_named(identities(items), name));
}

/// The position in `items` of the first element that satisfies `pred`, given
/// that the filtered sequence is not empty.
proof fn lemma_filter_head<A>(items: Seq<A>, pred: spec_fn(A) -> bool) -> (i: int)
    requires
        items.filter(pred).len() > 0,
    ensures
        0 <= i < items.len(),
        items[i] == items.filter(pred)[0],
        pred(items[i]),
        forall|j: int| 0 <= j < i ==> !pred(#[trigger] items[j]),
    decreases items.len(),
{
    reveal(Seq::filter);
    assert(items.len() > 0);
    let rest = items.drop_last();
    if rest.filter(pred).len() > 0 {
        let i = lemma_filter_head(rest, pred);
        assert(forall|j: int| 0 <= j < rest.len() ==> rest[j] == items[j]);
        i
    } else {
        assert forall|j: int| 0 <= j < rest.len() implies !pred(#[trigger] items[j]) by {
            assert(rest[j] == items[j]);
            if pred(rest[j]) {
                rest.lemma_filter_contains(pred, j);
            }
        }
        items.len() - 1
    }
}

/// A lookup that answers with a record answers with one that the collection
/// holds and that carries the name; of several records that share the name it
/// is the first in the collection's order. The position of that record is
/// returned.
pub proof fn lemma_found_is_first_match<R: View<V = Identity>>(items: Seq<R>, name: Seq<char>) -> (i:
    int)
    requires
        first_named(items, name) is Some,
    ensures
        0 <= i < items.len(),
        first_named(items, name) == Some(items[i]),
        items.contains(items[i]),
        items[i]@.named(name),
        forall|j: int| 0 <= j < i ==> !(#[trigger] items[j])@.named(name),
{
    lemma_filter_head(items, |r: R| r@.named(name))
}

/// A lookup answers with nothing if and only if no record of the collection
/// carries the name.
pub proof fn lemma_not_found_iff_no_match<R: View<V = Identity>>(items: Seq<R>, name: Seq<char>)
    ensures
        first_named(items, name) is None <==> forall|i: int|
            0 <= i < items.len() ==> !(#[trigger] items[i])@.named(name),
{
    let wanted = |r: R| r@.named(name);
    if first_named(items, name) is None {
        assert forall|i: int| 0 <= i < items.len() implies !(#[trigger] items[i])@.named(name) by {
            if wanted(items[i]) {
                items.lemma_filter_contains(wanted, i);
            }
        }
    } else {
        let i = lemma_filter_head(items, wanted);
        assert(items[i]@.named(name));
    }
}

} // verus!
