//! The subscription registry: subscriptions kept under their identifiers.
//!
//! The entries live in a `dashmap::DashMap`. Verus does not read that crate, so
//! what the registry assumes of it is stated on the private functions at the
//! end of this module; everything else here is proved from those statements.
//!
//! The map is reached through the registry alone, and the registry changes it
//! only through `&mut self`. So while a method runs nothing else changes the
//! map, and what is assumed of one call need not allow for another.

use vstd::prelude::*;
use vstd::set_lib::lemma_subset_equality;
use dashmap::DashMap;
use crate::errors::{ApiError, ErrorKind};
use crate::models::{Subscription, SubscriptionView};
use crate::text::str_equal;

verus! {

/// Makes `dashmap::DashMap` known as a type of which nothing is seen inside.
#[verifier::external_type_specification]
#[verifier::external_body]
#[verifier::reject_recursive_types(K)]
#[verifier::reject_recursive_types(V)]
#[verifier::reject_recursive_types(S)]
pub struct ExDashMap<K, V, S>(DashMap<K, V, S>);

/// The entries of a map of subscriptions: each key's text with the value of
/// the subscription kept under it.
pub uninterp spec fn stored(map: DashMap<String, Subscription>) -> Map<Seq<char>, SubscriptionView>;

/// Every entry is kept under its own identifier, and there are finitely many.
pub open spec fn keyed_by_id(entries: Map<Seq<char>, SubscriptionView>) -> bool {
    &&& entries.dom().finite()
    &&& forall|id: Seq<char>| entries.dom().contains(id) ==> (#[trigger] entries[id]).id == Some(id)
}

/// The subscription kept under `id`, if any.
pub open spec fn lookup(entries: Map<Seq<char>, SubscriptionView>, id: Seq<char>) -> Option<
    SubscriptionView,
> {
    if entries.dom().contains(id) {
        Some(entries[id])
    } else {
        None
    }
}

/// How an upsert of `subscription` ends: it needs an identifier.
pub open spec fn upsert_result(subscription: SubscriptionView) -> Result<(), ApiError> {
    if subscription.id is Some {
        Ok(())
    } else {
        Err(ApiError::MissingSubscriptionId)
    }
}

/// The entries after an upsert of `subscription`.
pub open spec fn upserted(
    entries: Map<Seq<char>, SubscriptionView>,
    subscription: SubscriptionView,
) -> Map<Seq<char>, SubscriptionView> {
    if subscription.id is Some {
        entries.insert(subscription.id->0, subscription)
    } else {
        entries
    }
}

/// How replacing the entry under `id` by `subscription` ends: the body must
/// carry `id`, and an entry must be there.
pub open spec fn replace_result(
    entries: Map<Seq<char>, SubscriptionView>,
    id: Seq<char>,
    subscription: SubscriptionView,
) -> Result<(), ApiError> {
    if subscription.id != Some(id) {
        Err(ApiError::SubscriptionIdMismatch)
    } else if !entries.dom().contains(id) {
        Err(ApiError::SubscriptionNotFound)
    } else {
        Ok(())
    }
}

/// The entries after replacing the entry under `id` by `subscription`.
pub open spec fn replaced(
    entries: Map<Seq<char>, SubscriptionView>,
    id: Seq<char>,
    subscription: SubscriptionView,
) -> Map<Seq<char>, SubscriptionView> {
    if replace_result(entries, id, subscription) is Ok {
        entries.insert(id, subscription)
    } else {
        entries
    }
}

/// The entries after the one under `id` was deleted.
pub open spec fn deleted(entries: Map<Seq<char>, SubscriptionView>, id: Seq<char>) -> Map<
    Seq<char>,
    SubscriptionView,
> {
    entries.remove(id)
}

/// Whether `listing` holds each entry of `entries` once, in any order.
pub open spec fn lists(
    listing: Seq<SubscriptionView>,
    entries: Map<Seq<char>, SubscriptionView>,
) -> bool {
    &&& listing.len() == entries.dom().len()
    &&& forall|i: int|
        0 <= i < listing.len() ==> {
            &&& (#[trigger] listing[i]).id is Some
            &&& entries.dom().contains(listing[i].id->0)
            &&& entries[listing[i].id->0] == listing[i]
        }
    &&& forall|id: Seq<char>| #[trigger]
        entries.dom().contains(id) ==> exists|i: int|
            0 <= i < listing.len() && #[trigger] listing[i] == entries[id]
}

/// A walk that meets every key of `entries` once, and with each key the value
/// kept under it, lists `entries`.
proof fn lemma_walk_lists_entries(
    keys: Seq<Seq<char>>,
    values: Seq<SubscriptionView>,
    entries: Map<Seq<char>, SubscriptionView>,
)
    requires
        keyed_by_id(entries),
        keys.len() == entries.dom().len(),
        values.len() == keys.len(),
        keys.no_duplicates(),
        forall|i: int|
            0 <= i < keys.len() ==> entries.dom().contains(#[trigger] keys[i]) && entries[keys[i]]
                == values[i],
    ensures
        lists(values, entries),
{
    keys.unique_seq_to_set();
    assert(keys.to_set().subset_of(entries.dom())) by {
        assert forall|id: Seq<char>| keys.to_set().contains(id) implies entries.dom().contains(
            id,
        ) by {
            let i = choose|i: int| 0 <= i < keys.len() && keys[i] == id;
            assert(entries.dom().contains(keys[i]));
        }
    }
    lemma_subset_equality(keys.to_set(), entries.dom());
    assert forall|i: int| 0 <= i < values.len() implies {
        &&& (#[trigger] values[i]).id is Some
        &&& entries.dom().contains(values[i].id->0)
        &&& entries[values[i].id->0] == values[i]
    } by {
        assert(entries.dom().contains(keys[i]));
        assert(entries[keys[i]].id == Some(keys[i]));
    }
    assert forall|id: Seq<char>| #[trigger] entries.dom().contains(id) implies exists|i: int|
        0 <= i < values.len() && #[trigger] values[i] == entries[id] by {
        assert(keys.to_set().contains(id));
        let i = choose|i: int| 0 <= i < keys.len() && keys[i] == id;
        assert(entries.dom().contains(keys[i]));
        assert(values[i] == entries[id]);
    }
}

/// Subscriptions by identifier.
pub struct SubscriptionRegistry {
    entries: DashMap<String, Subscription>,
}

impl View for SubscriptionRegistry {
    type V = Map<Seq<char>, SubscriptionView>;

    closed spec fn view(&self) -> Map<Seq<char>, SubscriptionView> {
        stored(self.entries)
    }
}

impl SubscriptionRegistry {
    /// Every entry is kept under its own identifier. The constructor makes it
    /// so and every method keeps it so.
    pub open spec fn wf(&self) -> bool {
        keyed_by_id(self@)
    }

    /// An empty registry.
    pub fn new() -> (registry: SubscriptionRegistry)
        ensures
            registry.wf(),
            registry@ == (Map::<Seq<char>, SubscriptionView>::empty()),
    {
        SubscriptionRegistry { entries: map_new() }
    }

    /// Puts `subscription` under its identifier, in place of what was there.
    /// Without an identifier nothing changes and the call fails.
    pub fn upsert(&mut self, subscription: Subscription) -> (result: Result<(), ApiError>)
        requires
            old(self).wf(),
        ensures
            final(self).wf(),
            result == upsert_result(subscription@),
            final(self)@ == upserted(old(self)@, subscription@),
    {
        let key = match &subscription.id {
            Some(id) => id.clone(),
            None => {
                return Err(ApiError::MissingSubscriptionId);
            },
        };
        map_insert(&mut self.entries, key, subscription);
        Ok(())
    }

    /// A copy of the subscription under `id`, if there is one.
    pub fn get(&self, id: &str) -> (found: Option<Subscription>)
        requires
            self.wf(),
        ensures
            found.deep_view() == lookup(self@, id@),
            found matches Some(subscription) ==> subscription@.id == Some(id@),
    {
        map_get(&self.entries, id)
    }

    /// Whether a subscription is kept under `id`.
    pub fn contains(&self, id: &str) -> (present: bool)
        requires
            self.wf(),
        ensures
            present == self@.dom().contains(id@),
    {
        map_contains_key(&self.entries, id)
    }

    /// Copies of all subscriptions, each once, in no particular order.
    pub fn list(&self) -> (listing: Vec<Subscription>)
        requires
            self.wf(),
        ensures
            lists(listing.deep_view(), self@),
    {
        let pairs = map_entries(&self.entries);
        let ghost keys = Seq::new(pairs@.len(), |i: int| pairs@[i].0@);
        let ghost values = Seq::new(pairs@.len(), |i: int| pairs@[i].1@);
        proof {
            lemma_walk_lists_entries(keys, values, self@);
        }
        let mut listing: Vec<Subscription> = Vec::new();
        for pair in walk: pairs.into_iter()
            invariant
                walk.seq() == pairs@,
                values.len() == pairs@.len(),
                forall|i: int| 0 <= i < values.len() ==> #[trigger] values[i] == pairs@[i].1@,
                listing@.len() == walk.index(),
                forall|i: int| 0 <= i < listing@.len() ==> (#[trigger] listing@[i])@ == values[i],
        {
            listing.push(pair.1);
        }
        assert(listing.deep_view() =~= values);
        listing
    }

    /// Removes the subscription under `id` and says whether there was one.
    pub fn delete(&mut self, id: &str) -> (existed: bool)
        requires
            old(self).wf(),
        ensures
            final(self).wf(),
            existed == old(self)@.dom().contains(id@),
            final(self)@ == deleted(old(self)@, id@),
    {
        if !map_contains_key(&self.entries, id) {
            assert(self@ =~= old(self)@.remove(id@));
            return false;
        }
        map_remove(&mut self.entries, id);
        true
    }

    /// Puts `subscription` in place of the entry under `id`. Fails, and changes
    /// nothing, where the subscription does not carry `id` or no entry is there.
    pub fn replace(&mut self, id: &str, subscription: Subscription) -> (result: Result<
        (),
        ApiError,
    >)
        requires
            old(self).wf(),
        ensures
            final(self).wf(),
            result == replace_result(old(self)@, id@, subscription@),
            final(self)@ == replaced(old(self)@, id@, subscription@),
    {
        let carries_id = match &subscription.id {
            Some(own) => str_equal(own.as_str(), id),
            None => false,
        };
        if !carries_id {
            return Err(ApiError::SubscriptionIdMismatch);
        }
        if !map_contains_key(&self.entries, id) {
            return Err(ApiError::SubscriptionNotFound);
        }
        map_insert(&mut self.entries, id.to_owned(), subscription);
        Ok(())
    }
}

/// After an upsert a lookup under the subscription's identifier gives the
/// subscription, and a lookup under any other identifier gives what it gave
/// before.
pub proof fn lemma_lookup_after_upsert(
    entries: Map<Seq<char>, SubscriptionView>,
    subscription: SubscriptionView,
    other: Seq<char>,
)
    requires
        subscription.id is Some,
    ensures
        lookup(upserted(entries, subscription), subscription.id->0) == Some(subscription),
        other != subscription.id->0 ==> lookup(upserted(entries, subscription), other) == lookup(
            entries,
            other,
        ),
{
}

/// Of two upserts under one identifier the second wins: a lookup then gives
/// the second subscription.
pub proof fn lemma_second_upsert_wins(
    entries: Map<Seq<char>, SubscriptionView>,
    first: SubscriptionView,
    second: SubscriptionView,
)
    requires
        first.id is Some,
        second.id == first.id,
    ensures
        lookup(upserted(upserted(entries, first), second), second.id->0) == Some(second),
{
}

/// An upsert without an identifier fails as a validation error and leaves
/// every entry as it was.
pub proof fn lemma_upsert_without_id_changes_nothing(
    entries: Map<Seq<char>, SubscriptionView>,
    subscription: SubscriptionView,
)
    requires
        subscription.id is None,
    ensures
        upsert_result(subscription) == Err::<(), ApiError>(ApiError::MissingSubscriptionId),
        ApiError::MissingSubscriptionId.spec_kind() == ErrorKind::ValidationError,
        upserted(entries, subscription) == entries,
{
}

/// After a delete nothing is found under the identifier, and every other
/// entry is found as before.
pub proof fn lemma_lookup_after_delete(
    entries: Map<Seq<char>, SubscriptionView>,
    id: Seq<char>,
    other: Seq<char>,
)
    ensures
        lookup(deleted(entries, id), id) is None,
        other != id ==> lookup(deleted(entries, id), other) == lookup(entries, other),
{
}

/// A replace fails as a conflict where the body carries another identifier
/// than the one given, else as not-found where no entry is there; a failed
/// replace changes nothing, and after one that worked a lookup gives the body.
pub proof fn lemma_replace(
    entries: Map<Seq<char>, SubscriptionView>,
    id: Seq<char>,
    subscription: SubscriptionView,
)
    ensures
        subscription.id != Some(id) ==> replace_result(entries, id, subscription) == Err::<
            (),
            ApiError,
        >(ApiError::SubscriptionIdMismatch),
        subscription.id == Some(id) && !entries.dom().contains(id) ==> replace_result(
            entries,
            id,
            subscription,
        ) == Err::<(), ApiError>(ApiError::SubscriptionNotFound),
        ApiError::SubscriptionIdMismatch.spec_kind() == ErrorKind::ConflictError,
        ApiError::SubscriptionNotFound.spec_kind() == ErrorKind::NotFoundError,
        replace_result(entries, id, subscription) is Err ==> replaced(entries, id, subscription)
            == entries,
        replace_result(entries, id, subscription) is Ok ==> lookup(
            replaced(entries, id, subscription),
            id,
        ) == Some(subscription),
{
}

/// Upserts, replaces and deletes keep every entry under its own identifier.
pub proof fn lemma_operations_keep_keys(
    entries: Map<Seq<char>, SubscriptionView>,
    id: Seq<char>,
    subscription: SubscriptionView,
)
    requires
        keyed_by_id(entries),
    ensures
        keyed_by_id(upserted(entries, subscription)),
        keyed_by_id(replaced(entries, id, subscription)),
        keyed_by_id(deleted(entries, id)),
{
}

/// Makes an empty map with `DashMap::new`. Assumed: it holds no entry.
#[verifier::external_body]
fn map_new() -> (map: DashMap<String, Subscription>)
    ensures
        stored(map) == (Map::<Seq<char>, SubscriptionView>::empty()),
{
    DashMap::new()
}

/// Calls `DashMap::insert`. Assumed: afterwards the map holds `value` under
/// `key`, in place of what was there, and every other entry as before.
#[verifier::external_body]
fn map_insert(map: &mut DashMap<String, Subscription>, key: String, value: Subscription)
    ensures
        stored(*final(map)) == stored(*old(map)).insert(key@, value@),
{
    map.insert(key, value);
}

/// Calls `DashMap::get` and copies the value found. Assumed: a value is found
/// exactly where the map holds the key, and it is the one kept under it.
#[verifier::external_body]
fn map_get(map: &DashMap<String, Subscription>, key: &str) -> (found: Option<Subscription>)
    ensures
        found.deep_view() == lookup(stored(*map), key@),
{
    match map.get(key) {
        Some(entry) => Some(entry.value().clone()),
        None => None,
    }
}

/// Calls `DashMap::contains_key`. Assumed: it says whether the map holds the
/// key.
#[verifier::external_body]
fn map_contains_key(map: &DashMap<String, Subscription>, key: &str) -> (present: bool)
    ensures
        present == stored(*map).dom().contains(key@),
{
    map.contains_key(key)
}

/// Calls `DashMap::remove`. Assumed: afterwards the map holds nothing under
/// `key`, and every other entry as before.
#[verifier::external_body]
fn map_remove(map: &mut DashMap<String, Subscription>, key: &str)
    ensures
        stored(*final(map)) == stored(*old(map)).remove(key@),
{
    map.remove(key);
}

/// Walks the map with `DashMap::iter` and copies each entry. Assumed: every
/// entry comes out once (as many pairs as keys, each pair an entry of the map,
/// no key twice); nothing is assumed of their order.
#[verifier::external_body]
fn map_entries(map: &DashMap<String, Subscription>) -> (entries: Vec<(String, Subscription)>)
    ensures
        entries@.len() == stored(*map).dom().len(),
        forall|i: int|
            0 <= i < entries@.len() ==> stored(*map).dom().contains((#[trigger] entries@[i]).0@)
                && stored(*map)[entries@[i].0@] == entries@[i].1@,
        forall|i: int, j: int|
            0 <= i < j < entries@.len() ==> (#[trigger] entries@[i]).0@ != (#[trigger] entries@[j]).0@,
{
    map.iter().map(|entry| (entry.key().clone(), entry.value().clone())).collect()
}

} // verus!
