//! The entity store: latest observation per device identity, with
//! timestamp-based pruning. The backing container is `dashmap::DashMap`,
//! whose concurrency-safe operations the unverified shell may rely on; here
//! it stands behind a small trusted surface and is modelled as a map from
//! identity to stored entry.

use crate::is_fresh_spec;
use crate::types::{StoredEntry, StoredEntryV, SensorValue};
use vstd::prelude::*;

verus! {

#[verifier::external_type_specification]
#[verifier::external_body]
#[verifier::reject_recursive_types(K)]
#[verifier::reject_recursive_types(V)]
#[verifier::reject_recursive_types(S)]
pub struct ExDashMap<K, V, S>(dashmap::DashMap<K, V, S>);

/// What the backing container holds: the entry stored under each identity.
pub uninterp spec fn dm_view(
    m: dashmap::DashMap<String, StoredEntry, std::collections::hash_map::RandomState>,
) -> Map<Seq<char>, StoredEntryV>;

/// The sub-map of `m` whose entries are fresh at `now` for the given
/// staleness threshold.
pub open spec fn pruned(
    m: Map<Seq<char>, StoredEntryV>,
    now: int,
    threshold: int,
) -> Map<Seq<char>, StoredEntryV> {
    Map::new(
        |k: Seq<char>| m.dom().contains(k) && is_fresh_spec(m[k].observed_at, now, threshold),
        |k: Seq<char>| m[k],
    )
}

/// Whether the entry is fresh at `now` for the given staleness threshold.
pub fn entry_is_fresh(e: &StoredEntry, now: u64, threshold: u64) -> (r: bool)
    ensures
        r == is_fresh_spec(e@.observed_at, now as int, threshold as int),
{
    e.observed_at <= now && now - e.observed_at < threshold
}

/// Relies on `dashmap::DashMap::new`: creates an empty map.
#[verifier::external_body]
fn dm_new() -> (r: dashmap::DashMap<String, StoredEntry, std::collections::hash_map::RandomState>)
    ensures
        (dm_view(r) == Map::<Seq<char>, StoredEntryV>::empty()),
{
    dashmap::DashMap::new()
}

/// Relies on `dashmap::DashMap::insert`: replaces whatever the map held
/// under the key with the given value.
#[verifier::external_body]
fn dm_insert(
    m: &mut dashmap::DashMap<String, StoredEntry, std::collections::hash_map::RandomState>,
    key: String,
    value: StoredEntry,
)
    ensures
        dm_view(*final(m)) == dm_view(*old(m)).insert(key@, value@),
{
    m.insert(key, value);
}

/// Relies on `dashmap::DashMap::retain`: keeps exactly the entries on which
/// the predicate returns true; the predicate passed here is the verified
/// `entry_is_fresh`.
#[verifier::external_body]
fn dm_retain_fresh(
    m: &mut dashmap::DashMap<String, StoredEntry, std::collections::hash_map::RandomState>,
    now: u64,
    threshold: u64,
)
    ensures
        dm_view(*final(m)) == pruned(dm_view(*old(m)), now as int, threshold as int),
{
    m.retain(|_k, v| entry_is_fresh(v, now, threshold));
}

/// Relies on `dashmap::DashMap::iter`: yields each entry of the map exactly
/// once; the order is the container's own and nothing is assumed of it.
#[verifier::external_body]
fn dm_entries(
    m: &dashmap::DashMap<String, StoredEntry, std::collections::hash_map::RandomState>,
) -> (r: Vec<(String, StoredEntry)>)
    ensures
        forall|i: int|
            0 <= i < r@.len() ==> dm_view(*m).dom().contains(#[trigger] r@[i].0@) && dm_view(
                *m,
            )[r@[i].0@] == r@[i].1@,
        forall|k: Seq<char>|
            dm_view(*m).dom().contains(k) ==> exists|i: int|
                0 <= i < r@.len() && #[trigger] r@[i].0@ == k,
        forall|i: int, j: int| 0 <= i < j < r@.len() ==> r@[i].0@ != r@[j].0@,
{
    m.iter().map(|e| (e.key().clone(), e.value().clone())).collect()
}

/// The store of the latest observation per device identity, shared between
/// the ingestion side (writer) and the render side (pruner and reader).
pub struct SensorMap {
    map: dashmap::DashMap<String, StoredEntry, std::collections::hash_map::RandomState>,
}

impl View for SensorMap {
    type V = Map<Seq<char>, StoredEntryV>;

    closed spec fn view(&self) -> Map<Seq<char>, StoredEntryV> {
        dm_view(self.map)
    }
}

impl SensorMap {
    /// An empty store.
    pub fn new() -> (r: SensorMap)
        ensures
            r@ == Map::<Seq<char>, StoredEntryV>::empty(),
    {
        SensorMap { map: dm_new() }
    }

    /// Inserts or replaces the entry for `identity`: the last write for an
    /// identity wins, whatever the store held before.
    pub fn upsert(&mut self, identity: String, value: SensorValue, observed_at: u64)
        ensures
            final(self)@ == old(self)@.insert(
                identity@,
                StoredEntryV { value: value@, observed_at: observed_at as int },
            ),
    {
        dm_insert(&mut self.map, identity, StoredEntry { value, observed_at });
    }

    /// Removes every entry whose timestamp is `threshold` or more seconds
    /// behind `now` (or from the future), and no other.
    pub fn prune_stale(&mut self, now: u64, threshold: u64)
        ensures
            final(self)@ == pruned(old(self)@, now as int, threshold as int),
    {
        dm_retain_fresh(&mut self.map, now, threshold);
    }

    /// The store's entries as a vector: every entry appears exactly once,
    /// in no particular order.
    pub fn snapshot(&self) -> (r: Vec<(String, StoredEntry)>)
        ensures
            forall|i: int|
                0 <= i < r@.len() ==> self@.dom().contains(#[trigger] r@[i].0@) && self@[r@[i].0@]
                    == r@[i].1@,
            forall|k: Seq<char>|
                self@.dom().contains(k) ==> exists|i: int|
                    0 <= i < r@.len() && #[trigger] r@[i].0@ == k,
            forall|i: int, j: int| 0 <= i < j < r@.len() ==> r@[i].0@ != r@[j].0@,
    {
        dm_entries(&self.map)
    }
}

/// Overwrite law: upserting under one identity twice leaves exactly the
/// entry of the second call — the store is the same as if only the second
/// upsert had happened, its domain grows by at most that one identity, and
/// the identity maps to the second entry.
pub proof fn lemma_upsert_overwrite(
    m: Map<Seq<char>, StoredEntryV>,
    k: Seq<char>,
    e1: StoredEntryV,
    e2: StoredEntryV,
)
    ensures
        m.insert(k, e1).insert(k, e2) == m.insert(k, e2),
        m.insert(k, e1).insert(k, e2).dom() == m.dom().insert(k),
        m.insert(k, e1).insert(k, e2)[k] == e2,
{
    assert(m.insert(k, e1).insert(k, e2) =~= m.insert(k, e2));
    assert(m.insert(k, e1).insert(k, e2).dom() =~= m.dom().insert(k));
}

/// Staleness law: pruning at `now` keeps an identity exactly when its entry
/// was present and observed strictly less than `threshold` seconds before
/// `now` (and not in the future); kept entries are unchanged. In particular
/// an entry exactly `threshold` seconds old is removed.
pub proof fn lemma_pruned_membership(
    m: Map<Seq<char>, StoredEntryV>,
    now: int,
    threshold: int,
    k: Seq<char>,
)
    ensures
        pruned(m, now, threshold).dom().contains(k) <==> (m.dom().contains(k) && is_fresh_spec(
            m[k].observed_at,
            now,
            threshold,
        )),
        pruned(m, now, threshold).dom().contains(k) ==> pruned(m, now, threshold)[k] == m[k],
        m.dom().contains(k) && m[k].observed_at == now - threshold ==> !pruned(
            m,
            now,
            threshold,
        ).dom().contains(k),
{
}

} // verus!
