//! The profile store: one [`ClientProfile`] per `(tenant, client)` pair, kept
//! in a sharded concurrent map.
//!
//! The store owns its map and reaches it only through exclusive borrows, so
//! what the map holds is a function of the calls made on it. The calls into
//! the map are the trusted items of this module; each says what it is
//! believed to do in terms of [`held`].

use crate::models::{ClientProfile, ProfileKey, ProfileView, ThreatLevel};
use dashmap::DashMap;
use vstd::prelude::*;

verus! {

/// The profiles of a store, by key.
pub type ProfileMap = Map<ProfileKey, ProfileView>;

/// `dashmap::DashMap`, opaque to the verifier.
#[verifier::external_type_specification]
#[verifier::external_body]
#[verifier::reject_recursive_types(K)]
#[verifier::reject_recursive_types(V)]
#[verifier::reject_recursive_types(S)]
pub struct ExDashMap<K, V, S>(DashMap<K, V, S>);

/// The entries of a map of profiles: for each key, the view of the value
/// bound to it.
pub uninterp spec fn held(map: DashMap<(String, String), ClientProfile>) -> Map<
    (Seq<char>, Seq<char>),
    ProfileView,
>;

/// Every profile sits under its own identity and is well formed, and there
/// are finitely many.
pub open spec fn profiles_wf(profiles: ProfileMap) -> bool {
    &&& profiles.dom().finite()
    &&& forall|k: ProfileKey| #[trigger]
        profiles.contains_key(k) ==> profiles[k].key() == k && profiles[k].wf()
}

/// The profile of a client at its first event: nothing seen, nothing held
/// against it.
pub open spec fn fresh_profile(key: ProfileKey, now: int) -> ProfileView {
    ProfileView {
        tenant_id: key.0,
        client_id: key.1,
        first_seen: now,
        last_seen: now,
        total_events: 0,
        risk_score: 0,
        is_compromised: false,
        threat_level: ThreatLevel::Safe,
    }
}

/// `profiles` with a fresh profile under `key` unless one is there already.
pub open spec fn with_profile(profiles: ProfileMap, key: ProfileKey, now: int) -> ProfileMap {
    if profiles.contains_key(key) {
        profiles
    } else {
        profiles.insert(key, fresh_profile(key, now))
    }
}

/// Whether a profile was last seen before the staleness window that ends at
/// `now` began.
pub open spec fn is_stale(profile: ProfileView, now: int, window: int) -> bool {
    profile.last_seen < now - window
}

/// Whether eviction removes a profile: it is stale and not compromised. A
/// compromised profile is kept however old it is.
pub open spec fn evictable(profile: ProfileView, now: int, window: int) -> bool {
    is_stale(profile, now, window) && !profile.is_compromised
}

/// `profiles` without those that eviction removes.
pub open spec fn without_stale(profiles: ProfileMap, now: int, window: int) -> ProfileMap {
    Map::new(
        |k: ProfileKey| profiles.contains_key(k) && !evictable(profiles[k], now, window),
        |k: ProfileKey| profiles[k],
    )
}

/// Whether `listing` names every profile of `profiles` exactly once.
pub open spec fn lists(listing: Seq<ClientProfile>, profiles: ProfileMap) -> bool {
    &&& listing.len() == profiles.len()
    &&& forall|i: int|
        0 <= i < listing.len() ==> profiles.contains_key(#[trigger] listing[i]@.key())
            && profiles[listing[i]@.key()] == listing[i]@
    &&& forall|i: int, j: int|
        0 <= i < j < listing.len() ==> listing[i]@.key() != listing[j]@.key()
}

/// Eviction leaves a well-formed store well formed, and no larger.
pub proof fn lemma_without_stale(profiles: ProfileMap, now: int, window: int)
    requires
        profiles_wf(profiles),
    ensures
        profiles_wf(without_stale(profiles, now, window)),
        without_stale(profiles, now, window).len() <= profiles.len(),
        without_stale(profiles, now, window).dom().subset_of(profiles.dom()),
{
    let kept = without_stale(profiles, now, window);
    vstd::set_lib::lemma_len_subset(kept.dom(), profiles.dom());
}

/// Whether eviction keeps `profile`.
pub fn survives_eviction(profile: &ClientProfile, now: i64, window: i64) -> (kept: bool)
    ensures
        kept == !evictable(profile@, now as int, window as int),
{
    let cutoff: i128 = now as i128 - window as i128;
    profile.is_compromised || profile.last_seen as i128 >= cutoff
}

/// `DashMap::new`. Believed: the new map holds nothing.
#[verifier::external_body]
fn dash_new() -> (map: DashMap<(String, String), ClientProfile>)
    ensures
        held(map) == ProfileMap::empty(),
{
    DashMap::new()
}

/// `DashMap::len`. Believed: the result is the number of entries.
#[verifier::external_body]
fn dash_len(map: &DashMap<(String, String), ClientProfile>) -> (n: usize)
    ensures
        n == held(*map).len(),
{
    map.len()
}

/// `DashMap::contains_key`. Believed: the result says whether the key is
/// bound.
#[verifier::external_body]
fn dash_contains(
    map: &DashMap<(String, String), ClientProfile>,
    tenant: &str,
    client: &str,
) -> (bound: bool)
    ensures
        bound == held(*map).contains_key((tenant@, client@)),
{
    map.contains_key(&(tenant.to_owned(), client.to_owned()))
}

/// `DashMap::get`, the value copied out. Believed: the result is the value
/// bound to the key, or `None` when the key is not bound.
#[verifier::external_body]
fn dash_get(
    map: &DashMap<(String, String), ClientProfile>,
    tenant: &str,
    client: &str,
) -> (found: Option<ClientProfile>)
    ensures
        found is Some <==> held(*map).contains_key((tenant@, client@)),
        found is Some ==> found.unwrap()@ == held(*map)[(tenant@, client@)],
{
    map.get(&(tenant.to_owned(), client.to_owned())).map(|entry| entry.value().clone())
}

/// `DashMap::entry` followed by `Entry::or_insert`, the value copied out.
/// Believed: a key that is bound keeps its value, a key that is not is bound
/// to `fresh`; the result is the value bound afterwards.
#[verifier::external_body]
fn dash_get_or_insert(
    map: &mut DashMap<(String, String), ClientProfile>,
    tenant: String,
    client: String,
    fresh: ClientProfile,
) -> (current: ClientProfile)
    ensures
        held(*final(map)) == if held(*old(map)).contains_key((tenant@, client@)) {
            held(*old(map))
        } else {
            held(*old(map)).insert((tenant@, client@), fresh@)
        },
        current@ == held(*final(map))[(tenant@, client@)],
{
    map.entry((tenant, client)).or_insert(fresh).value().clone()
}

/// `DashMap::insert`. Believed: afterwards the key is bound to `profile` and
/// every other key is as before.
#[verifier::external_body]
fn dash_insert(
    map: &mut DashMap<(String, String), ClientProfile>,
    tenant: String,
    client: String,
    profile: ClientProfile,
)
    ensures
        held(*final(map)) == held(*old(map)).insert((tenant@, client@), profile@),
{
    map.insert((tenant, client), profile);
}

/// `DashMap::remove`. Believed: afterwards the key is not bound and every
/// other key is as before; the result says whether the key was bound.
#[verifier::external_body]
fn dash_remove(
    map: &mut DashMap<(String, String), ClientProfile>,
    tenant: &str,
    client: &str,
) -> (removed: bool)
    ensures
        held(*final(map)) == held(*old(map)).remove((tenant@, client@)),
        removed == held(*old(map)).contains_key((tenant@, client@)),
{
    map.remove(&(tenant.to_owned(), client.to_owned())).is_some()
}

/// `DashMap::retain` with [`survives_eviction`] as the predicate. Believed:
/// exactly the entries on which the predicate holds stay, unchanged.
#[verifier::external_body]
fn dash_retain_surviving(map: &mut DashMap<(String, String), ClientProfile>, now: i64, window: i64)
    ensures
        held(*final(map)) == without_stale(held(*old(map)), now as int, window as int),
{
    map.retain(|_, profile| survives_eviction(profile, now, window));
}

/// `DashMap::clear`. Believed: afterwards the map holds nothing.
#[verifier::external_body]
fn dash_clear(map: &mut DashMap<(String, String), ClientProfile>)
    ensures
        held(*final(map)) == ProfileMap::empty(),
{
    map.clear();
}

/// `DashMap::iter`, each value copied out. Believed: every entry is visited
/// once. The order of the visit is not stated.
#[verifier::external_body]
fn dash_values(map: &DashMap<(String, String), ClientProfile>) -> (listing: Vec<ClientProfile>)
    requires
        profiles_wf(held(*map)),
    ensures
        lists(listing@, held(*map)),
{
    map.iter().map(|entry| entry.value().clone()).collect()
}

/// The store of client profiles.
pub struct ProfileStore {
    map: DashMap<(String, String), ClientProfile>,
}

impl View for ProfileStore {
    type V = ProfileMap;

    closed spec fn view(&self) -> ProfileMap {
        held(self.map)
    }
}

impl ProfileStore {
    /// The invariant of the store; see [`profiles_wf`].
    pub open spec fn wf(&self) -> bool {
        profiles_wf(self@)
    }

    /// The empty store.
    pub fn new() -> (store: Self)
        ensures
            store.wf(),
            store@ == ProfileMap::empty(),
    {
        ProfileStore { map: dash_new() }
    }

    /// The number of profiles.
    pub fn size(&self) -> (n: usize)
        requires
            self.wf(),
        ensures
            n == self@.len(),
    {
        dash_len(&self.map)
    }

    /// Whether `client_id` within `tenant_id` has a profile.
    pub fn contains(&self, tenant_id: &str, client_id: &str) -> (present: bool)
        requires
            self.wf(),
        ensures
            present == self@.contains_key((tenant_id@, client_id@)),
    {
        dash_contains(&self.map, tenant_id, client_id)
    }

    /// A copy of the profile of `client_id` within `tenant_id`, or `None`
    /// when there is none.
    pub fn get(&self, tenant_id: &str, client_id: &str) -> (found: Option<ClientProfile>)
        requires
            self.wf(),
        ensures
            found is Some <==> self@.contains_key((tenant_id@, client_id@)),
            found is Some ==> found.unwrap()@ == self@[(tenant_id@, client_id@)],
            found is Some ==> found.unwrap()@.key() == (tenant_id@, client_id@),
            found is Some ==> found.unwrap()@.wf(),
    {
        dash_get(&self.map, tenant_id, client_id)
    }

    /// A copy of the profile of `client_id` within `tenant_id`, which is
    /// created as of `now` when there is none. A profile that exists is left
    /// as it is.
    pub fn get_or_create(&mut self, tenant_id: &str, client_id: &str, now: i64) -> (profile:
        ClientProfile)
        requires
            old(self).wf(),
        ensures
            final(self).wf(),
            final(self)@ == with_profile(old(self)@, (tenant_id@, client_id@), now as int),
            profile@ == final(self)@[(tenant_id@, client_id@)],
            profile@.key() == (tenant_id@, client_id@),
            profile@.wf(),
    {
        let fresh = ClientProfile {
            tenant_id: tenant_id.to_owned(),
            client_id: client_id.to_owned(),
            first_seen: now,
            last_seen: now,
            total_events: 0,
            risk_score: 0,
            is_compromised: false,
            threat_level: ThreatLevel::Safe,
        };
        dash_get_or_insert(&mut self.map, tenant_id.to_owned(), client_id.to_owned(), fresh)
    }

    /// Stores `profile` under the identity it carries, in place of the
    /// profile that was there, if any.
    pub fn put(&mut self, profile: ClientProfile)
        requires
            old(self).wf(),
            profile@.wf(),
        ensures
            final(self).wf(),
            final(self)@ == old(self)@.insert(profile@.key(), profile@),
    {
        let tenant = profile.tenant_id.clone();
        let client = profile.client_id.clone();
        dash_insert(&mut self.map, tenant, client, profile);
    }

    /// Deletes the profile of `client_id` within `tenant_id`. Says whether
    /// there was one; deleting what is not there is no error.
    pub fn remove(&mut self, tenant_id: &str, client_id: &str) -> (removed: bool)
        requires
            old(self).wf(),
        ensures
            final(self).wf(),
            final(self)@ == old(self)@.remove((tenant_id@, client_id@)),
            removed == old(self)@.contains_key((tenant_id@, client_id@)),
    {
        dash_remove(&mut self.map, tenant_id, client_id)
    }

    /// Removes every profile that is stale at `now` under `window` and not
    /// compromised.
    pub fn evict_stale(&mut self, now: i64, window: i64)
        requires
            old(self).wf(),
        ensures
            final(self).wf(),
            final(self)@ == without_stale(old(self)@, now as int, window as int),
            final(self)@.len() <= old(self)@.len(),
    {
        proof {
            lemma_without_stale(self@, now as int, window as int);
        }
        dash_retain_surviving(&mut self.map, now, window);
    }

    /// Removes every profile.
    pub fn clear_all(&mut self)
        requires
            old(self).wf(),
        ensures
            final(self).wf(),
            final(self)@ == ProfileMap::empty(),
    {
        dash_clear(&mut self.map);
    }

    /// A copy of every profile, each once, in no stated order.
    pub fn snapshot(&self) -> (listing: Vec<ClientProfile>)
        requires
            self.wf(),
        ensures
            lists(listing@, self@),
    {
        dash_values(&self.map)
    }
}

} // verus!
