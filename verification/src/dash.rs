use vstd::prelude::*;

use dashmap::{DashMap, DashSet};

use crate::damager::{damager_views, is_listing_of, Damager, DamagerView};

verus! {

#[verifier::external_type_specification]
#[verifier::external_body]
#[verifier::reject_recursive_types(K)]
#[verifier::reject_recursive_types(S)]
pub struct ExDashSet<K, S>(DashSet<K, S>);

/// What a `DashSet` of player ids holds.
pub uninterp spec fn id_set_contents(s: DashSet<u128>) -> Set<u128>;

/// `DashSet::new` (dashmap): a set with no element.
#[verifier::external_body]
pub(crate) fn id_set_new() -> (res: DashSet<u128>)
    ensures
        id_set_contents(res) == Set::<u128>::empty(),
{
    DashSet::new()
}

/// `DashSet::contains` (dashmap): whether `id` is an element.
#[verifier::external_body]
pub(crate) fn id_set_contains(s: &DashSet<u128>, id: u128) -> (res: bool)
    ensures
        res == id_set_contents(*s).contains(id),
{
    s.contains(&id)
}

/// `DashSet::insert` (dashmap): afterwards `id` is an element and nothing else
/// changed; the result tells whether it was absent before.
#[verifier::external_body]
pub(crate) fn id_set_insert(s: &mut DashSet<u128>, id: u128) -> (res: bool)
    ensures
        id_set_contents(*final(s)) == id_set_contents(*old(s)).insert(id),
        res == !id_set_contents(*old(s)).contains(id),
{
    s.insert(id)
}

/// `DashSet::remove` (dashmap): afterwards `id` is no element and nothing else
/// changed; the result is the removed element, if it was there.
#[verifier::external_body]
pub(crate) fn id_set_remove(s: &mut DashSet<u128>, id: u128) -> (res: Option<u128>)
    ensures
        id_set_contents(*final(s)) == id_set_contents(*old(s)).remove(id),
        res == (if id_set_contents(*old(s)).contains(id) { Some(id) } else { None::<u128> }),
{
    s.remove(&id)
}

/// What a `DashSet` of damagers holds, each damager as plain values.
pub uninterp spec fn damager_set_contents(s: DashSet<Damager>) -> Set<DamagerView>;

/// `DashSet::new` (dashmap): a set with no element.
#[verifier::external_body]
pub(crate) fn damager_set_new() -> (res: DashSet<Damager>)
    ensures
        damager_set_contents(res) == Set::<DamagerView>::empty(),
{
    DashSet::new()
}

/// `DashSet::insert` (dashmap): afterwards `d` is an element and nothing else
/// changed; the result tells whether it was absent before. Two damagers are
/// the same element when name, damage and delay are equal (derived `Eq`).
#[verifier::external_body]
pub(crate) fn damager_set_insert(s: &mut DashSet<Damager>, d: Damager) -> (res: bool)
    ensures
        damager_set_contents(*final(s)) == damager_set_contents(*old(s)).insert(d@),
        res == !damager_set_contents(*old(s)).contains(d@),
{
    s.insert(d)
}

/// `DashSet::iter` (dashmap), each element cloned: every element exactly once,
/// in an order that the hashing decides and that is left open here.
#[verifier::external_body]
pub(crate) fn damager_set_list(s: &DashSet<Damager>) -> (res: Vec<Damager>)
    ensures
        is_listing_of(damager_views(res@), damager_set_contents(*s)),
{
    s.iter().map(|d| d.key().clone()).collect()
}


#[verifier::external_type_specification]
#[verifier::external_body]
#[verifier::reject_recursive_types(K)]
#[verifier::reject_recursive_types(V)]
#[verifier::reject_recursive_types(S)]
pub struct ExDashMap<K, V, S>(DashMap<K, V, S>);

/// A concurrent map from player ids to counts.
pub type CounterMap = DashMap<u128, u32>;

/// What a `DashMap` from player ids to counts holds.
pub uninterp spec fn counter_map_contents(m: CounterMap) -> Map<u128, u32>;

/// `DashMap::new` (dashmap): a map with no entry.
#[verifier::external_body]
pub(crate) fn counter_map_new() -> (res: CounterMap)
    ensures
        counter_map_contents(res).dom() == Set::<u128>::empty(),
{
    DashMap::new()
}

/// `DashMap::get` (dashmap), the value copied out of the guard: the entry of `id`, if any.
#[verifier::external_body]
pub(crate) fn counter_map_get(m: &CounterMap, id: u128) -> (res: Option<u32>)
    ensures
        res == (if counter_map_contents(*m).contains_key(id) {
            Some(counter_map_contents(*m)[id])
        } else {
            None::<u32>
        }),
{
    m.get(&id).map(|r| *r.value())
}

/// `DashMap::insert` (dashmap): afterwards `id` maps to `value` and nothing else
/// changed; the result is the value it had before, if any.
#[verifier::external_body]
pub(crate) fn counter_map_insert(m: &mut CounterMap, id: u128, value: u32) -> (res: Option<u32>)
    ensures
        counter_map_contents(*final(m)) == counter_map_contents(*old(m)).insert(id, value),
        res == (if counter_map_contents(*old(m)).contains_key(id) {
            Some(counter_map_contents(*old(m))[id])
        } else {
            None::<u32>
        }),
{
    m.insert(id, value)
}

} // verus!
