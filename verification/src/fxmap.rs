//! Trusted interface to `rustc_hash`'s `FxHashMap`, the hash map used for
//! the instruction-to-slot mapping and for a module's attribute groups.
//!
//! `FxHashMap<K, V>` is `std::collections::HashMap` with the deterministic
//! `FxBuildHasher`, so a map's mathematical view is its `Map` of keys to
//! values; each method the library calls is wrapped with a contract
//! stating what the call does to that view.

use vstd::prelude::*;

use crate::ir::Attribute;

verus! {

/// `rustc_hash::FxBuildHasher`: the build-hasher behind `FxHashMap`,
/// declared so that map types naming it can stand in fields.
#[verifier::external_type_specification]
#[verifier::external_body]
pub struct ExFxBuildHasher(rustc_hash::FxBuildHasher);

/// Relies on `HashMap::insert` with `u32` keys and the deterministic
/// `FxBuildHasher`: the map afterwards holds `v` under `k` and is
/// otherwise unchanged.
#[verifier::external_body]
pub fn slot_map_insert(m: &mut rustc_hash::FxHashMap<u32, u32>, k: u32, v: u32)
    ensures
        final(m)@ == old(m)@.insert(k, v),
{
    m.insert(k, v);
}

/// Relies on `HashMap::get` with `u32` keys and the deterministic
/// `FxBuildHasher`: the value under `k` when the map holds one.
#[verifier::external_body]
pub fn slot_map_get(m: &rustc_hash::FxHashMap<u32, u32>, k: u32) -> (r: Option<u32>)
    ensures
        r is Some <==> m@.dom().contains(k),
        r is Some ==> r->0 == m@[k],
{
    m.get(&k).copied()
}

/// Relies on `HashMap::insert` with `u32` keys and the deterministic
/// `FxBuildHasher`: the map afterwards holds `v` under `k` and is
/// otherwise unchanged.
#[verifier::external_body]
pub fn attr_groups_insert(
    m: &mut rustc_hash::FxHashMap<u32, Vec<Attribute>>,
    k: u32,
    v: Vec<Attribute>,
)
    ensures
        final(m)@ == old(m)@.insert(k, v),
{
    m.insert(k, v);
}

/// Relies on `HashMap::get` with `u32` keys and the deterministic
/// `FxBuildHasher`: the group under `k` when the map holds one.
#[verifier::external_body]
pub fn attr_groups_get<'a>(
    m: &'a rustc_hash::FxHashMap<u32, Vec<Attribute>>,
    k: u32,
) -> (r: Option<&'a Vec<Attribute>>)
    ensures
        r is Some <==> m@.dom().contains(k),
        r is Some ==> *r->0 == m@[k],
{
    m.get(&k)
}

/// Relies on `HashMap::keys` with `u32` keys and the deterministic
/// `FxBuildHasher`: every key of the map exactly once, in some order.
#[verifier::external_body]
pub fn attr_groups_keys(m: &rustc_hash::FxHashMap<u32, Vec<Attribute>>) -> (r: Vec<u32>)
    ensures
        r@.no_duplicates(),
        forall|j: int| 0 <= j < r@.len() ==> m@.dom().contains(#[trigger] r@[j]),
        forall|k: u32| #[trigger] m@.dom().contains(k) ==> r@.contains(k),
{
    m.keys().copied().collect()
}

} // verus!
