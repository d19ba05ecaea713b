//! The insertion-ordered maps of the `indexmap` crate, as the catalog and the
//! installed set use them. Each map is seen through two names: its keys in
//! insertion order, and its key-to-value mapping.
use indexmap::IndexMap;
use vstd::prelude::*;
use crate::volt::{PluginInstallStatus, VoltInfo, VoltMetadata};

verus! {

#[verifier::external_type_specification]
#[verifier::external_body]
#[verifier::reject_recursive_types(K)]
#[verifier::reject_recursive_types(V)]
#[verifier::reject_recursive_types(S)]
pub struct ExIndexMap<K, V, S>(IndexMap<K, V, S>);

/// The keys of a catalog map, in insertion order.
pub uninterp spec fn catalog_keys(m: IndexMap<String, VoltInfo>) -> Seq<Seq<char>>;

/// The key-to-entry mapping of a catalog map.
pub uninterp spec fn catalog_values(m: IndexMap<String, VoltInfo>) -> Map<Seq<char>, VoltInfo>;

/// The keys of an installed-package map, in insertion order.
pub uninterp spec fn installed_keys(m: IndexMap<String, VoltMetadata>) -> Seq<Seq<char>>;

/// The key-to-package mapping of an installed-package map.
pub uninterp spec fn installed_values(m: IndexMap<String, VoltMetadata>) -> Map<
    Seq<char>,
    VoltMetadata,
>;

/// The keys of an operation-tracker map, in insertion order.
pub uninterp spec fn tracker_keys(m: IndexMap<String, PluginInstallStatus>) -> Seq<Seq<char>>;

/// The key-to-status mapping of an operation-tracker map.
pub uninterp spec fn tracker_values(m: IndexMap<String, PluginInstallStatus>) -> Map<
    Seq<char>,
    PluginInstallStatus,
>;

/// Keys are unique and are exactly the domain of the mapping.
pub open spec fn keyed_wf<V>(keys: Seq<Seq<char>>, values: Map<Seq<char>, V>) -> bool {
    &&& keys.no_duplicates()
    &&& keys.to_set() == values.dom()
}

/// The order of keys after inserting `k`: unchanged if present, else `k` last.
pub open spec fn keys_after_insert(keys: Seq<Seq<char>>, k: Seq<char>) -> Seq<Seq<char>> {
    if keys.contains(k) {
        keys
    } else {
        keys.push(k)
    }
}

pub proof fn lemma_insert_keeps_wf<V>(keys: Seq<Seq<char>>, values: Map<Seq<char>, V>, k: Seq<char>, v: V)
    requires
        keyed_wf(keys, values),
    ensures
        keyed_wf(keys_after_insert(keys, k), values.insert(k, v)),
{
    if !keys.contains(k) {
        assert(keys.push(k).to_set() =~= keys.to_set().insert(k)) by {
            assert forall|x| keys.push(k).to_set().contains(x) <==> keys.to_set().insert(k).contains(x) by {
                if x == k {
                    assert(keys.push(k)[keys.len() as int] == k);
                } else if keys.contains(x) {
                    let i = choose|i: int| 0 <= i < keys.len() && keys[i] == x;
                    assert(keys.push(k)[i] == x);
                }
            }
        }
    }
    assert(values.insert(k, v).dom() =~= values.dom().insert(k));
    if keys.contains(k) {
        assert(values.dom().insert(k) =~= values.dom());
    }
}

pub proof fn lemma_remove_keeps_wf<V>(keys: Seq<Seq<char>>, values: Map<Seq<char>, V>, k: Seq<char>)
    requires
        keyed_wf(keys, values),
    ensures
        keyed_wf(keys.remove_value(k), values.remove(k)),
{
    keys.index_of_first_ensures(k);
    let r = keys.remove_value(k);
    match keys.index_of_first(k) {
        Some(i) => {
            assert forall|a: int, b: int| 0 <= a < b < r.len() implies r[a] != r[b] by {
                let a2 = if a < i { a } else { a + 1 };
                let b2 = if b < i { b } else { b + 1 };
                assert(r[a] == keys[a2]);
                assert(r[b] == keys[b2]);
            }
            assert forall|x| r.to_set().contains(x) <==> values.remove(k).dom().contains(x) by {
                if r.to_set().contains(x) {
                    let j = choose|j: int| 0 <= j < r.len() && r[j] == x;
                    let j2 = if j < i { j } else { j + 1 };
                    assert(r[j] == keys[j2]);
                    assert(keys.to_set().contains(x));
                }
                if values.remove(k).dom().contains(x) {
                    assert(keys.to_set().contains(x));
                    let j = choose|j: int| 0 <= j < keys.len() && keys[j] == x;
                    if j < i {
                        assert(r[j] == x);
                    } else {
                        assert(j != i);
                        assert(r[j - 1] == x);
                    }
                }
            }
            assert(r.to_set() =~= values.remove(k).dom());
        },
        None => {
            assert(!keys.to_set().contains(k));
            assert(values.remove(k).dom() =~= values.dom());
        },
    }
}

/// Relies on `IndexMap::new`: the new map is empty.
#[verifier::external_body]
pub(crate) fn catalog_new() -> (r: IndexMap<String, VoltInfo>)
    ensures
        catalog_keys(r).len() == 0,
        catalog_values(r).dom().is_empty(),
{
    IndexMap::new()
}

/// Relies on `IndexMap::len`: the number of entries, one per key.
#[verifier::external_body]
pub(crate) fn catalog_len(m: &IndexMap<String, VoltInfo>) -> (r: usize)
    ensures
        r == catalog_keys(*m).len(),
{
    m.len()
}

/// Relies on `IndexMap::clear`: every entry is removed.
#[verifier::external_body]
pub(crate) fn catalog_clear(m: &mut IndexMap<String, VoltInfo>)
    ensures
        catalog_keys(*final(m)).len() == 0,
        catalog_values(*final(m)).dom().is_empty(),
{
    m.clear()
}

/// Relies on `IndexMap::insert`: an existing key keeps its place and takes
/// the new value; a new key goes last.
#[verifier::external_body]
pub(crate) fn catalog_insert(m: &mut IndexMap<String, VoltInfo>, k: String, v: VoltInfo)
    ensures
        catalog_keys(*final(m)) == keys_after_insert(catalog_keys(*old(m)), k@),
        catalog_values(*final(m)) == catalog_values(*old(m)).insert(k@, v),
{
    m.insert(k, v);
}

/// Relies on `IndexMap::get`: the value stored under the key, if any.
#[verifier::external_body]
pub(crate) fn catalog_get<'a>(m: &'a IndexMap<String, VoltInfo>, k: &str) -> (r: Option<&'a VoltInfo>)
    ensures
        match r {
            Some(v) => catalog_values(*m).contains_key(k@) && *v == catalog_values(*m)[k@],
            None => !catalog_values(*m).contains_key(k@),
        },
{
    m.get(k)
}

/// Relies on `IndexMap::new`: the new map is empty.
#[verifier::external_body]
pub(crate) fn installed_new() -> (r: IndexMap<String, VoltMetadata>)
    ensures
        installed_keys(r).len() == 0,
        installed_values(r).dom().is_empty(),
{
    IndexMap::new()
}

/// Relies on `IndexMap::insert`: an existing key keeps its place and takes
/// the new value; a new key goes last.
#[verifier::external_body]
pub(crate) fn installed_insert(m: &mut IndexMap<String, VoltMetadata>, k: String, v: VoltMetadata)
    ensures
        installed_keys(*final(m)) == keys_after_insert(installed_keys(*old(m)), k@),
        installed_values(*final(m)) == installed_values(*old(m)).insert(k@, v),
{
    m.insert(k, v);
}

/// Relies on `IndexMap::get`: the value stored under the key, if any.
#[verifier::external_body]
pub(crate) fn installed_get<'a>(m: &'a IndexMap<String, VoltMetadata>, k: &str) -> (r: Option<&'a VoltMetadata>)
    ensures
        match r {
            Some(v) => installed_values(*m).contains_key(k@) && *v == installed_values(*m)[k@],
            None => !installed_values(*m).contains_key(k@),
        },
{
    m.get(k)
}

/// Relies on `IndexMap::shift_remove`: the key, if present, leaves the map
/// and the keys after it keep their order.
#[verifier::external_body]
pub(crate) fn installed_remove(m: &mut IndexMap<String, VoltMetadata>, k: &str)
    ensures
        installed_keys(*final(m)) == installed_keys(*old(m)).remove_value(k@),
        installed_values(*final(m)) == installed_values(*old(m)).remove(k@),
{
    m.shift_remove(k);
}

/// Relies on `IndexMap::new`: the new map is empty.
#[verifier::external_body]
pub(crate) fn tracker_new() -> (r: IndexMap<String, PluginInstallStatus>)
    ensures
        tracker_keys(r).len() == 0,
        tracker_values(r).dom().is_empty(),
{
    IndexMap::new()
}

/// Relies on `IndexMap::insert`: an existing key keeps its place and takes
/// the new value; a new key goes last.
#[verifier::external_body]
pub(crate) fn tracker_insert(m: &mut IndexMap<String, PluginInstallStatus>, k: String, v: PluginInstallStatus)
    ensures
        tracker_keys(*final(m)) == keys_after_insert(tracker_keys(*old(m)), k@),
        tracker_values(*final(m)) == tracker_values(*old(m)).insert(k@, v),
{
    m.insert(k, v);
}

/// Relies on `IndexMap::shift_remove`: the key, if present, leaves the map
/// and the keys after it keep their order.
#[verifier::external_body]
pub(crate) fn tracker_remove(m: &mut IndexMap<String, PluginInstallStatus>, k: &str)
    ensures
        tracker_keys(*final(m)) == tracker_keys(*old(m)).remove_value(k@),
        tracker_values(*final(m)) == tracker_values(*old(m)).remove(k@),
{
    m.shift_remove(k);
}

} // verus!
