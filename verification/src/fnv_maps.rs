//! The FNV-hashed maps and sets that hold text bookkeeping, as the `fnv` crate provides them,
//! with what their methods do to their contents.

use vstd::prelude::*;
use std::hash::BuildHasherDefault;
use fnv::{FnvHashMap, FnvHashSet, FnvHasher};

verus! {

#[verifier::external_type_specification]
#[verifier::external_body]
pub struct ExFnvHasher(FnvHasher);

#[verifier::external_type_specification]
#[verifier::external_body]
#[verifier::reject_recursive_types(H)]
pub struct ExBuildHasherDefault<H>(BuildHasherDefault<H>);

/// An FNV-hashed map from text components to the texts they show.
pub type ComponentMap = FnvHashMap<usize, String>;

/// An FNV-hashed map from texts to texts.
pub type StringMap = FnvHashMap<String, String>;

/// An FNV-hashed set of texts.
pub type StringSet = FnvHashSet<String>;

/// An FNV-hashed set of game objects, each known by its address.
pub type ObjectSet = FnvHashSet<usize>;

/// What a map from text components to texts holds.
pub uninterp spec fn component_texts(m: ComponentMap) -> Map<usize, Seq<char>>;

/// What a map from texts to texts holds.
pub uninterp spec fn string_pairs(m: StringMap) -> Map<Seq<char>, Seq<char>>;

/// What a set of texts holds.
pub uninterp spec fn string_members(s: StringSet) -> Set<Seq<char>>;

/// What a set of game objects holds.
pub uninterp spec fn object_members(s: ObjectSet) -> Set<usize>;

/// Calls `Default::default` of `FnvHashMap`: an empty map.
#[verifier::external_body]
pub(crate) fn new_component_map() -> (r: ComponentMap)
    ensures component_texts(r) =~= Map::empty(),
{
    FnvHashMap::default()
}

/// Calls `HashMap::insert`: afterwards `key` maps to `value`, other keys as before.
#[verifier::external_body]
pub(crate) fn component_map_insert(m: &mut ComponentMap, key: usize, value: String)
    ensures component_texts(*final(m)) == component_texts(*old(m)).insert(key, value@),
{
    m.insert(key, value);
}

/// Calls `HashMap::remove`: afterwards `key` maps to nothing, other keys as before.
#[verifier::external_body]
pub(crate) fn component_map_remove(m: &mut ComponentMap, key: usize)
    ensures component_texts(*final(m)) == component_texts(*old(m)).remove(key),
{
    m.remove(&key);
}

/// Calls `HashMap::iter` and collects what it yields: every entry once, in the map's own
/// order, which is left unsaid.
#[verifier::external_body]
pub(crate) fn component_map_entries(m: &ComponentMap) -> (r: Vec<(usize, String)>)
    ensures
        forall|i: int| 0 <= i < r@.len() ==> #[trigger] component_texts(*m).contains_key(r@[i].0)
            && component_texts(*m)[r@[i].0] == r@[i].1@,
        forall|i: int, j: int| 0 <= i < j < r@.len() ==> #[trigger] r@[i].0 != #[trigger] r@[j].0,
        forall|k: usize| #[trigger] component_texts(*m).contains_key(k) ==> exists|i: int| 0 <= i < r@.len() && r@[i].0 == k,
{
    m.iter().map(|(k, v)| (*k, v.clone())).collect()
}

/// Calls `Default::default` of `FnvHashMap`: an empty map.
#[verifier::external_body]
pub(crate) fn new_string_map() -> (r: StringMap)
    ensures string_pairs(r) =~= Map::empty(),
{
    FnvHashMap::default()
}

/// Calls `HashMap::get` and clones what it finds: the value of `key`, if any.
#[verifier::external_body]
pub(crate) fn string_map_get(m: &StringMap, key: &str) -> (r: Option<String>)
    ensures
        match r {
            Some(v) => string_pairs(*m).contains_key(key@) && string_pairs(*m)[key@] == v@,
            None => !string_pairs(*m).contains_key(key@),
        },
{
    m.get(key).cloned()
}

/// Calls `HashMap::insert`: afterwards `key` maps to `value`, other keys as before.
#[verifier::external_body]
pub(crate) fn string_map_insert(m: &mut StringMap, key: String, value: String)
    ensures string_pairs(*final(m)) == string_pairs(*old(m)).insert(key@, value@),
{
    m.insert(key, value);
}

/// Calls `Default::default` of `FnvHashSet`: an empty set.
#[verifier::external_body]
pub(crate) fn new_string_set() -> (r: StringSet)
    ensures string_members(r) =~= Set::empty(),
{
    FnvHashSet::default()
}

/// Calls `HashSet::insert`: afterwards `value` is a member; answers whether it was not one
/// before.
#[verifier::external_body]
pub(crate) fn string_set_insert(s: &mut StringSet, value: String) -> (r: bool)
    ensures
        string_members(*final(s)) == string_members(*old(s)).insert(value@),
        r == !string_members(*old(s)).contains(value@),
{
    s.insert(value)
}

/// Calls `HashSet::remove`: afterwards `value` is not a member, the others stay.
#[verifier::external_body]
pub(crate) fn string_set_remove(s: &mut StringSet, value: &str)
    ensures string_members(*final(s)) == string_members(*old(s)).remove(value@),
{
    s.remove(value);
}

/// Calls `Default::default` of `FnvHashSet`: an empty set.
#[verifier::external_body]
pub(crate) fn new_object_set() -> (r: ObjectSet)
    ensures object_members(r) =~= Set::empty(),
{
    FnvHashSet::default()
}

/// Calls `HashSet::insert`: afterwards `value` is a member, the others stay.
#[verifier::external_body]
pub(crate) fn object_set_insert(s: &mut ObjectSet, value: usize)
    ensures object_members(*final(s)) == object_members(*old(s)).insert(value),
{
    s.insert(value);
}

/// Calls `HashSet::contains`: whether `value` is a member.
#[verifier::external_body]
pub(crate) fn object_set_contains(s: &ObjectSet, value: usize) -> (r: bool)
    ensures r == object_members(*s).contains(value),
{
    s.contains(&value)
}

/// Calls `HashSet::is_empty`: whether the set has no member.
#[verifier::external_body]
pub(crate) fn object_set_is_empty(s: &ObjectSet) -> (r: bool)
    ensures r == (object_members(*s) == Set::<usize>::empty()),
{
    s.is_empty()
}

/// Calls `HashSet::clear`: afterwards the set has no member.
#[verifier::external_body]
pub(crate) fn object_set_clear(s: &mut ObjectSet)
    ensures object_members(*final(s)) =~= Set::empty(),
{
    s.clear();
}

} // verus!
