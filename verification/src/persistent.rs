//! The persistent containers of the `im` crate, as far as a scope uses them.
//!
//! Nothing in this file is proved. Each function hands one call on to `im`
//! (or to `Arc`) and states what that call does to the contents of the
//! container, which are named by [`tag_entries`], [`extra_entries`] and
//! [`breadcrumb_items`]. Every version of a container is a value of its own:
//! no call here changes a container that already exists.

use std::sync::Arc;
use vstd::prelude::*;

use crate::payload::{Breadcrumb, Value};

verus! {

/// `im::HashMap`, a hash array mapped trie whose versions share structure.
#[verifier::external_type_specification]
#[verifier::external_body]
#[verifier::reject_recursive_types(K)]
#[verifier::reject_recursive_types(V)]
#[verifier::reject_recursive_types(S)]
pub struct ExPersistentMap<K, V, S>(im::HashMap<K, V, S>);

/// `im::Vector`, a bitmapped vector trie whose versions share structure.
#[verifier::external_type_specification]
#[verifier::external_body]
#[verifier::reject_recursive_types(A)]
pub struct ExPersistentVector<A>(im::Vector<A>);

/// The tags that a map holds: for each key the value last inserted under it
/// and not removed since. Keys and values are taken by their characters.
pub uninterp spec fn tag_entries(m: im::HashMap<String, String>) -> Map<Seq<char>, Seq<char>>;

/// The extra data that a map holds: for each key the value last inserted
/// under it and not removed since. Keys are taken by their characters.
pub uninterp spec fn extra_entries(m: im::HashMap<String, Value>) -> Map<Seq<char>, Value>;

/// The breadcrumbs that a vector holds, oldest first.
pub uninterp spec fn breadcrumb_items(v: im::Vector<Breadcrumb>) -> Seq<Breadcrumb>;

/// `Arc::clone`: a second handle to the same value.
#[verifier::external_body]
pub(crate) fn share<T>(a: &Arc<T>) -> (r: Arc<T>)
    ensures
        r == *a,
{
    a.clone()
}

/// `im::HashMap::new`: a map without entries.
#[verifier::external_body]
pub(crate) fn tags_new() -> (r: im::HashMap<String, String>)
    ensures
        tag_entries(r) == (Map::<Seq<char>, Seq<char>>::empty()),
{
    im::HashMap::new()
}

/// `im::HashMap::clone`: the same entries, in a map that shares its nodes
/// with `m`.
#[verifier::external_body]
pub(crate) fn tags_clone(m: &im::HashMap<String, String>) -> (r: im::HashMap<String, String>)
    ensures
        tag_entries(r) == tag_entries(*m),
{
    m.clone()
}

/// `im::HashMap::insert`: a new map with `value` under `key`, in place of
/// what `m` had there, and the other entries of `m`.
#[verifier::external_body]
pub(crate) fn tags_insert(m: &im::HashMap<String, String>, key: String, value: String) -> (r:
    im::HashMap<String, String>)
    ensures
        tag_entries(r) == tag_entries(*m).insert(key@, value@),
{
    m.insert(key, value)
}

/// `im::HashMap::remove`: a new map with the entries of `m` but the one
/// under `key`.
#[verifier::external_body]
pub(crate) fn tags_remove(m: &im::HashMap<String, String>, key: &str) -> (r: im::HashMap<
    String,
    String,
>)
    ensures
        tag_entries(r) == tag_entries(*m).remove(key@),
{
    m.remove(key)
}

/// `im::HashMap::get`: the value under `key`, if there is one.
#[verifier::external_body]
pub(crate) fn tags_get(m: &im::HashMap<String, String>, key: &str) -> (r: Option<Arc<String>>)
    ensures
        r.is_some() == tag_entries(*m).contains_key(key@),
        r matches Some(value) ==> value@ == tag_entries(*m)[key@],
{
    m.get(key)
}

/// `im::HashMap::is_empty`: whether the map is without entries.
#[verifier::external_body]
pub(crate) fn tags_is_empty(m: &im::HashMap<String, String>) -> (r: bool)
    ensures
        r <==> forall|key: Seq<char>| !tag_entries(*m).contains_key(key),
{
    m.is_empty()
}

/// `im::HashMap::new`: a map without entries.
#[verifier::external_body]
pub(crate) fn extra_new() -> (r: im::HashMap<String, Value>)
    ensures
        extra_entries(r) == (Map::<Seq<char>, Value>::empty()),
{
    im::HashMap::new()
}

/// `im::HashMap::clone`: the same entries, in a map that shares its nodes
/// with `m`.
#[verifier::external_body]
pub(crate) fn extra_clone(m: &im::HashMap<String, Value>) -> (r: im::HashMap<String, Value>)
    ensures
        extra_entries(r) == extra_entries(*m),
{
    m.clone()
}

/// `im::HashMap::insert`: a new map with `value` under `key`, in place of
/// what `m` had there, and the other entries of `m`.
#[verifier::external_body]
pub(crate) fn extra_insert(m: &im::HashMap<String, Value>, key: String, value: Value) -> (r:
    im::HashMap<String, Value>)
    ensures
        extra_entries(r) == extra_entries(*m).insert(key@, value),
{
    m.insert(key, value)
}

/// `im::HashMap::remove`: a new map with the entries of `m` but the one
/// under `key`.
#[verifier::external_body]
pub(crate) fn extra_remove(m: &im::HashMap<String, Value>, key: &str) -> (r: im::HashMap<
    String,
    Value,
>)
    ensures
        extra_entries(r) == extra_entries(*m).remove(key@),
{
    m.remove(key)
}

/// `im::HashMap::get`: the value under `key`, if there is one.
#[verifier::external_body]
pub(crate) fn extra_get(m: &im::HashMap<String, Value>, key: &str) -> (r: Option<Arc<Value>>)
    ensures
        r.is_some() == extra_entries(*m).contains_key(key@),
        r matches Some(value) ==> *value == extra_entries(*m)[key@],
{
    m.get(key)
}

/// `im::HashMap::is_empty`: whether the map is without entries.
#[verifier::external_body]
pub(crate) fn extra_is_empty(m: &im::HashMap<String, Value>) -> (r: bool)
    ensures
        r <==> forall|key: Seq<char>| !extra_entries(*m).contains_key(key),
{
    m.is_empty()
}

/// `im::Vector::new`: a vector without items.
#[verifier::external_body]
pub(crate) fn breadcrumbs_new() -> (r: im::Vector<Breadcrumb>)
    ensures
        breadcrumb_items(r) == Seq::<Breadcrumb>::empty(),
{
    im::Vector::new()
}

/// `im::Vector::clone`: the same items, in a vector that shares its nodes
/// with `v`.
#[verifier::external_body]
pub(crate) fn breadcrumbs_clone(v: &im::Vector<Breadcrumb>) -> (r: im::Vector<Breadcrumb>)
    ensures
        breadcrumb_items(r) == breadcrumb_items(*v),
{
    v.clone()
}

/// `im::Vector::push_back`: a new vector with the items of `v` and then
/// `item`.
#[verifier::external_body]
pub(crate) fn breadcrumbs_push_back(v: &im::Vector<Breadcrumb>, item: Breadcrumb) -> (r:
    im::Vector<Breadcrumb>)
    ensures
        breadcrumb_items(r) == breadcrumb_items(*v).push(item),
{
    v.push_back(item)
}

/// `im::Vector::len`: how many items the vector holds.
#[verifier::external_body]
pub(crate) fn breadcrumbs_len(v: &im::Vector<Breadcrumb>) -> (r: usize)
    ensures
        r == breadcrumb_items(*v).len(),
{
    v.len()
}

/// `im::Vector::get`: the item at `index`, counted from the oldest, or
/// nothing where the vector is shorter.
#[verifier::external_body]
pub(crate) fn breadcrumbs_get(v: &im::Vector<Breadcrumb>, index: usize) -> (r: Option<
    Arc<Breadcrumb>,
>)
    ensures
        r.is_some() == (index < breadcrumb_items(*v).len()),
        r matches Some(item) ==> *item == breadcrumb_items(*v)[index as int],
{
    v.get(index)
}

} // verus!
