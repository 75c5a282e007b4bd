//! The fighter catalog: a lookup from fighter identifier to `Fighter`
//! template data, held in treeflection's `KeyedContextVec`.
//!
//! The collection is opaque to verification; its contents are named as the
//! ordered sequence of key/value pairs it holds, and the one lookup the
//! engine performs is trusted to return the first pair whose key matches.

use vstd::prelude::*;
use treeflection::KeyedContextVec;
use crate::fighter::Fighter;

verus! {

#[verifier::external_type_specification]
#[verifier::external_body]
#[verifier::reject_recursive_types(T)]
pub struct ExKeyedContextVec<T>(KeyedContextVec<T>);

/// The ordered key/value pairs a fighter catalog holds.
pub uninterp spec fn kcv_pairs(v: KeyedContextVec<Fighter>) -> Seq<(Seq<char>, Fighter)>;

/// First-match lookup over a sequence of key/value pairs: the value of the
/// first pair whose key equals `key`, if any.
pub open spec fn kcv_lookup(pairs: Seq<(Seq<char>, Fighter)>, key: Seq<char>) -> Option<Fighter>
    decreases pairs.len(),
{
    if pairs.len() == 0 {
        None
    } else if pairs[0].0 == key {
        Some(pairs[0].1)
    } else {
        kcv_lookup(pairs.drop_first(), key)
    }
}

/// Relies on treeflection's `KeyedContextVec::key_to_value`: it walks the
/// stored values zipped with their keys in insertion order and returns the
/// first value whose key equals the search key, or nothing when no key
/// matches.
#[verifier::external_body]
pub(crate) fn kcv_key_to_value<'a>(v: &'a KeyedContextVec<Fighter>, key: &str) -> (r: Option<
    &'a Fighter,
>)
    ensures
        match r {
            Some(f) => kcv_lookup(kcv_pairs(*v), key@) == Some(*f),
            None => kcv_lookup(kcv_pairs(*v), key@) is None,
        },
{
    v.key_to_value(key)
}

} // verus!
