//! Walking hash maps and sets that are keyed by integers.

use std::collections::{HashMap, HashSet};

use vstd::prelude::*;
use vstd::std_specs::hash::*;

verus! {

broadcast use group_hash_axioms;

/// The first position at or after `from` whose element satisfies `p`.
pub open spec fn first_from<T>(s: Seq<T>, p: spec_fn(T) -> bool, from: int) -> Option<int>
    decreases s.len() - from,
{
    if from < 0 || from >= s.len() {
        None
    } else if p(s[from]) {
        Some(from)
    } else {
        first_from(s, p, from + 1)
    }
}

/// The first position whose element satisfies `p`.
pub open spec fn first_where<T>(s: Seq<T>, p: spec_fn(T) -> bool) -> Option<int> {
    first_from(s, p, 0)
}

proof fn lemma_first_from<T>(s: Seq<T>, p: spec_fn(T) -> bool, from: int)
    requires
        0 <= from <= s.len(),
    ensures
        match first_from(s, p, from) {
            Some(i) => from <= i < s.len() && p(s[i]) && forall|j: int|
                from <= j < i ==> !p(#[trigger] s[j]),
            None => forall|j: int| from <= j < s.len() ==> !p(#[trigger] s[j]),
        },
    decreases s.len() - from,
{
    if from < s.len() && !p(s[from]) {
        lemma_first_from(s, p, from + 1);
    }
}

/// A first position is one: its element satisfies `p`, no earlier one does,
/// and where there is none no element does.
pub proof fn first_where_is_first<T>(s: Seq<T>, p: spec_fn(T) -> bool)
    ensures
        match first_where(s, p) {
            Some(i) => 0 <= i < s.len() && p(s[i]) && forall|j: int|
                0 <= j < i ==> !p(#[trigger] s[j]),
            None => forall|j: int| 0 <= j < s.len() ==> !p(#[trigger] s[j]),
        },
{
    lemma_first_from(s, p, 0);
}

/// The keys of a map, each once, in no particular order.
pub fn map_keys<V>(map: &HashMap<u32, V>) -> (r: Vec<u32>)
    ensures
        r@.no_duplicates(),
        r@.to_set() == map@.dom(),
        r@.len() == map@.dom().len(),
{
    let mut out: Vec<u32> = Vec::new();
    for key in it: map.keys()
        invariant
            it.seq().unref().to_set() == map@.dom(),
            it.seq().no_duplicates(),
            it.seq().len() == map@.dom().len(),
            out@ == it.seq().unref().subrange(0, it.index() as int),
            it.index() == it.seq().len() ==> out@ == it.seq().unref(),
    {
        out.push(*key);
        assert(it.seq().unref().subrange(0, it.index() + 1) =~= it.seq().unref().subrange(
            0,
            it.index() as int,
        ).push(*key));
    }
    out
}

/// The members of a set, each once, in no particular order.
pub fn set_members(set: &HashSet<u32>) -> (r: Vec<u32>)
    ensures
        r@.no_duplicates(),
        r@.to_set() == set@,
        r@.len() == set@.len(),
{
    let mut out: Vec<u32> = Vec::new();
    for key in it: set.iter()
        invariant
            it.seq().unref().to_set() == set@,
            it.seq().no_duplicates(),
            it.seq().len() == set@.len(),
            out@ == it.seq().unref().subrange(0, it.index() as int),
            it.index() == it.seq().len() ==> out@ == it.seq().unref(),
    {
        out.push(*key);
        assert(it.seq().unref().subrange(0, it.index() + 1) =~= it.seq().unref().subrange(
            0,
            it.index() as int,
        ).push(*key));
    }
    out
}

} // verus!
