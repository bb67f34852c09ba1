//! An explicit key-value abstraction over the per-key record lists that
//! the order and project stores keep: append an entry under a key, or
//! drop every copy of an entry from one key's list, leaving every other
//! key untouched.

use std::collections::HashMap;

use vstd::prelude::*;

verus! {

broadcast use vstd::std_specs::hash::group_hash_axioms, vstd::seq_lib::lemma_seq_contains_after_push, vstd::seq::Seq::lemma_filter_push, vstd::seq::Seq::lemma_take_succ_push;

/// The list an index holds under key `k`; empty when the key has no
/// entry yet.
pub open spec fn index_list<T>(m: Map<u64, Vec<T>>, k: u64) -> Seq<T> {
    if m.contains_key(k) {
        m[k]@
    } else {
        Seq::<T>::empty()
    }
}

/// `post` is `pre` with `x` appended to the list under `k` and every
/// other key's list untouched.
pub open spec fn index_appended<T>(
    pre: Map<u64, Vec<T>>,
    post: Map<u64, Vec<T>>,
    k: u64,
    x: T,
) -> bool {
    &&& post.contains_key(k)
    &&& post[k]@ == index_list(pre, k).push(x)
    &&& forall|a: u64| #[trigger] post.contains_key(a) ==> a == k || pre.contains_key(a)
    &&& forall|a: u64| #[trigger] pre.contains_key(a) ==> post.contains_key(a)
    &&& forall|a: u64| a != k && #[trigger] pre.contains_key(a) ==> post[a] == pre[a]
}

/// Keeps exactly the entries that differ from `x`.
pub open spec fn keep_all_but(x: u64) -> spec_fn(u64) -> bool {
    |y: u64| y != x
}

/// `post` is `pre` with every copy of `x` dropped from the list under
/// `k`, in order, and every other key's list untouched.
pub open spec fn index_removed(
    pre: Map<u64, Vec<u64>>,
    post: Map<u64, Vec<u64>>,
    k: u64,
    x: u64,
) -> bool {
    &&& post.contains_key(k)
    &&& post[k]@ == index_list(pre, k).filter(keep_all_but(x))
    &&& forall|a: u64| #[trigger] post.contains_key(a) ==> a == k || pre.contains_key(a)
    &&& forall|a: u64| #[trigger] pre.contains_key(a) ==> post.contains_key(a)
    &&& forall|a: u64| a != k && #[trigger] pre.contains_key(a) ==> post[a] == pre[a]
}

/// Appends `x` to the list under `k`, creating the list if the key has
/// none yet.
pub fn push_index<T>(m: &mut HashMap<u64, Vec<T>>, k: u64, x: T)
    ensures
        index_appended(old(m)@, final(m)@, k, x),
{
    let mut list: Vec<T> = match m.remove(&k) {
        Some(l) => l,
        None => Vec::new(),
    };
    list.push(x);
    m.insert(k, list);
}

/// Drops every copy of `x` from the list under `k`, creating an empty
/// list if the key has none yet.
pub fn remove_from_index(m: &mut HashMap<u64, Vec<u64>>, k: u64, x: u64)
    ensures
        index_removed(old(m)@, final(m)@, k, x),
{
    let list: Vec<u64> = match m.remove(&k) {
        Some(l) => l,
        None => Vec::new(),
    };
    let mut kept: Vec<u64> = Vec::new();
    let mut i: usize = 0;
    while i < list.len()
        invariant
            i <= list.len(),
            kept@ == list@.take(i as int).filter(keep_all_but(x)),
        decreases list.len() - i,
    {
        let y: u64 = list[i];
        if y != x {
            kept.push(y);
        }
        proof {
            assert(list@.take(i + 1 as int) == list@.take(i as int).push(list@[i as int]));
        }
        i = i + 1;
    }
    proof {
        assert(list@.take(list.len() as int) == list@);
    }
    m.insert(k, kept);
}

} // verus!
