//! Lists of (key, value) entries: the value of a key is that of its first
//! entry.

use crate::messages::TaskId;
use vstd::prelude::*;

verus! {

/// A key whose equality is that of its view.
pub trait Key: View + Sized {
    fn same_key(&self, other: &Self) -> (r: bool)
        ensures
            r == (self@ == other@),
    ;
}

impl Key for TaskId {
    fn same_key(&self, other: &Self) -> (r: bool) {
        self.same_as(other)
    }
}

/// Whether entry `i` is the first entry of `key`.
pub open spec fn first_entry<K: Key, V>(entries: Seq<(K, V)>, key: K::V, i: int) -> bool {
    0 <= i < entries.len() && entries[i].0@ == key && forall|j: int|
        0 <= j < i ==> (#[trigger] entries[j]).0@ != key
}

/// The value stored for a key in a list of (key, value) entries: that of its
/// first entry.
pub open spec fn entry_lookup<K: Key, V>(entries: Seq<(K, V)>, key: K::V) -> Option<V> {
    if exists|i: int| #[trigger] first_entry(entries, key, i) {
        let i = choose|i: int| #[trigger] first_entry(entries, key, i);
        Some(entries[i].1)
    } else {
        None
    }
}

/// A key without entries has no value.
pub proof fn lemma_lookup_absent<K: Key, V>(entries: Seq<(K, V)>, key: K::V)
    requires
        forall|j: int| 0 <= j < entries.len() ==> (#[trigger] entries[j]).0@ != key,
    ensures
        entry_lookup(entries, key) is None,
{
}

/// The first entry of a key gives its value.
pub proof fn lemma_lookup_first<K: Key, V>(entries: Seq<(K, V)>, key: K::V, i: int)
    requires
        first_entry(entries, key, i),
    ensures
        entry_lookup(entries, key) == Some(entries[i].1),
{
    let k = choose|k: int| #[trigger] first_entry(entries, key, k);
    if k < i {
        assert(entries[k].0@ != key);
    }
    if i < k {
        assert(entries[i].0@ != key);
    }
}

/// An entry of a key implies a first entry of it.
pub proof fn lemma_first_exists<K: Key, V>(entries: Seq<(K, V)>, key: K::V, i: int)
    requires
        0 <= i < entries.len(),
        entries[i].0@ == key,
    ensures
        exists|k: int| #[trigger] first_entry(entries, key, k),
    decreases i,
{
    if forall|j: int| 0 <= j < i ==> (#[trigger] entries[j]).0@ != key {
        assert(first_entry(entries, key, i));
    } else {
        let j = choose|j: int| 0 <= j < i && (#[trigger] entries[j]).0@ == key;
        lemma_first_exists(entries, key, j);
    }
}

/// Changing or adding the entry at `i` to one of another key leaves the
/// lookup of `t` as it was.
pub proof fn lemma_lookup_other<K: Key, V>(
    pre: Seq<(K, V)>,
    post: Seq<(K, V)>,
    t: K::V,
    i: int,
)
    requires
        0 <= i <= pre.len(),
        post.len() as int == (if i == pre.len() {
            pre.len() + 1 as int
        } else {
            pre.len() as int
        }),
        post[i].0@ != t,
        forall|j: int| 0 <= j < pre.len() && j != i ==> post[j] == pre[j],
        i < pre.len() ==> pre[i].0@ != t,
    ensures
        entry_lookup(post, t) == entry_lookup(pre, t),
{
    if exists|k: int| #[trigger] first_entry(pre, t, k) {
        let k = choose|k: int| #[trigger] first_entry(pre, t, k);
        assert forall|j: int| 0 <= j < k implies (#[trigger] post[j]).0@ != t by {
            if j != i {
                assert(post[j] == pre[j]);
            }
        }
        assert(post[k] == pre[k]);
        lemma_lookup_first(post, t, k);
        lemma_lookup_first(pre, t, k);
    } else {
        assert forall|j: int| 0 <= j < pre.len() implies (#[trigger] pre[j]).0@ != t by {
            if pre[j].0@ == t {
                lemma_first_exists(pre, t, j);
            }
        }
        assert forall|j: int| 0 <= j < post.len() implies (#[trigger] post[j]).0@ != t by {
            if j != i {
                assert(post[j] == pre[j]);
            }
        }
        lemma_lookup_absent(post, t);
    }
}

/// Index of the first entry of `key`, if any.
pub fn find_entry<K: Key, V>(entries: &Vec<(K, V)>, key: &K) -> (r: Option<usize>)
    ensures
        match r {
            Some(i) => first_entry(entries@, key@, i as int) && entry_lookup(entries@, key@)
                == Some(entries@[i as int].1),
            None => entry_lookup(entries@, key@) is None && forall|j: int|
                0 <= j < entries@.len() ==> (#[trigger] entries@[j]).0@ != key@,
        },
{
    let mut i: usize = 0;
    while i < entries.len()
        invariant
            i <= entries@.len(),
            forall|j: int| 0 <= j < i ==> (#[trigger] entries@[j]).0@ != key@,
        decreases entries@.len() - i,
    {
        if entries[i].0.same_key(key) {
            proof {
                lemma_lookup_first(entries@, key@, i as int);
            }
            return Some(i);
        }
        i += 1;
    }
    proof {
        lemma_lookup_absent(entries@, key@);
    }
    None
}

/// Replace or add the value of a key.
pub fn set_entry<K: Key + Copy, V>(entries: &mut Vec<(K, V)>, key: &K, value: V)
    ensures
        entry_lookup(final(entries)@, key@) == Some(value),
        forall|t: K::V|
            t != key@ ==> entry_lookup(final(entries)@, t) == entry_lookup(old(entries)@, t),
        forall|j: int|
            0 <= j < final(entries)@.len() ==> (j < old(entries)@.len() && (#[trigger] final(entries)@[j])
                == old(entries)@[j]) || final(entries)@[j] == (*key, value),
{
    let ghost pre = entries@;
    match find_entry(entries, key) {
        Some(i) => {
            entries.set(i, (*key, value));
            proof {
                assert forall|j: int| 0 <= j < i implies (#[trigger] entries@[j]).0@ != key@ by {
                    assert(entries@[j] == pre[j]);
                }
                lemma_lookup_first(entries@, key@, i as int);
                assert forall|t: K::V| t != key@ implies entry_lookup(entries@, t)
                    == entry_lookup(pre, t) by {
                    lemma_lookup_other(pre, entries@, t, i as int);
                }
            }
        },
        None => {
            entries.push((*key, value));
            proof {
                assert forall|j: int| 0 <= j < pre.len() implies (#[trigger] entries@[j]).0@
                    != key@ by {
                    assert(entries@[j] == pre[j]);
                }
                lemma_lookup_first(entries@, key@, pre.len() as int);
                assert forall|t: K::V| t != key@ implies entry_lookup(entries@, t)
                    == entry_lookup(pre, t) by {
                    lemma_lookup_other(pre, entries@, t, pre.len() as int);
                }
            }
        },
    }
}

} // verus!
