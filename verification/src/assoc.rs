//! A small association-list theory: lookup by key over a sequence of
//! key/value pairs with distinct keys, and how lookup changes under the
//! updates the store performs.

use vstd::prelude::*;

verus! {

/// The value stored under `key`, if any (first match).
pub open spec fn assoc<V>(s: Seq<(u64, V)>, key: u64) -> Option<V>
    decreases s.len(),
{
    if s.len() == 0 {
        None
    } else if s[0].0 == key {
        Some(s[0].1)
    } else {
        assoc(s.drop_first(), key)
    }
}

/// No two entries share a key.
pub open spec fn distinct_keys<V>(s: Seq<(u64, V)>) -> bool {
    forall|i: int, j: int|
        0 <= i < j < s.len() ==> (#[trigger] s[i]).0 != (#[trigger] s[j]).0
}

pub proof fn lemma_assoc_none<V>(s: Seq<(u64, V)>, key: u64)
    requires
        forall|i: int| 0 <= i < s.len() ==> (#[trigger] s[i]).0 != key,
    ensures
        assoc(s, key) is None,
    decreases s.len(),
{
    if s.len() > 0 {
        assert(s[0].0 != key);
        assert(forall|i: int|
            0 <= i < s.drop_first().len() ==> (#[trigger] s.drop_first()[i]).0 != key);
        lemma_assoc_none(s.drop_first(), key);
    }
}

pub proof fn lemma_assoc_at<V>(s: Seq<(u64, V)>, key: u64, i: int)
    requires
        distinct_keys(s),
        0 <= i < s.len(),
        s[i].0 == key,
    ensures
        assoc(s, key) == Some(s[i].1),
    decreases s.len(),
{
    if i == 0 {
    } else {
        assert(s[0].0 != key);
        assert(distinct_keys(s.drop_first()));
        assert(s.drop_first()[i - 1] == s[i]);
        lemma_assoc_at(s.drop_first(), key, i - 1);
    }
}

pub proof fn lemma_assoc_update<V>(s: Seq<(u64, V)>, i: int, v: V, key2: u64)
    requires
        distinct_keys(s),
        0 <= i < s.len(),
    ensures
        assoc(s.update(i, (s[i].0, v)), key2) == if key2 == s[i].0 {
            Some(v)
        } else {
            assoc(s, key2)
        },
        distinct_keys(s.update(i, (s[i].0, v))),
    decreases s.len(),
{
    let t = s.update(i, (s[i].0, v));
    assert(distinct_keys(t)) by {
        assert(forall|k: int| 0 <= k < t.len() ==> (#[trigger] t[k]).0 == s[k].0);
    }
    if i == 0 {
        assert(t.drop_first() =~= s.drop_first());
        if key2 != s[0].0 {
        }
    } else {
        assert(t[0] == s[0]);
        assert(t.drop_first() =~= s.drop_first().update(i - 1, (s[i].0, v)));
        assert(distinct_keys(s.drop_first()));
        assert(s.drop_first()[i - 1] == s[i]);
        lemma_assoc_update(s.drop_first(), i - 1, v, key2);
        if key2 == s[0].0 {
            assert(s[0].0 != s[i].0);
        }
    }
}

pub proof fn lemma_assoc_push<V>(s: Seq<(u64, V)>, key: u64, v: V, key2: u64)
    requires
        distinct_keys(s),
        forall|i: int| 0 <= i < s.len() ==> (#[trigger] s[i]).0 != key,
    ensures
        assoc(s.push((key, v)), key2) == if key2 == key {
            Some(v)
        } else {
            assoc(s, key2)
        },
        distinct_keys(s.push((key, v))),
    decreases s.len(),
{
    let t = s.push((key, v));
    assert(distinct_keys(t)) by {
        assert(forall|k: int| 0 <= k < s.len() ==> (#[trigger] t[k]).0 == s[k].0);
        assert(t[s.len() as int].0 == key);
    }
    if s.len() == 0 {
        assert(t[0] == (key, v));
        if key2 != key {
            assert(t.drop_first() =~= Seq::<(u64, V)>::empty());
        }
    } else {
        assert(t[0] == s[0]);
        assert(t.drop_first() =~= s.drop_first().push((key, v)));
        assert(distinct_keys(s.drop_first()));
        lemma_assoc_push(s.drop_first(), key, v, key2);
        assert(s[0].0 != key);
    }
}

pub proof fn lemma_assoc_remove<V>(s: Seq<(u64, V)>, i: int, key2: u64)
    requires
        distinct_keys(s),
        0 <= i < s.len(),
    ensures
        assoc(s.remove(i), key2) == if key2 == s[i].0 {
            None::<V>
        } else {
            assoc(s, key2)
        },
        distinct_keys(s.remove(i)),
    decreases s.len(),
{
    let t = s.remove(i);
    assert(distinct_keys(t)) by {
        assert(forall|k: int| 0 <= k < i ==> (#[trigger] t[k]).0 == s[k].0);
        assert(forall|k: int| i <= k < t.len() ==> (#[trigger] t[k]).0 == s[k + 1].0);
    }
    if i == 0 {
        assert(t =~= s.drop_first());
        if key2 == s[0].0 {
            assert(forall|k: int|
                0 <= k < s.drop_first().len() ==> (#[trigger] s.drop_first()[k]).0 != key2);
            lemma_assoc_none(s.drop_first(), key2);
        }
    } else {
        assert(t[0] == s[0]);
        assert(t.drop_first() =~= s.drop_first().remove(i - 1));
        assert(distinct_keys(s.drop_first()));
        assert(s.drop_first()[i - 1] == s[i]);
        lemma_assoc_remove(s.drop_first(), i - 1, key2);
        if key2 == s[0].0 {
            assert(s[0].0 != s[i].0);
        }
    }
}

/// Find the index of `key` in the list.
pub fn assoc_find<V>(v: &Vec<(u64, V)>, key: u64) -> (r: Option<usize>)
    ensures
        match r {
            Some(i) => i < v@.len() && v@[i as int].0 == key,
            None => forall|k: int| 0 <= k < v@.len() ==> (#[trigger] v@[k]).0 != key,
        },
{
    let mut i: usize = 0;
    while i < v.len()
        invariant
            0 <= i <= v@.len(),
            forall|k: int| 0 <= k < i ==> (#[trigger] v@[k]).0 != key,
        decreases v@.len() - i,
    {
        if v[i].0 == key {
            return Some(i);
        }
        i = i + 1;
    }
    None
}

} // verus!
