//! String-keyed association lists.
//!
//! Every mapping in the broker (polls by name, limiter state by scoped key,
//! user records by handle, presentations by id) is kept as a `Vec` of
//! key/value pairs whose keys are pairwise distinct, so that lookup, update
//! and removal can be reasoned about exactly.

use vstd::prelude::*;

verus! {

/// The value stored under key `k`, taking the first matching entry.
pub open spec fn lookup<V>(s: Seq<(String, V)>, k: Seq<char>) -> Option<V>
    decreases s.len(),
{
    if s.len() == 0 {
        None
    } else if s[0].0@ == k {
        Some(s[0].1)
    } else {
        lookup(s.drop_first(), k)
    }
}

pub open spec fn contains_key<V>(s: Seq<(String, V)>, k: Seq<char>) -> bool {
    lookup(s, k) is Some
}

/// No two entries share a key.
pub open spec fn unique_keys<V>(s: Seq<(String, V)>) -> bool {
    forall|i: int, j: int| 0 <= i < j < s.len() ==> s[i].0@ != s[j].0@
}

/// If entry `i` is the first whose key is `k`, the lookup returns it.
pub proof fn lemma_lookup_first_match<V>(s: Seq<(String, V)>, k: Seq<char>, i: int)
    requires
        0 <= i < s.len(),
        s[i].0@ == k,
        forall|j: int| 0 <= j < i ==> s[j].0@ != k,
    ensures
        lookup(s, k) == Some(s[i].1),
    decreases s.len(),
{
    if i > 0 {
        lemma_lookup_first_match(s.drop_first(), k, i - 1);
    }
}

/// If no entry has key `k`, the lookup fails.
pub proof fn lemma_lookup_no_match<V>(s: Seq<(String, V)>, k: Seq<char>)
    requires
        forall|j: int| 0 <= j < s.len() ==> s[j].0@ != k,
    ensures
        lookup(s, k) is None,
    decreases s.len(),
{
    if s.len() > 0 {
        lemma_lookup_no_match(s.drop_first(), k);
    }
}

/// A failed lookup means no entry has the key.
pub proof fn lemma_lookup_none_no_match<V>(s: Seq<(String, V)>, k: Seq<char>)
    requires
        lookup(s, k) is None,
    ensures
        forall|j: int| 0 <= j < s.len() ==> s[j].0@ != k,
    decreases s.len(),
{
    if s.len() > 0 {
        lemma_lookup_none_no_match(s.drop_first(), k);
        assert(forall|j: int| 1 <= j < s.len() ==> s[j] == s.drop_first()[j - 1]);
    }
}

/// A successful lookup points at some entry.
pub proof fn lemma_lookup_some_index<V>(s: Seq<(String, V)>, k: Seq<char>) -> (i: int)
    requires
        lookup(s, k) is Some,
    ensures
        0 <= i < s.len(),
        s[i].0@ == k,
        s[i].1 == lookup(s, k)->Some_0,
    decreases s.len(),
{
    if s[0].0@ == k {
        0
    } else {
        lemma_lookup_some_index(s.drop_first(), k) + 1
    }
}

/// Appending a fresh entry leaves other keys alone and binds its own.
pub proof fn lemma_lookup_push<V>(s: Seq<(String, V)>, p: (String, V), k: Seq<char>)
    ensures
        lookup(s.push(p), k) == if lookup(s, k) is Some {
            lookup(s, k)
        } else if p.0@ == k {
            Some(p.1)
        } else {
            None::<V>
        },
    decreases s.len(),
{
    if s.len() == 0 {
        let s1 = s.push(p);
        assert(s1[0] == p);
        assert(s1.drop_first() =~= Seq::<(String, V)>::empty());
        if p.0@ == k {
            assert(lookup(s1, k) == Some(p.1));
        } else {
            assert(lookup(s1, k) == lookup(s1.drop_first(), k));
            assert(lookup(Seq::<(String, V)>::empty(), k) is None);
        }
    } else {
        assert(s.push(p).drop_first() =~= s.drop_first().push(p));
        lemma_lookup_push(s.drop_first(), p, k);
    }
}

/// Replacing entry `i` in place rebinds that entry's key and nothing else.
pub proof fn lemma_lookup_update<V>(s: Seq<(String, V)>, i: int, p: (String, V), k: Seq<char>)
    requires
        unique_keys(s),
        0 <= i < s.len(),
        p.0@ == s[i].0@,
    ensures
        lookup(s.update(i, p), k) == if k == p.0@ {
            Some(p.1)
        } else {
            lookup(s, k)
        },
        unique_keys(s.update(i, p)),
    decreases s.len(),
{
    let s2 = s.update(i, p);
    assert(forall|a: int, b: int| 0 <= a < b < s2.len() ==> s2[a].0@ != s2[b].0@);
    if i == 0 {
        assert(s2.drop_first() =~= s.drop_first());
        if k == p.0@ {
        } else {
            assert(s2[0].0@ != k);
        }
    } else {
        assert(s2.drop_first() =~= s.drop_first().update(i - 1, p));
        lemma_lookup_update(s.drop_first(), i - 1, p, k);
        if k == p.0@ {
            assert(s[0].0@ != s[i].0@);
        }
    }
}

/// Removing entry `i` unbinds that entry's key and nothing else.
pub proof fn lemma_lookup_remove<V>(s: Seq<(String, V)>, i: int, k: Seq<char>)
    requires
        unique_keys(s),
        0 <= i < s.len(),
    ensures
        lookup(s.remove(i), k) == if k == s[i].0@ {
            None::<V>
        } else {
            lookup(s, k)
        },
        unique_keys(s.remove(i)),
    decreases s.len(),
{
    let s2 = s.remove(i);
    assert(forall|a: int, b: int| 0 <= a < b < s2.len() ==> s2[a].0@ != s2[b].0@) by {
        assert(forall|a: int| 0 <= a < s2.len() ==> s2[a] == if a < i {
            s[a]
        } else {
            s[a + 1]
        });
    }
    if i == 0 {
        if k == s[0].0@ {
            assert(forall|j: int| 0 <= j < s2.len() ==> s2[j] == s[j + 1]);
            assert(forall|j: int| 0 <= j < s2.len() ==> s2[j].0@ != k);
            lemma_lookup_no_match(s2, k);
        } else {
            assert(s2 =~= s.drop_first());
        }
    } else {
        assert(s2.drop_first() =~= s.drop_first().remove(i - 1));
        lemma_lookup_remove(s.drop_first(), i - 1, k);
        if k == s[i].0@ {
            assert(s[0].0@ != s[i].0@);
        }
    }
}

/// Index of the entry holding key `k`, if any.
pub fn kv_find<V>(v: &Vec<(String, V)>, k: &String) -> (r: Option<usize>)
    ensures
        match r {
            Some(i) => i < v@.len() && v@[i as int].0@ == k@ && lookup(v@, k@) == Some(
                v@[i as int].1,
            ),
            None => lookup(v@, k@) is None,
        },
{
    let n = v.len();
    for i in 0..n
        invariant
            n == v@.len(),
            forall|j: int| 0 <= j < i ==> v@[j].0@ != k@,
    {
        if v[i].0 == *k {
            proof {
                lemma_lookup_first_match(v@, k@, i as int);
            }
            return Some(i);
        }
    }
    proof {
        lemma_lookup_no_match(v@, k@);
    }
    None
}

/// Reference to the value under key `k`, if any.
pub fn kv_get<'a, V>(v: &'a Vec<(String, V)>, k: &String) -> (r: Option<&'a V>)
    ensures
        match r {
            Some(val) => lookup(v@, k@) == Some(*val),
            None => lookup(v@, k@) is None,
        },
{
    match kv_find(v, k) {
        Some(i) => Some(&v[i].1),
        None => None,
    }
}

/// Binds `k` to `val`, replacing any previous binding in place.
pub fn kv_set<V>(v: &mut Vec<(String, V)>, k: String, val: V)
    requires
        unique_keys(old(v)@),
    ensures
        unique_keys(final(v)@),
        lookup(final(v)@, k@) == Some(val),
        forall|k2: Seq<char>| k2 != k@ ==> lookup(final(v)@, k2) == lookup(old(v)@, k2),
        final(v)@.len() == if contains_key(old(v)@, k@) {
            old(v)@.len()
        } else {
            old(v)@.len() + 1
        },
        !contains_key(old(v)@, k@) ==> final(v)@ == old(v)@.push((k, val)),
        contains_key(old(v)@, k@) ==> exists|i: int|
            0 <= i < old(v)@.len() && old(v)@[i].0@ == k@ && final(v)@ == old(v)@.update(
                i,
                (k, val),
            ),
{
    let found = kv_find(v, &k);
    match found {
        Some(i) => {
            proof {
                lemma_lookup_update(v@, i as int, (k, val), k@);
                assert(forall|k2: Seq<char>|
                    k2 != k@ ==> lookup(v@.update(i as int, (k, val)), k2) == lookup(v@, k2)) by {
                    lemma_lookup_update_all(v@, i as int, (k, val));
                }
            }
            v[i] = (k, val);
        },
        None => {
            proof {
                let s = v@;
                let p = (k, val);
                assert(forall|k2: Seq<char>| #![all_triggers] lookup(s.push(p), k2) == if lookup(
                    s,
                    k2,
                ) is Some {
                    lookup(s, k2)
                } else if p.0@ == k2 {
                    Some(p.1)
                } else {
                    None::<V>
                }) by {
                    lemma_lookup_push_all(s, p);
                }
                assert(unique_keys(s.push(p))) by {
                    assert(forall|j: int| 0 <= j < s.len() ==> s[j].0@ != k@) by {
                        if exists|j: int| 0 <= j < s.len() && s[j].0@ == k@ {
                            let j = choose|j: int| 0 <= j < s.len() && s[j].0@ == k@;
                            let jf = first_index_with_key(s, k@, j);
                            lemma_lookup_first_match(s, k@, jf);
                        }
                    }
                }
            }
            v.push((k, val));
        },
    }
}

/// Removes the binding of `k` if there is one; reports whether one was there.
pub fn kv_remove<V>(v: &mut Vec<(String, V)>, k: &String) -> (r: bool)
    requires
        unique_keys(old(v)@),
    ensures
        unique_keys(final(v)@),
        r == contains_key(old(v)@, k@),
        lookup(final(v)@, k@) is None,
        forall|k2: Seq<char>| k2 != k@ ==> lookup(final(v)@, k2) == lookup(old(v)@, k2),
        final(v)@.len() == if contains_key(old(v)@, k@) {
            old(v)@.len() - 1
        } else {
            old(v)@.len() as int
        },
{
    let found = kv_find(v, k);
    match found {
        Some(i) => {
            proof {
                assert(forall|k2: Seq<char>| #![all_triggers] lookup(v@.remove(i as int), k2)
                    == if k2 == v@[i as int].0@ {
                    None::<V>
                } else {
                    lookup(v@, k2)
                }) by {
                    lemma_lookup_remove_all(v@, i as int);
                }
            }
            v.remove(i);
            true
        },
        None => false,
    }
}

/// The earliest index at or before `j` carrying key `k`.
proof fn first_index_with_key<V>(s: Seq<(String, V)>, k: Seq<char>, j: int) -> (i: int)
    requires
        0 <= j < s.len(),
        s[j].0@ == k,
    ensures
        0 <= i < s.len(),
        s[i].0@ == k,
        forall|m: int| 0 <= m < i ==> s[m].0@ != k,
    decreases j,
{
    if exists|m: int| 0 <= m < j && s[m].0@ == k {
        let m = choose|m: int| 0 <= m < j && s[m].0@ == k;
        first_index_with_key(s, k, m)
    } else {
        j
    }
}

proof fn lemma_lookup_push_all<V>(s: Seq<(String, V)>, p: (String, V))
    ensures
        forall|k2: Seq<char>| #![all_triggers] lookup(s.push(p), k2) == if lookup(s, k2) is Some {
            lookup(s, k2)
        } else if p.0@ == k2 {
            Some(p.1)
        } else {
            None::<V>
        },
{
    assert forall|k2: Seq<char>| #![all_triggers] lookup(s.push(p), k2) == if lookup(
        s,
        k2,
    ) is Some {
        lookup(s, k2)
    } else if p.0@ == k2 {
        Some(p.1)
    } else {
        None::<V>
    } by {
        lemma_lookup_push(s, p, k2);
    }
}

pub proof fn lemma_lookup_update_all<V>(s: Seq<(String, V)>, i: int, p: (String, V))
    requires
        unique_keys(s),
        0 <= i < s.len(),
        p.0@ == s[i].0@,
    ensures
        forall|k2: Seq<char>| k2 != p.0@ ==> lookup(s.update(i, p), k2) == lookup(s, k2),
{
    assert forall|k2: Seq<char>| k2 != p.0@ implies lookup(s.update(i, p), k2) == lookup(
        s,
        k2,
    ) by {
        lemma_lookup_update(s, i, p, k2);
    }
}

pub proof fn lemma_lookup_remove_all<V>(s: Seq<(String, V)>, i: int)
    requires
        unique_keys(s),
        0 <= i < s.len(),
    ensures
        forall|k2: Seq<char>| #![all_triggers] lookup(s.remove(i), k2) == if k2 == s[i].0@ {
            None::<V>
        } else {
            lookup(s, k2)
        },
{
    assert forall|k2: Seq<char>| #![all_triggers] lookup(s.remove(i), k2) == if k2 == s[i].0@ {
        None::<V>
    } else {
        lookup(s, k2)
    } by {
        lemma_lookup_remove(s, i, k2);
    }
}

} // verus!
