//! Association lists standing in for string-keyed maps: lookup by key,
//! uniqueness of keys, and exact copies.

use vstd::prelude::*;

verus! {

/// Keys of an association list are pairwise distinct.
pub open spec fn kv_keys_unique<V>(s: Seq<(String, V)>) -> bool {
    forall|i: int, j: int| 0 <= i < j < s.len() ==> s[i].0@ != s[j].0@
}

/// The value of the first entry with key `k`, if any.
pub open spec fn kv_first_value<V>(s: Seq<(String, V)>, k: Seq<char>) -> Option<V>
    decreases s.len(),
{
    if s.len() == 0 {
        None
    } else if s[0].0@ == k {
        Some(s[0].1)
    } else {
        kv_first_value(s.drop_first(), k)
    }
}

/// Skipping a prefix without the key does not change the first value.
proof fn lemma_kv_first_value_skip<V>(s: Seq<(String, V)>, k: Seq<char>, i: int)
    requires
        0 <= i <= s.len(),
        forall|j: int| 0 <= j < i ==> s[j].0@ != k,
    ensures
        kv_first_value(s, k) == kv_first_value(s.skip(i), k),
    decreases i,
{
    if i > 0 {
        lemma_kv_first_value_skip::<V>(s, k, i - 1);
        assert(s.skip(i - 1).len() > 0);
        assert(s.skip(i - 1)[0] == s[i - 1]);
        assert(s.skip(i - 1).drop_first() =~= s.skip(i));
    } else {
        assert(s.skip(0) =~= s);
    }
}

/// The value of the first entry with key `key`, if any.
pub fn kv_get<'a>(entries: &'a Vec<(String, String)>, key: &String) -> (r: Option<&'a String>)
    ensures
        match r {
            Some(v) => kv_first_value(entries@, key@) == Some(*v),
            None => kv_first_value(entries@, key@) is None,
        },
{
    let n = entries.len();
    let mut i: usize = 0;
    while i < n
        invariant
            n == entries@.len(),
            i <= n,
            forall|j: int| 0 <= j < i ==> entries@[j].0@ != key@,
        decreases n - i,
    {
        let entry = &entries[i];
        if entry.0 == *key {
            proof {
                lemma_kv_first_value_skip(entries@, key@, i as int);
                assert(entries@.skip(i as int)[0] == entries@[i as int]);
            }
            return Some(&entry.1);
        }
        i += 1;
    }
    proof {
        lemma_kv_first_value_skip(entries@, key@, n as int);
        assert(entries@.skip(n as int).len() == 0);
    }
    None
}

/// An exact copy of a list of string pairs.
pub fn copy_string_pairs(v: &Vec<(String, String)>) -> (r: Vec<(String, String)>)
    ensures
        r@ == v@,
{
    let mut r: Vec<(String, String)> = Vec::new();
    let n = v.len();
    let mut i: usize = 0;
    while i < n
        invariant
            n == v@.len(),
            i <= n,
            r@ =~= v@.take(i as int),
        decreases n - i,
    {
        let entry = &v[i];
        r.push((entry.0.clone(), entry.1.clone()));
        i += 1;
    }
    proof {
        assert(v@.take(n as int) =~= v@);
    }
    r
}

/// An exact copy of a list of named numbers.
pub fn copy_string_i32_pairs(v: &Vec<(String, i32)>) -> (r: Vec<(String, i32)>)
    ensures
        r@ == v@,
{
    let mut r: Vec<(String, i32)> = Vec::new();
    let n = v.len();
    let mut i: usize = 0;
    while i < n
        invariant
            n == v@.len(),
            i <= n,
            r@ =~= v@.take(i as int),
        decreases n - i,
    {
        let entry = &v[i];
        r.push((entry.0.clone(), entry.1));
        i += 1;
    }
    proof {
        assert(v@.take(n as int) =~= v@);
    }
    r
}

/// An exact copy of a list of strings.
pub fn copy_strings(v: &Vec<String>) -> (r: Vec<String>)
    ensures
        r@ == v@,
{
    let mut r: Vec<String> = Vec::new();
    let n = v.len();
    let mut i: usize = 0;
    while i < n
        invariant
            n == v@.len(),
            i <= n,
            r@ =~= v@.take(i as int),
        decreases n - i,
    {
        r.push(v[i].clone());
        i += 1;
    }
    proof {
        assert(v@.take(n as int) =~= v@);
    }
    r
}

} // verus!
