use vstd::prelude::*;

use crate::common::ID;

verus! {

broadcast use vstd::seq_lib::group_seq_properties;

/// The value of the last entry with key `k` in a list of key/value entries.
pub open spec fn lookup<K, V>(s: Seq<(K, V)>, k: K) -> Option<V>
    decreases s.len(),
{
    if s.len() == 0 {
        None
    } else if s.last().0 == k {
        Some(s.last().1)
    } else {
        lookup(s.drop_last(), k)
    }
}

pub proof fn lemma_lookup_push<K, V>(s: Seq<(K, V)>, e: (K, V), k: K)
    ensures
        lookup(s.push(e), k) == if e.0 == k { Some(e.1) } else { lookup(s, k) },
{
    assert(s.push(e).drop_last() =~= s);
}

/// A lookup that found its key found it in some entry of the list.
pub proof fn lemma_lookup_found<K, V>(s: Seq<(K, V)>, k: K)
    ensures
        lookup(s, k) matches Some(v) ==> s.contains((k, v)),
        lookup(s, k) is None ==> forall|i: int| 0 <= i < s.len() ==> s[i].0 != k,
    decreases s.len(),
{
    if s.len() > 0 {
        lemma_lookup_found(s.drop_last(), k);
        if s.last().0 == k {
            assert(s[s.len() - 1] == s.last());
        } else {
            assert forall|i: int| 0 <= i < s.len() && lookup(s, k) is None implies s[i].0 != k by {
                if i < s.len() - 1 {
                    assert(s[i] == s.drop_last()[i]);
                }
            }
            if lookup(s, k) is Some {
                let v = lookup(s, k)->0;
                let i = choose|i: int| 0 <= i < s.drop_last().len() && s.drop_last()[i] == (k, v);
                assert(s[i] == (k, v));
            }
        }
    }
}

pub open spec fn key_other_than<V>(k: ID) -> spec_fn((ID, V)) -> bool {
    |e: (ID, V)| e.0 != k
}

/// The entries of a list whose key is not `k`, in order.
pub open spec fn without_key<V>(s: Seq<(ID, V)>, k: ID) -> Seq<(ID, V)> {
    s.filter(key_other_than::<V>(k))
}

pub proof fn lemma_lookup_without_key<V>(s: Seq<(ID, V)>, k: ID, q: ID)
    ensures
        lookup(without_key(s, k), q) == if q == k { None } else { lookup(s, q) },
    decreases s.len(),
{
    reveal(Seq::filter);
    if s.len() > 0 {
        lemma_lookup_without_key(s.drop_last(), k, q);
        let f = s.drop_last().filter(key_other_than::<V>(k));
        if s.last().0 != k {
            lemma_lookup_push(f, s.last(), q);
        }
    }
}

/// The value under key `k` in a list of entries keyed by ids.
pub fn get_key<V>(v: &Vec<(ID, V)>, k: ID) -> (r: Option<&V>)
    ensures
        r matches Some(x) ==> lookup(v@, k) == Some(*x),
        r is None ==> lookup(v@, k) is None,
{
    let n: usize = v.len();
    let mut found: Option<&V> = None;
    let mut i: usize = 0;
    while i < n
        invariant
            n == v@.len(),
            i <= n,
            found matches Some(x) ==> lookup(v@.take(i as int), k) == Some(*x),
            found is None ==> lookup(v@.take(i as int), k) is None,
        decreases n - i,
    {
        assert(v@.take(i as int + 1).drop_last() =~= v@.take(i as int));
        if v[i].0 == k {
            found = Some(&v[i].1);
        }
        i = i + 1;
    }
    assert(v@.take(n as int) =~= v@);
    found
}

/// Removes every entry with key `k`, keeping the order of the rest.
pub fn remove_key<V>(v: &mut Vec<(ID, V)>, k: ID)
    ensures
        final(v)@ == without_key(old(v)@, k),
{
    let ghost orig = v@;
    let n: usize = v.len();
    let mut i: usize = 0;
    let mut j: usize = 0;
    while j < n
        invariant
            n == orig.len(),
            j <= n,
            i <= j,
            i == without_key(orig.take(j as int), k).len(),
            v@ == without_key(orig.take(j as int), k) + orig.skip(j as int),
        decreases n - j,
    {
        let ghost pre = without_key(orig.take(j as int), k);
        proof {
            assert(orig.take(j as int + 1) == orig.take(j as int).push(orig[j as int]));
            orig.take(j as int).lemma_filter_push(orig[j as int], key_other_than::<V>(k));
            assert(v@[i as int] == orig[j as int]);
        }
        if v[i].0 == k {
            let _ = v.remove(i);
            assert(v@ =~= pre + orig.skip(j as int + 1));
        } else {
            assert(v@ =~= pre.push(orig[j as int]) + orig.skip(j as int + 1));
            i = i + 1;
        }
        j = j + 1;
    }
    assert(orig.take(n as int) =~= orig);
    assert(orig.skip(n as int) =~= Seq::<(ID, V)>::empty());
    assert(v@ =~= without_key(orig, k));
}

} // verus!
