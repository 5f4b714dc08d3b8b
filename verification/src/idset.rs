use vstd::prelude::*;

use crate::common::ID;

verus! {

broadcast use vstd::seq_lib::group_seq_properties;

/// The ids of a list other than `id`, in order.
pub open spec fn without(s: Seq<ID>, id: ID) -> Seq<ID> {
    s.filter(other_than(id))
}

pub open spec fn other_than(id: ID) -> spec_fn(ID) -> bool {
    |x: ID| x != id
}

pub proof fn lemma_without_contains(s: Seq<ID>, id: ID)
    ensures
        forall|x: ID| #[trigger] without(s, id).contains(x) <==> (s.contains(x) && x != id),
{
    assert forall|x: ID| #[trigger] without(s, id).contains(x) <==> (s.contains(x) && x != id) by {
        if s.contains(x) && x != id {
            let i = choose|i: int| 0 <= i < s.len() && s[i] == x;
            s.lemma_filter_contains(other_than(id), i);
        }
        if without(s, id).contains(x) {
            s.lemma_filter_contains_rev(other_than(id), x);
        }
    }
}

pub fn contains_id(v: &Vec<ID>, id: ID) -> (b: bool)
    ensures
        b == v@.contains(id),
{
    let n: usize = v.len();
    let mut i: usize = 0;
    while i < n
        invariant
            n == v@.len(),
            i <= n,
            forall|j: int| 0 <= j < i ==> v@[j] != id,
        decreases n - i,
    {
        if v[i] == id {
            return true;
        }
        i = i + 1;
    }
    false
}

/// Adds an id to a list of ids unless it is already there.
pub fn insert_id(v: &mut Vec<ID>, id: ID)
    ensures
        final(v)@ == if old(v)@.contains(id) { old(v)@ } else { old(v)@.push(id) },
        final(v)@.contains(id),
        forall|x: ID| #[trigger] final(v)@.contains(x) <==> (old(v)@.contains(x) || x == id),
{
    if !contains_id(v, id) {
        v.push(id);
        assert(final(v)@.last() == id);
    }
}

/// Removes every occurrence of an id from a list of ids, keeping the order of the rest.
pub fn remove_id(v: &mut Vec<ID>, id: ID)
    ensures
        final(v)@ == without(old(v)@, id),
        !final(v)@.contains(id),
        forall|x: ID| #[trigger] final(v)@.contains(x) <==> (old(v)@.contains(x) && x != id),
{
    let n: usize = v.len();
    let mut kept: Vec<ID> = Vec::new();
    let mut i: usize = 0;
    while i < n
        invariant
            n == v@.len(),
            i <= n,
            kept@ == without(v@.take(i as int), id),
        decreases n - i,
    {
        let x: ID = v[i];
        assert(v@.take(i as int + 1) == v@.take(i as int).push(x));
        proof {
            v@.take(i as int).lemma_filter_push(x, other_than(id));
        }
        if x != id {
            kept.push(x);
        }
        i = i + 1;
    }
    assert(v@.take(n as int) == v@);
    proof {
        lemma_without_contains(old(v)@, id);
    }
    *v = kept;
}

} // verus!

verus! {

/// What a list with one more id holds.
pub proof fn lemma_push_contains(s: Seq<ID>, x: ID)
    ensures
        forall|k: ID| #[trigger] s.push(x).contains(k) <==> (s.contains(k) || k == x),
{
    assert forall|k: ID| #[trigger] s.push(x).contains(k) <==> (s.contains(k) || k == x) by {
        if s.contains(k) {
            let w = choose|w: int| 0 <= w < s.len() && s[w] == k;
            assert(s.push(x)[w] == k);
        }
        if k == x {
            assert(s.push(x)[s.len() as int] == k);
        }
        if s.push(x).contains(k) {
            let w = choose|w: int| 0 <= w < s.len() + 1 && s.push(x)[w] == k;
            if w < s.len() {
                assert(s[w] == k);
            }
        }
    }
}

} // verus!
