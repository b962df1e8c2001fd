//! Ordering the keys of a task table.

use vstd::prelude::*;
use std::collections::HashMap;

verus! {

broadcast use vstd::std_specs::hash::group_hash_axioms;

/// The ids are in strictly increasing order.
pub open spec fn strictly_increasing(s: Seq<u32>) -> bool {
    forall|i: int, j: int| 0 <= i < j < s.len() ==> s[i] < s[j]
}

/// Inserts `k` into a strictly increasing list, unless it is there already.
fn insert_sorted(out: &mut Vec<u32>, k: u32)
    requires
        strictly_increasing(old(out)@),
    ensures
        strictly_increasing(final(out)@),
        forall|x: u32| final(out)@.contains(x) <==> (old(out)@.contains(x) || x == k),
{
    let mut p: usize = 0;
    while p < out.len() && out[p] < k
        invariant
            p <= out@.len(),
            out@ == old(out)@,
            strictly_increasing(out@),
            forall|i: int| 0 <= i < p ==> out@[i] < k,
        decreases out@.len() - p,
    {
        p = p + 1;
    }
    if p < out.len() && out[p] == k {
        assert(out@[p as int] == k);
        return;
    }
    let ghost before = out@;
    out.insert(p, k);
    assert(before == old(out)@);
    assert forall|x: u32| #[trigger] out@.contains(x) <==> (old(out)@.contains(x) || x == k) by {
        if before.contains(x) {
            let i = choose|i: int| 0 <= i < before.len() && before[i] == x;
            if i < p {
                assert(out@[i] == x);
            } else {
                assert(out@[i + 1] == x);
            }
        }
        if out@.contains(x) {
            let i = choose|i: int| 0 <= i < out@.len() && out@[i] == x;
            if i < p {
                assert(before[i] == x);
            } else if i > p {
                assert(before[i - 1] == x);
            }
        }
        if x == k {
            assert(out@[p as int] == k);
        }
    }
}

/// The keys of a map in increasing order.
pub fn sorted_keys<V>(m: &HashMap<u32, V>) -> (r: Vec<u32>)
    ensures
        strictly_increasing(r@),
        forall|k: u32| m@.contains_key(k) <==> r@.contains(k),
{
    let mut out: Vec<u32> = Vec::new();
    for k in it: m.keys()
        invariant
            strictly_increasing(out@),
            it.seq().unref().to_set() == m@.dom(),
            forall|x: u32| out@.contains(x) ==> m@.contains_key(x),
            forall|x: u32| m@.contains_key(x) && !out@.contains(x) ==>
                exists|j: int| it.index() <= j < it.seq().len() && *it.seq()[j] == x,
    {
        let kk: u32 = *k;
        insert_sorted(&mut out, kk);

    }

    out
}

} // verus!
