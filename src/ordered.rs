use std::collections::HashMap;
use vstd::prelude::*;
use vstd::std_specs::iter::IteratorSpec;

verus! {

broadcast use vstd::std_specs::hash::group_hash_axioms;

/// `s` is in strictly ascending order.
pub open spec fn strictly_ascending(s: Seq<u32>) -> bool {
    forall|i: int, j: int| 0 <= i < j < s.len() ==> s[i] < s[j]
}

/// Adding the key `k` just read keeps the collected keys equal, as a set,
/// to the keys read so far.
proof fn lemma_push_seen(seen: Seq<&u32>, before: Seq<u32>, after: Seq<u32>, k: &u32)
    requires
        forall|x: u32| before.contains(x) <==> seen.unref().contains(x),
        forall|x: u32| after.contains(x) <==> (before.contains(x) || x == *k),
    ensures
        forall|x: u32| after.contains(x) <==> seen.push(k).unref().contains(x),
{
    let s2 = seen.push(k).unref();
    assert forall|x: u32| after.contains(x) <==> s2.contains(x) by {
        if seen.unref().contains(x) {
            let j = choose|j: int| 0 <= j < seen.len() && seen.unref()[j] == x;
            assert(s2[j] == x);
        }
        if s2.contains(x) {
            let j = choose|j: int| 0 <= j < seen.len() + 1 && s2[j] == x;
            if j < seen.len() {
                assert(seen.unref()[j] == x);
            }
        }
        assert(s2[seen.len() as int] == *k);
    }
}

/// The keys of `m`, in strictly ascending order.
pub fn sorted_keys<V>(m: &HashMap<u32, V>) -> (r: Vec<u32>)
    ensures
        strictly_ascending(r@),
        forall|k: u32| r@.contains(k) <==> m@.contains_key(k),
{
    let mut out: Vec<u32> = Vec::new();
    for kr in it: m.keys()
        invariant
            it.seq() == vstd::std_specs::hash::spec_keys_iter(m).remaining(),
            strictly_ascending(out@),
            forall|x: u32| out@.contains(x) <==> it.history().unref().contains(x),
            it.index() == it.seq().len() ==> it.history().unref() =~= it.seq().unref(),
            forall|x: u32| it.seq().unref().contains(x) <==> m@.contains_key(x),
    {
        let k: u32 = *kr;
        let ghost seen = it.history();
        let mut pos: usize = 0;
        while pos < out.len() && out[pos] < k
            invariant
                pos <= out.len(),
                forall|i: int| 0 <= i < pos ==> out@[i] < k,
            decreases out.len() - pos,
        {
            pos = pos + 1;
        }
        let ghost before_out = out@;
        if pos < out.len() && out[pos] == k {
            assert(out@[pos as int] == k);
        } else {
            let ghost before = out@;
            out.insert(pos, k);
            assert forall|i: int, j: int| 0 <= i < j < out@.len() implies out@[i] < out@[j] by {
                if j < pos {
                } else if i < pos && j == pos {
                } else if i < pos {
                    assert(out@[j] == before[j - 1]);
                    assert(before[pos as int] >= k);
                    assert(before[j - 1] >= before[pos as int]);
                } else if i == pos {
                    assert(out@[j] == before[j - 1]);
                    assert(before[pos as int] > k) by {
                        assert(before[pos as int] >= k);
                    }
                    assert(before[j - 1] >= before[pos as int]);
                } else {
                    assert(out@[i] == before[i - 1]);
                    assert(out@[j] == before[j - 1]);
                }
            }
            assert forall|x: u32| out@.contains(x) <==> (before.contains(x) || x == k) by {
                if out@.contains(x) {
                    let i = choose|i: int| 0 <= i < out@.len() && out@[i] == x;
                    if i < pos {
                        assert(before[i] == x);
                    } else if i > pos {
                        assert(before[i - 1] == x);
                    }
                }
                if before.contains(x) {
                    let i = choose|i: int| 0 <= i < before.len() && before[i] == x;
                    if i < pos {
                        assert(out@[i] == x);
                    } else {
                        assert(out@[i + 1] == x);
                    }
                }
                if x == k {
                    assert(out@[pos as int] == k);
                }
            }
        }
        proof {
            lemma_push_seen(seen, before_out, out@, kr);
        }
    }
    out
}

} // verus!
