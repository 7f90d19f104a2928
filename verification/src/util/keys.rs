//! Walking the keys of a keyed store.

use vstd::prelude::*;
use vstd::std_specs::iter::IteratorSpec;
use std::collections::HashMap;

verus! {

broadcast use vstd::std_specs::hash::group_hash_axioms;

/// The keys of a map, each once, in no particular order.
pub fn keys_of<V>(m: &HashMap<u64, V>) -> (r: Vec<u64>)
    ensures
        r@.no_duplicates(),
        r@.to_set() == m@.dom(),
        forall|k: u64| r@.contains(k) <==> m@.contains_key(k),
{
    let mut out: Vec<u64> = Vec::new();
    for k in it: m.keys()
        invariant
            it.seq() == m.keys().remaining(),
            out@ == it.seq().take(it.index()).unref(),
    {
        out.push(*k);
        assert(it.seq().take(it.index() + 1).unref() =~= it.seq().take(it.index()).unref().push(*k));
    }
    proof {
        let all = m.keys().remaining();
        assert(all.take(all.len() as int) =~= all);
        assert(out@ == all.unref());
        assert(out@.to_set() =~= m@.dom());
        assert forall|k: u64| out@.contains(k) <==> m@.contains_key(k) by {
            assert(out@.to_set().contains(k) <==> out@.contains(k));
        }
    }
    out
}

/// Whether the keys rise strictly from one to the next.
pub open spec fn ascending(keys: Seq<u64>) -> bool {
    forall|i: int, j: int| 0 <= i < j < keys.len() ==> keys[i] < keys[j]
}

/// Whether `keys` is the scan of the range `[start, end]` of `dom`: exactly
/// the keys of `dom` within the range, in rising order.
pub open spec fn is_range_scan(keys: Seq<u64>, dom: Set<u64>, start: u64, end: u64) -> bool {
    &&& ascending(keys)
    &&& forall|k: u64| keys.contains(k) <==> (dom.contains(k) && start <= k <= end)
}

/// Two scans of the same range of the same keys are the same scan.
pub proof fn lemma_range_scan_unique(a: Seq<u64>, b: Seq<u64>, dom: Set<u64>, start: u64, end: u64)
    requires
        is_range_scan(a, dom, start, end),
        is_range_scan(b, dom, start, end),
    ensures
        a == b,
    decreases a.len(),
{
    if a.len() == 0 {
        if b.len() > 0 {
            assert(b.contains(b[0]));
            assert(a.contains(b[0]));
        }
        assert(a =~= b);
    } else {
        assert(a.contains(a[0]));
        assert(b.contains(a[0]));
        let jb = choose|j: int| 0 <= j < b.len() && b[j] == a[0];
        assert(b.contains(b[0]));
        assert(a.contains(b[0]));
        let ja = choose|j: int| 0 <= j < a.len() && a[j] == b[0];
        // a[0] is the least of a, b[0] the least of b, and each is in the other
        assert(a[0] == b[0]) by {
            if ja > 0 {
                assert(a[0] < a[ja]);
            }
            if jb > 0 {
                assert(b[0] < b[jb]);
            }
        }
        let least = a[0];
        let ra = a.drop_first();
        let rb = b.drop_first();
        let rest = dom.remove(least);
        assert(is_range_scan(ra, rest, start, end)) by {
            assert forall|k: u64| ra.contains(k) <==> (rest.contains(k) && start <= k <= end) by {
                if ra.contains(k) {
                    let p = choose|p: int| 0 <= p < ra.len() && ra[p] == k;
                    assert(a[p + 1] == k);
                    assert(a.contains(k));
                    assert(a[0] < a[p + 1]);
                }
                if rest.contains(k) && start <= k <= end {
                    assert(a.contains(k));
                    let p = choose|p: int| 0 <= p < a.len() && a[p] == k;
                    assert(p > 0);
                    assert(ra[p - 1] == k);
                }
            }
        }
        assert(is_range_scan(rb, rest, start, end)) by {
            assert forall|k: u64| rb.contains(k) <==> (rest.contains(k) && start <= k <= end) by {
                if rb.contains(k) {
                    let p = choose|p: int| 0 <= p < rb.len() && rb[p] == k;
                    assert(b[p + 1] == k);
                    assert(b.contains(k));
                    assert(b[0] < b[p + 1]);
                }
                if rest.contains(k) && start <= k <= end {
                    assert(b.contains(k));
                    let p = choose|p: int| 0 <= p < b.len() && b[p] == k;
                    assert(p > 0);
                    assert(rb[p - 1] == k);
                }
            }
        }
        lemma_range_scan_unique(ra, rb, rest, start, end);
        assert(a =~= seq![least] + ra);
        assert(b =~= seq![least] + rb);
    }
}

/// The keys of `m` within `[start, end]`, in rising order.
pub fn scan_range<V>(m: &HashMap<u64, V>, start: u64, end: u64) -> (r: Vec<u64>)
    ensures
        is_range_scan(r@, m@.dom(), start, end),
{
    let all: Vec<u64> = keys_of(m);
    // insert each key that lies in the range at its place in the result
    let mut out: Vec<u64> = Vec::new();
    let mut i: usize = 0;
    while i < all.len()
        invariant
            i <= all@.len(),
            all@.no_duplicates(),
            forall|k: u64| all@.contains(k) <==> m@.contains_key(k),
            ascending(out@),
            forall|k: u64|
                out@.contains(k) <==> (exists|j: int|
                    0 <= j < i && all@[j] == k && start <= k <= end),
        decreases all@.len() - i,
    {
        let k: u64 = all[i];
        if start <= k && k <= end {
            assert(!out@.contains(k)) by {
                if out@.contains(k) {
                    let j = choose|j: int| 0 <= j < i && all@[j] == k;
                    assert(all@[j] == all@[i as int]);
                }
            }
            let ghost prior = out@;
            // the place of k: after all smaller keys
            let mut at: usize = 0;
            while at < out.len() && out[at] < k
                invariant
                    at <= out@.len(),
                    out@ == prior,
                    forall|p: int| 0 <= p < at ==> out@[p] < k,
                decreases out@.len() - at,
            {
                at = at + 1;
            }
            out.insert(at, k);
            proof {
                assert(out@ == prior.insert(at as int, k));
                assert forall|a: int, b: int| 0 <= a < b < out@.len() implies out@[a] < out@[b] by {
                    if at < prior.len() {
                        assert(prior.contains(prior[at as int]));
                        assert(prior[at as int] != k);
                    }
                    if a < at && b == at {
                    } else if a < at && b > at {
                        assert(out@[b] == prior[b - 1]);
                        if a < b - 1 {
                        }
                    } else if a == at {
                        assert(out@[b] == prior[b - 1]);
                        if at < b - 1 {
                            assert(prior[at as int] < prior[b - 1]);
                        }
                    } else if a > at {
                        assert(out@[a] == prior[a - 1]);
                        assert(out@[b] == prior[b - 1]);
                    } else {
                    }
                }
                assert forall|x: u64| out@.contains(x) <==> (exists|j: int|
                    0 <= j < i + 1 && all@[j] == x && start <= x <= end) by {
                    if out@.contains(x) {
                        let p = choose|p: int| 0 <= p < out@.len() && out@[p] == x;
                        if p < at {
                            assert(prior[p] == x);
                            assert(prior.contains(x));
                        } else if p == at {
                            assert(all@[i as int] == x);
                        } else {
                            assert(prior[p - 1] == x);
                            assert(prior.contains(x));
                        }
                    }
                    if exists|j: int| 0 <= j < i + 1 && all@[j] == x && start <= x <= end {
                        let j = choose|j: int| 0 <= j < i + 1 && all@[j] == x && start <= x <= end;
                        if j < i {
                            assert(prior.contains(x));
                            let p = choose|p: int| 0 <= p < prior.len() && prior[p] == x;
                            if p < at {
                                assert(out@[p] == x);
                            } else {
                                assert(out@[p + 1] == x);
                            }
                        } else {
                            assert(out@[at as int] == x);
                        }
                    }
                }
            }
        } else {
            proof {
                assert forall|x: u64| out@.contains(x) <==> (exists|j: int|
                    0 <= j < i + 1 && all@[j] == x && start <= x <= end) by {
                    if exists|j: int| 0 <= j < i + 1 && all@[j] == x && start <= x <= end {
                        let j = choose|j: int| 0 <= j < i + 1 && all@[j] == x && start <= x <= end;
                        if j == i {
                            assert(x == k);
                        }
                    }
                }
            }
        }
        i = i + 1;
    }
    proof {
        assert forall|k: u64| out@.contains(k) <==> (m@.dom().contains(k) && start <= k <= end) by {
            if m@.dom().contains(k) && start <= k <= end {
                assert(all@.contains(k));
                let j = choose|j: int| 0 <= j < all@.len() && all@[j] == k;
                assert(0 <= j < i && all@[j] == k && start <= k <= end);
            }
            if out@.contains(k) {
                let j = choose|j: int| 0 <= j < i && all@[j] == k && start <= k <= end;
                assert(all@.contains(all@[j]));
            }
        }
    }
    out
}

/// The keys above `bound`.
pub open spec fn keys_above(bound: u64) -> Set<u64> {
    Set::new(|k: u64| k > bound)
}

/// Removes every key above `bound` and says how many there were.
pub fn remove_keys_above<V>(m: &mut HashMap<u64, V>, bound: u64) -> (removed: usize)
    ensures
        final(m)@ == old(m)@.remove_keys(keys_above(bound)),
        removed == old(m)@.dom().intersect(keys_above(bound)).len(),
{
    if bound == u64::MAX {
        assert(m@ =~= m@.remove_keys(keys_above(bound)));
        assert(m@.dom().intersect(keys_above(bound)) =~= Set::<u64>::empty());
        return 0;
    }
    let keys: Vec<u64> = scan_range(m, bound + 1, u64::MAX);
    let ghost before = m@;
    proof {
        assert(keys@.no_duplicates()) by {
            assert forall|i: int, j: int| 0 <= i < keys@.len() && 0 <= j < keys@.len() && i
                != j implies keys@[i] != keys@[j] by {
                if i < j {
                    assert(keys@[i] < keys@[j]);
                } else {
                    assert(keys@[j] < keys@[i]);
                }
            }
        }
        assert(keys@.to_set() =~= before.dom().intersect(keys_above(bound)));
        keys@.unique_seq_to_set();
    }
    let mut i: usize = 0;
    while i < keys.len()
        invariant
            i <= keys@.len(),
            m@ == before.remove_keys(keys@.take(i as int).to_set()),
        decreases keys@.len() - i,
    {
        m.remove(&keys[i]);
        proof {
            let done = keys@.take(i as int);
            let next = keys@.take(i + 1);
            assert(next =~= done.push(keys@[i as int]));
            assert forall|x: u64| next.to_set().contains(x) <==> (done.to_set().contains(x) || x
                == keys@[i as int]) by {
                if next.contains(x) {
                    let p = choose|p: int| 0 <= p < next.len() && next[p] == x;
                    if p < done.len() {
                        assert(done[p] == x);
                    }
                }
                if done.contains(x) {
                    let p = choose|p: int| 0 <= p < done.len() && done[p] == x;
                    assert(next[p] == x);
                }
                if x == keys@[i as int] {
                    assert(next[done.len() as int] == x);
                }
            }
            assert(m@ =~= before.remove_keys(next.to_set()));
        }
        i = i + 1;
    }
    proof {
        assert(keys@.take(keys@.len() as int) =~= keys@);
    }
    keys.len()
}

} // verus!
