//! Stable ordering by integer keys.
use vstd::prelude::*;

verus! {

/// Where an entry with key `k` goes into `order`: behind the last entry whose
/// key is not larger.
pub open spec fn slot(keys: Seq<i64>, order: Seq<int>, k: i64) -> int
    decreases order.len(),
{
    if order.len() == 0 {
        0
    } else if keys[order.last()] <= k {
        order.len() as int
    } else {
        slot(keys, order.drop_last(), k)
    }
}

/// The indices of the first `n` keys, smallest key first; of equal keys the
/// earlier one comes first.
pub open spec fn stable_order(keys: Seq<i64>, n: int) -> Seq<int>
    decreases n,
{
    if n <= 0 {
        Seq::empty()
    } else {
        let order = stable_order(keys, n - 1);
        order.insert(slot(keys, order, keys[n - 1]), n - 1)
    }
}

proof fn lemma_slot(keys: Seq<i64>, order: Seq<int>, k: i64)
    ensures
        0 <= slot(keys, order, k) <= order.len(),
        slot(keys, order, k) > 0 ==> keys[order[slot(keys, order, k) - 1]] <= k,
        forall|j: int| slot(keys, order, k) <= j < order.len() ==> keys[#[trigger] order[j]] > k,
    decreases order.len(),
{
    if order.len() > 0 && keys[order.last()] > k {
        lemma_slot(keys, order.drop_last(), k);
        let p = slot(keys, order, k);
        assert forall|j: int| p <= j < order.len() implies keys[#[trigger] order[j]] > k by {
            if j < order.len() - 1 {
                assert(order.drop_last()[j] == order[j]);
            }
        }
    }
}

/// `stable_order` lists every index once, by increasing key, and keeps the
/// order of entries with equal keys.
pub proof fn law_stable_order(keys: Seq<i64>, n: int)
    requires
        0 <= n <= keys.len(),
    ensures
        stable_order(keys, n).len() == n,
        forall|i: int| 0 <= i < n ==> 0 <= #[trigger] stable_order(keys, n)[i] < n,
        forall|k: int| 0 <= k < n ==> #[trigger] stable_order(keys, n).contains(k),
        forall|i: int, j: int|
            #![trigger stable_order(keys, n)[i], stable_order(keys, n)[j]]
            0 <= i < j < n ==> {
                let a = stable_order(keys, n)[i];
                let b = stable_order(keys, n)[j];
                keys[a] < keys[b] || (keys[a] == keys[b] && a < b)
            },
    decreases n,
{
    if n > 0 {
        law_stable_order(keys, n - 1);
        let before = stable_order(keys, n - 1);
        let k = keys[n - 1];
        let p = slot(keys, before, k);
        lemma_slot(keys, before, k);
        let after = stable_order(keys, n);
        assert(after == before.insert(p, n - 1));
        assert forall|q: int| 0 <= q < n implies #[trigger] after.contains(q) by {
            if q == n - 1 {
                assert(after[p] == q);
            } else {
                assert(before.contains(q));
                let i = choose|i: int| 0 <= i < before.len() && before[i] == q;
                if i < p {
                    assert(after[i] == q);
                } else {
                    assert(after[i + 1] == q);
                }
            }
        }
        assert forall|i: int, j: int|
            #![trigger after[i], after[j]]
            0 <= i < j < n implies {
            let a = after[i];
            let b = after[j];
            keys[a] < keys[b] || (keys[a] == keys[b] && a < b)
        } by {
            let a = after[i];
            let b = after[j];
            if j == p {
                assert(a == before[i]);
                if i < p - 1 {
                    assert(keys[before[i]] <= keys[before[p - 1]]);
                }
            } else if i == p {
                assert(b == before[j - 1]);
            } else {
                let i0 = if i < p { i } else { i - 1 };
                let j0 = if j < p { j } else { j - 1 };
                assert(a == before[i0] && b == before[j0]);
            }
        }
    }
}

/// Sorts indices by key, keeping the order of equal keys.
pub fn sort_by_key(keys: &Vec<i64>) -> (order: Vec<usize>)
    ensures
        order@.map_values(|i: usize| i as int) == stable_order(keys@, keys@.len() as int),
        order@.len() == keys@.len(),
        forall|i: int| 0 <= i < order@.len() ==> (#[trigger] order@[i]) < keys@.len(),
{
    let count: usize = keys.len();
    let mut order: Vec<usize> = Vec::new();
    let mut n: usize = 0;
    while n < count
        invariant
            n <= count,
            count == keys@.len(),
            order@.len() == n,
            order@.map_values(|i: usize| i as int) == stable_order(keys@, n as int),
            forall|i: int| 0 <= i < order@.len() ==> (#[trigger] order@[i]) < n,
        decreases count - n,
    {
        let k: i64 = keys[n];
        let mut p: usize = n;
        let ghost whole = stable_order(keys@, n as int);
        proof {
            assert(whole.take(n as int) =~= whole);
        }
        while p > 0 && keys[order[p - 1]] > k
            invariant
                p <= n,
                n < count,
                count == keys@.len(),
                order@.len() == n,
                whole == order@.map_values(|i: usize| i as int),
                forall|i: int| 0 <= i < order@.len() ==> (#[trigger] order@[i]) < n,
                slot(keys@, whole, k) == slot(keys@, whole.take(p as int), k),
            decreases p,
        {
            proof {
                let prefix = whole.take(p as int);
                assert(prefix.last() == order@[p - 1]);
                assert(prefix.drop_last() =~= whole.take(p - 1));
            }
            p -= 1;
        }
        proof {
            if p > 0 {
                assert(whole.take(p as int).last() == order@[p - 1]);
            }
        }
        order.insert(p, n);
        proof {
            assert(order@.map_values(|i: usize| i as int) =~= whole.insert(p as int, n as int));
        }
        n += 1;
    }
    order
}

/// The elements of `s` without those that an equal element precedes.
pub open spec fn first_occurrences<T>(s: Seq<T>) -> Seq<T>
    decreases s.len(),
{
    if s.len() == 0 {
        s
    } else {
        let kept = first_occurrences(s.drop_last());
        if kept.contains(s.last()) {
            kept
        } else {
            kept.push(s.last())
        }
    }
}

/// `first_occurrences` drops repetitions and nothing else.
pub proof fn law_first_occurrences<T>(s: Seq<T>)
    ensures
        first_occurrences(s).no_duplicates(),
        forall|x: T| #[trigger] first_occurrences(s).contains(x) <==> s.contains(x),
    decreases s.len(),
{
    if s.len() > 0 {
        let rest = s.drop_last();
        law_first_occurrences(rest);
        let kept = first_occurrences(rest);
        assert forall|x: T| #[trigger] first_occurrences(s).contains(x) <==> s.contains(x) by {
            if s.contains(x) {
                let i = choose|i: int| 0 <= i < s.len() && s[i] == x;
                if i < rest.len() {
                    assert(rest[i] == x);
                    assert(rest.contains(x));
                    assert(kept.contains(x));
                    let k = choose|k: int| 0 <= k < kept.len() && kept[k] == x;
                    assert(first_occurrences(s)[k] == x);
                } else if !kept.contains(x) {
                    assert(first_occurrences(s)[kept.len() as int] == x);
                }
            }
            if first_occurrences(s).contains(x) {
                let k = choose|k: int|
                    0 <= k < first_occurrences(s).len() && first_occurrences(s)[k] == x;
                if k < kept.len() {
                    assert(kept[k] == x);
                    assert(kept.contains(x));
                    assert(rest.contains(x));
                    let i = choose|i: int| 0 <= i < rest.len() && rest[i] == x;
                    assert(s[i] == x);
                } else {
                    assert(s[s.len() - 1] == x);
                }
            }
        }
    }
}

} // verus!
