use vstd::prelude::*;

verus! {

/// In some call, `predicate` answered `b` for `x`.
pub open spec fn answers<T, P: Fn(&T) -> bool>(predicate: P, x: T, b: bool) -> bool {
    call_ensures(predicate, (&x,), b)
}

/// `predicate` may be called on any value.
pub open spec fn total<T, P: Fn(&T) -> bool>(predicate: P) -> bool {
    forall|x: T| #[trigger] call_requires(predicate, (&x,))
}

/// `predicate` never gives two different answers for one value.
pub open spec fn deterministic<T, P: Fn(&T) -> bool>(predicate: P) -> bool {
    forall|x: T, b1: bool, b2: bool|
        #![trigger call_ensures(predicate, (&x,), b1), call_ensures(predicate, (&x,), b2)]
        answers(predicate, x, b1) && answers(predicate, x, b2) ==> b1 == b2
}

/// The first `k` items of `s` satisfy `predicate` and the others do not.
pub open spec fn partitioned_at<T, P: Fn(&T) -> bool>(s: Seq<T>, predicate: P, k: int) -> bool {
    &&& 0 <= k <= s.len()
    &&& forall|i: int| 0 <= i < k ==> #[trigger] answers(predicate, s[i], true)
    &&& forall|i: int| k <= i < s.len() ==> #[trigger] answers(predicate, s[i], false)
}

/// How many items of `s` satisfy `predicate`.
pub open spec fn count_satisfying<T, P: Fn(&T) -> bool>(s: Seq<T>, predicate: P) -> nat
    decreases s.len(),
{
    if s.len() == 0 {
        0
    } else {
        count_satisfying(s.drop_last(), predicate) + if answers(predicate, s.last(), true) {
            1nat
        } else {
            0nat
        }
    }
}

/// Items answered `true` up to `k` and `false` from there: exactly `k`
/// of them satisfy the predicate.
proof fn lemma_count_of_partitioned<T, P: Fn(&T) -> bool>(s: Seq<T>, predicate: P, k: int)
    requires
        deterministic(predicate),
        partitioned_at(s, predicate, k),
    ensures
        count_satisfying(s, predicate) == k,
    decreases s.len(),
{
    if s.len() > 0 {
        let t = s.drop_last();
        if s.len() > k {
            assert(answers(predicate, s[s.len() - 1], false));
            assert(!answers(predicate, s.last(), true));
            assert(partitioned_at(t, predicate, k)) by {
                assert forall|i: int| k <= i < t.len() implies #[trigger] answers(predicate, t[i], false) by {
                    assert(t[i] == s[i]);
                }
                assert forall|i: int| 0 <= i < k implies #[trigger] answers(predicate, t[i], true) by {
                    assert(t[i] == s[i]);
                }
            }
            lemma_count_of_partitioned(t, predicate, k);
        } else {
            assert(answers(predicate, s[s.len() - 1], true));
            assert(partitioned_at(t, predicate, k - 1)) by {
                assert forall|i: int| 0 <= i < k - 1 implies #[trigger] answers(predicate, t[i], true) by {
                    assert(t[i] == s[i]);
                }
            }
            lemma_count_of_partitioned(t, predicate, k - 1);
        }
    }
}

/// Removing the item at `j` removes its contribution to the count.
proof fn lemma_count_remove<T, P: Fn(&T) -> bool>(s: Seq<T>, predicate: P, j: int)
    requires
        0 <= j < s.len(),
    ensures
        count_satisfying(s, predicate) == count_satisfying(s.remove(j), predicate) + if answers(
            predicate,
            s[j],
            true,
        ) {
            1nat
        } else {
            0nat
        },
    decreases s.len(),
{
    if j == s.len() - 1 {
        assert(s.remove(j) =~= s.drop_last());
    } else {
        let r = s.remove(j);
        lemma_count_remove(s.drop_last(), predicate, j);
        assert(r.drop_last() =~= s.drop_last().remove(j));
        assert(r.last() == s.last());
    }
}

/// Reordering items does not change how many satisfy the predicate.
proof fn lemma_count_permutation<T, P: Fn(&T) -> bool>(s1: Seq<T>, s2: Seq<T>, predicate: P)
    requires
        s1.to_multiset() == s2.to_multiset(),
    ensures
        count_satisfying(s1, predicate) == count_satisfying(s2, predicate),
    decreases s1.len(),
{
    broadcast use vstd::seq_lib::group_to_multiset_ensures;

    if s1.len() == 0 {
        assert(s1.to_multiset().len() == s1.len());
        assert(s2.to_multiset().len() == s2.len());
    } else {
        let x = s1.last();
        let t1 = s1.drop_last();
        assert(s1 =~= t1.push(x));
        assert(s1.to_multiset().count(x) > 0);
        assert(s2.contains(x));
        let j = choose|j: int| 0 <= j < s2.len() && s2[j] == x;
        let t2 = s2.remove(j);
        assert(t2.to_multiset() =~= s2.to_multiset().remove(x));
        assert(t1.push(x).to_multiset() =~= t1.to_multiset().insert(x));
        assert(t1.to_multiset() =~= t2.to_multiset());
        lemma_count_permutation(t1, t2, predicate);
        lemma_count_remove(s2, predicate, j);
    }
}

/// Where a slice of `len` items is cut when its satisfying items end at `k`:
/// a cut at either end is moved `max_leaf_size` items inwards.
pub open spec fn cut_point(k: int, len: int, max_leaf_size: int) -> int {
    if k == 0 {
        max_leaf_size
    } else if k == len {
        len - max_leaf_size
    } else {
        k
    }
}

/// The cut stays where the satisfying items end whenever that is strictly
/// inside the slice; only a cut at the very start moves to `max_leaf_size`,
/// and only one at the very end moves back by `max_leaf_size`.
pub proof fn law_cut_point(k: int, len: int, max_leaf_size: int)
    ensures
        0 < k < len ==> cut_point(k, len, max_leaf_size) == k,
        k == 0 ==> cut_point(k, len, max_leaf_size) == max_leaf_size,
        0 < len && k == len ==> cut_point(k, len, max_leaf_size) == len - max_leaf_size,
{
}

/// Some item of `s` satisfies `predicate` and some other does not.
pub open spec fn mixed<T, P: Fn(&T) -> bool>(s: Seq<T>, predicate: P) -> bool {
    &&& exists|i: int| 0 <= i < s.len() && #[trigger] answers(predicate, s[i], true)
    &&& exists|j: int| 0 <= j < s.len() && #[trigger] answers(predicate, s[j], false)
}

/// Calls `partition::partition_index`, which reorders the items in place so
/// that those for which `predicate` holds come first and returns how many
/// there are. Its source swaps items only, and stops scanning from the left
/// at the first item answered `false` and from the right at the last item
/// answered `true`. Believed: the items are permuted, and the result `k`
/// splits them into items answered `true` (before `k`) and `false` (from `k`).
#[verifier::external_body]
fn partition_index_in_place<T, P: Fn(&T) -> bool>(data: &mut Vec<T>, predicate: P) -> (k: usize)
    requires
        total(predicate),
        deterministic(predicate),
    ensures
        final(data)@.to_multiset() == old(data)@.to_multiset(),
        final(data)@.len() == old(data)@.len(),
        partitioned_at(final(data)@, predicate, k as int),
{
    partition::partition_index(data.as_mut_slice(), predicate)
}

/// Reorders `data` so that the items satisfying `predicate` come first, and
/// returns where the slice is cut in two: at the end of the satisfying items,
/// except that a cut at either end of the slice is moved `max_leaf_size`
/// items inwards so that neither half is empty.
pub fn partition<T, P: Fn(&T) -> bool>(data: &mut Vec<T>, predicate: P, max_leaf_size: usize) -> (cut: usize)
    requires
        total(predicate),
        deterministic(predicate),
        max_leaf_size <= old(data)@.len() || mixed(old(data)@, predicate),
    ensures
        final(data)@.to_multiset() == old(data)@.to_multiset(),
        final(data)@.len() == old(data)@.len(),
        cut <= final(data)@.len(),
        partitioned_at(final(data)@, predicate, count_satisfying(old(data)@, predicate) as int),
        cut == cut_point(
            count_satisfying(old(data)@, predicate) as int,
            old(data)@.len() as int,
            max_leaf_size as int,
        ),
        0 < max_leaf_size < old(data)@.len() ==> 0 < cut < old(data)@.len(),
        mixed(old(data)@, predicate) ==> cut == count_satisfying(old(data)@, predicate),
        mixed(old(data)@, predicate) ==> partitioned_at(final(data)@, predicate, cut as int),
{
    let ghost before = data@;
    let k = partition_index_in_place(data, predicate);
    let len = data.len();
    proof {
        broadcast use vstd::seq_lib::group_to_multiset_ensures;
        lemma_count_of_partitioned(data@, predicate, k as int);
        lemma_count_permutation(before, data@, predicate);
        if mixed(before, predicate) {
            let i = choose|i: int| 0 <= i < before.len() && #[trigger] answers(predicate, before[i], true);
            let j = choose|j: int| 0 <= j < before.len() && #[trigger] answers(predicate, before[j], false);
            assert(before.contains(before[i]));
            assert(before.contains(before[j]));
            assert(before.to_multiset().count(before[i]) > 0);
            assert(before.to_multiset().count(before[j]) > 0);
            assert(data@.to_multiset().count(before[i]) > 0);
            assert(data@.to_multiset().count(before[j]) > 0);
            assert(data@.contains(before[i]));
            assert(data@.contains(before[j]));
            let i2 = choose|i2: int| 0 <= i2 < data@.len() && data@[i2] == before[i];
            let j2 = choose|j2: int| 0 <= j2 < data@.len() && data@[j2] == before[j];
            if k == 0 {
                assert(answers(predicate, data@[i2], false));
            }
            if k == len {
                assert(answers(predicate, data@[j2], true));
            }
        }
    }
    if k == 0 {
        max_leaf_size
    } else if k == len {
        len - max_leaf_size
    } else {
        k
    }
}

} // verus!
