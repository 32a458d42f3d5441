//! Stable sorting by a key, as `slice::sort_by` performs it: elements whose
//! keys are equal keep the order they had.
use vstd::prelude::*;

verus! {

/// An element type ordered by a key. `precedes` is a strict weak order on the keys.
pub trait SortKey: Sized {
    spec fn precedes(&self, other: &Self) -> bool;

    proof fn lemma_asymmetric(a: &Self, b: &Self)
        requires
            a.precedes(b),
        ensures
            !b.precedes(a),
    ;

    /// If `a` comes before `b` and `c` does not come before `b`, then `a` comes before `c`.
    proof fn lemma_bridge(a: &Self, b: &Self, c: &Self)
        requires
            a.precedes(b),
            !c.precedes(b),
        ensures
            a.precedes(c),
    ;

    fn goes_before(&self, other: &Self) -> (r: bool)
        ensures
            r == self.precedes(other),
    ;
}

/// `perm` rearranges the positions `0..n`.
pub open spec fn is_permutation(perm: Seq<int>, n: int) -> bool {
    &&& perm.len() == n
    &&& forall|i: int| 0 <= i < n ==> 0 <= #[trigger] perm[i] < n
    &&& forall|i: int, j: int| 0 <= i < j < n ==> perm[i] != perm[j]
}

/// No element of `s` comes before an element in front of it.
pub open spec fn sorted_by_key<T: SortKey>(s: Seq<T>) -> bool {
    forall|i: int, j: int| 0 <= i < j < s.len() ==> !s[j].precedes(&s[i])
}

/// `output` is `input` rearranged by `perm`, sorted, with elements of equal
/// key in the order they came in.
pub open spec fn stable_sorting<T: SortKey>(input: Seq<T>, output: Seq<T>, perm: Seq<int>) -> bool {
    &&& output.len() == input.len()
    &&& is_permutation(perm, input.len() as int)
    &&& forall|i: int| 0 <= i < output.len() ==> output[i] == input[#[trigger] perm[i]]
    &&& sorted_by_key(output)
    &&& forall|i: int, j: int|
        0 <= i < j < output.len() && !output[i].precedes(&output[j]) ==> perm[i] < perm[j]
}

/// `output` is the stable sort of `input`.
pub open spec fn is_stable_sort_of<T: SortKey>(input: Seq<T>, output: Seq<T>) -> bool {
    exists|perm: Seq<int>| stable_sorting(input, output, perm)
}

/// Where position `k` takes its element from when the element at `i` moves to `j <= i`.
pub open spec fn moved_from(k: int, j: int, i: int) -> int {
    if k < j {
        k
    } else if k == j {
        i
    } else if k <= i {
        k - 1
    } else {
        k
    }
}

/// Sorts `v` stably by key.
pub fn stable_sort<T: SortKey>(v: &mut Vec<T>)
    ensures
        is_stable_sort_of(old(v)@, final(v)@),
{
    let ghost input = v@;
    let n = v.len();
    let ghost mut perm: Seq<int> = Seq::new(n as nat, |k: int| k);
    let mut i: usize = 0;
    while i < n
        invariant
            v.len() == n,
            input.len() == n,
            i <= n,
            is_permutation(perm, n as int),
            forall|k: int| 0 <= k < n ==> v@[k] == input[#[trigger] perm[k]],
            forall|k: int| i <= k < n ==> #[trigger] perm[k] == k,
            forall|k: int| 0 <= k < i ==> #[trigger] perm[k] < i,
            forall|a: int, b: int| 0 <= a < b < i ==> !v@[b].precedes(&v@[a]),
            forall|a: int, b: int|
                0 <= a < b < i && !v@[a].precedes(&v@[b]) ==> perm[a] < perm[b],
        decreases n - i,
    {
        let mut j: usize = 0;
        while j < i && !v[i].goes_before(&v[j])
            invariant
                j <= i < n,
                v.len() == n,
                forall|k: int| 0 <= k < j ==> !v@[i as int].precedes(&#[trigger] v@[k]),
            decreases i - j,
        {
            j += 1;
        }
        let ghost old_v = v@;
        let ghost old_perm = perm;
        let x = v.remove(i);
        v.insert(j, x);
        proof {
            let jj = j as int;
            let ii = i as int;
            perm = Seq::new(n as nat, |k: int| old_perm[moved_from(k, jj, ii)]);
            assert forall|k: int| 0 <= k < n implies v@[k] == old_v[moved_from(k, jj, ii)] by {}
            assert forall|k: int| 0 <= k < n implies v@[k] == input[#[trigger] perm[k]] by {
                assert(v@[k] == old_v[moved_from(k, jj, ii)]);
            }
            assert forall|a: int, b: int| 0 <= a < b < n implies perm[a] != perm[b] by {
                assert(moved_from(a, jj, ii) != moved_from(b, jj, ii));
            }
            assert forall|k: int| 0 <= k < n implies 0 <= #[trigger] perm[k] < n by {
                assert(0 <= moved_from(k, jj, ii) < n);
            }
            assert forall|k: int| 0 <= k < ii + 1 implies #[trigger] perm[k] < ii + 1 by {
                assert(moved_from(k, jj, ii) <= ii);
            }
            // everything at or after the insertion point within the old prefix follows x
            assert forall|b: int| jj <= b < ii implies old_v[ii].precedes(&#[trigger] old_v[b]) by {
                if b > jj {
                    T::lemma_bridge(&old_v[ii], &old_v[jj], &old_v[b]);
                }
            }
            assert forall|a: int, b: int| 0 <= a < b < ii + 1 implies !v@[b].precedes(&v@[a]) by {
                let sa = moved_from(a, jj, ii);
                let sb = moved_from(b, jj, ii);
                assert(v@[a] == old_v[sa]);
                assert(v@[b] == old_v[sb]);
                if a == jj {
                    assert(old_v[ii].precedes(&old_v[sb]));
                    T::lemma_asymmetric(&old_v[ii], &old_v[sb]);
                } else if b == jj {
                    assert(!old_v[ii].precedes(&old_v[a]));
                }
            }
            assert forall|a: int, b: int|
                0 <= a < b < ii + 1 && !v@[a].precedes(&v@[b]) implies perm[a] < perm[b] by {
                let sa = moved_from(a, jj, ii);
                let sb = moved_from(b, jj, ii);
                assert(v@[a] == old_v[sa]);
                assert(v@[b] == old_v[sb]);
                if a == jj {
                    assert(old_v[ii].precedes(&old_v[sb]));
                } else if b == jj {
                    assert(old_perm[sa] < ii);
                    assert(old_perm[ii] == ii);
                }
            }
        }
        i += 1;
    }
    assert(stable_sorting(input, v@, perm));
}

/// Neither element comes before the other: their keys are equal.
pub open spec fn same_key<T: SortKey>(a: &T, b: &T) -> bool {
    !a.precedes(b) && !b.precedes(a)
}

/// A permutation of `0..n` reaches every position.
pub proof fn lemma_permutation_onto(perm: Seq<int>, n: int, q: int)
    requires
        is_permutation(perm, n),
        0 <= q < n,
    ensures
        exists|p: int| 0 <= p < n && perm[p] == q,
{
    broadcast use vstd::seq_lib::seq_to_set_is_finite;

    assert(perm.no_duplicates()) by {
        assert forall|i: int, j: int|
            0 <= i < perm.len() && 0 <= j < perm.len() && i != j implies perm[i] != perm[j] by {
            if i > j {
                assert(perm[j] != perm[i]);
            }
        }
    }
    perm.unique_seq_to_set();
    let range = vstd::set_lib::set_int_range(0, n);
    vstd::set_lib::lemma_int_range(0, n);
    assert forall|v: int| perm.to_set().contains(v) implies range.contains(v) by {
        let k = choose|k: int| 0 <= k < perm.len() && perm[k] == v;
        assert(0 <= perm[k] < n);
    }
    vstd::set_lib::lemma_subset_equality(perm.to_set(), range);
    assert(range.contains(q));
    assert(perm.to_set().contains(q));
}

/// A stable sort moves the first element of an equal-key group in front of
/// every other element of that group.
pub proof fn lemma_stable_sort_keeps_first<T: SortKey>(
    input: Seq<T>,
    output: Seq<T>,
    perm: Seq<int>,
    q: int,
)
    requires
        stable_sorting(input, output, perm),
        0 <= q < input.len(),
        forall|r: int| 0 <= r < q ==> !same_key(&input[r], &input[q]),
    ensures
        exists|p: int|
            0 <= p < output.len() && output[p] == input[q] && (forall|r: int|
                0 <= r < p ==> !same_key(&#[trigger] output[r], &input[q])),
{
    lemma_permutation_onto(perm, input.len() as int, q);
    let p = choose|p: int| 0 <= p < input.len() && perm[p] == q;
    assert(output[p] == input[q]);
    assert forall|r: int| 0 <= r < p implies !same_key(&#[trigger] output[r], &input[q]) by {
        if same_key(&output[r], &input[q]) {
            assert(perm[r] < perm[p]);
            assert(output[r] == input[perm[r]]);
            assert(0 <= perm[r] < input.len());
        }
    }
}

} // verus!
