//! Choosing the best few items by an integer key.
use vstd::prelude::*;

verus! {

/// Item `i` ranks before item `j`: a smaller key, or the same key and an
/// earlier position.
pub open spec fn ranks_before(keys: Seq<u128>, i: int, j: int) -> bool {
    keys[i] < keys[j] || (keys[i] == keys[j] && i < j)
}

/// The smaller of two numbers.
pub open spec fn min_nat(a: nat, b: nat) -> nat {
    if a <= b { a } else { b }
}

/// Whether `r` lists, best first, the positions of the `k` items of `keys`
/// that rank first (all of them when there are fewer than `k`).
pub open spec fn is_best_k(keys: Seq<u128>, k: nat, r: Seq<usize>) -> bool {
    &&& r.len() == min_nat(k, keys.len())
    &&& forall|i: int| 0 <= i < r.len() ==> #[trigger] r[i] < keys.len()
    &&& forall|i: int, j: int| 0 <= i < j < r.len() ==> ranks_before(keys, r[i] as int, r[j] as int)
    &&& forall|i: int, j: int|
        0 <= i < r.len() && 0 <= j < keys.len() && !r.contains(j as usize) ==> #[trigger] ranks_before(keys, r[i] as int, j)
}

/// The positions of the `k` items with the smallest keys, best first; equal
/// keys keep their order.
pub fn best_k(keys: &Vec<u128>, k: usize) -> (r: Vec<usize>)
    ensures
        is_best_k(keys@, k as nat, r@),
{
    let n = keys.len();
    let count = if k < n { k } else { n };
    let mut taken: Vec<bool> = Vec::new();
    let mut t: usize = 0;
    while t < n
        invariant
            t <= n,
            n == keys@.len(),
            taken@.len() == t,
            forall|j: int| 0 <= j < t ==> !(#[trigger] taken@[j]),
        decreases n - t,
    {
        taken.push(false);
        t = t + 1;
    }
    let mut r: Vec<usize> = Vec::new();
    while r.len() < count
        invariant
            n == keys@.len(),
            count <= n,
            count == min_nat(k as nat, n as nat),
            taken@.len() == n,
            r@.len() <= count,
            forall|i: int| 0 <= i < r@.len() ==> #[trigger] r@[i] < n,
            forall|j: int| 0 <= j < n ==> (#[trigger] taken@[j] <==> r@.contains(j as usize)),
            forall|i: int, j: int| 0 <= i < j < r@.len() ==> ranks_before(keys@, r@[i] as int, r@[j] as int),
            forall|i: int, j: int| #![trigger r@[i], taken@[j]]
                0 <= i < r@.len() && 0 <= j < n && !taken@[j] ==> ranks_before(keys@, r@[i] as int, j),
        decreases count - r@.len(),
    {
        // Some position is still free, since fewer than n were taken.
        let ghost free = choose_free(taken@, r@);
        let mut best: usize = 0;
        let mut found = false;
        let mut j: usize = 0;
        while j < n
            invariant
                n == keys@.len(),
                taken@.len() == n,
                j <= n,
                0 <= free < n,
                !taken@[free],
                found ==> best < j && !taken@[best as int],
                found ==> forall|m: int| 0 <= m < j && !taken@[m] && m != best ==> ranks_before(keys@, best as int, m),
                !found ==> forall|m: int| 0 <= m < j ==> taken@[m],
            decreases n - j,
        {
            if !taken[j] {
                if !found || keys[j] < keys[best] {
                    best = j;
                    found = true;
                }
            }
            j = j + 1;
        }
        assert(found);
        let ghost old_r = r@;
        r.push(best);
        taken.set(best, true);
        assert forall|m: int| 0 <= m < n implies (#[trigger] taken@[m] <==> r@.contains(m as usize)) by {
            if m == best {
                assert(r@[old_r.len() as int] == best);
            } else if old_r.contains(m as usize) {
                let w = choose|w: int| 0 <= w < old_r.len() && old_r[w] == m as usize;
                assert(r@[w] == m as usize);
            } else if r@.contains(m as usize) {
                let w = choose|w: int| 0 <= w < r@.len() && r@[w] == m as usize;
                assert(w < old_r.len());
                assert(old_r[w] == m as usize);
            }
        }
    }
    assert forall|i: int, j: int|
        0 <= i < r@.len() && 0 <= j < keys@.len() && !r@.contains(j as usize) implies #[trigger] ranks_before(
        keys@, r@[i] as int, j) by {
        assert(!taken@[j]);
    }
    r
}

/// A position that `taken` leaves free, when `r` lists every taken one and
/// fewer than all.
proof fn choose_free(taken: Seq<bool>, r: Seq<usize>) -> (f: int)
    requires
        r.len() < taken.len(),
        taken.len() <= usize::MAX,
        forall|j: int| 0 <= j < taken.len() ==> (#[trigger] taken[j] <==> r.contains(j as usize)),
    ensures
        0 <= f < taken.len(),
        !taken[f],
{
    if forall|j: int| 0 <= j < taken.len() ==> #[trigger] taken[j] {
        // Every position would then appear in r, which is too short.
        assert forall|j: usize| (j as int) < taken.len() implies #[trigger] r.contains(j) by {
            assert(taken[j as int]);
        }
        lemma_covered_too_short(r, taken.len());
        assert(false);
        0
    } else {
        choose|j: int| 0 <= j < taken.len() && !taken[j]
    }
}

/// A sequence that contains every position below `n` has at least `n` items.
proof fn lemma_covered_too_short(r: Seq<usize>, n: nat)
    requires
        forall|j: usize| (j as int) < n ==> #[trigger] r.contains(j),
        n <= usize::MAX + 1,
    ensures
        r.len() >= n,
{
    let ri = r.map_values(|x: usize| x as int);
    vstd::set_lib::lemma_int_range(0, n as int);
    assert forall|i: int| #[trigger] vstd::set_lib::set_int_range(0, n as int).contains(i) implies ri.to_set().contains(i) by {
        let ju = i as usize;
        assert(r.contains(ju));
        let w = choose|w: int| 0 <= w < r.len() && r[w] == ju;
        assert(ri[w] == i);
    }
    vstd::seq_lib::seq_to_set_is_finite(ri);
    vstd::set_lib::lemma_len_subset(vstd::set_lib::set_int_range(0, n as int), ri.to_set());
    ri.lemma_cardinality_of_set();
}

} // verus!
