//! Fuzzy search over indexed paths: exact matches first, then paths that
//! contain the query, then the rest, each group by edit distance.
use vstd::prelude::*;
use crate::ranking::{best_k, is_best_k, ranks_before};
use crate::text::{chars_of, same_chars};

verus! {

/// The smallest of three numbers.
pub open spec fn min3(a: nat, b: nat, c: nat) -> nat {
    if a <= b && a <= c { a } else if b <= c { b } else { c }
}

/// The Levenshtein distance: the fewest insertions, deletions and
/// substitutions of one character that turn `a` into `b`.
pub open spec fn edit_distance_spec(a: Seq<char>, b: Seq<char>) -> nat
    decreases a.len() + b.len(),
{
    if a.len() == 0 {
        b.len()
    } else if b.len() == 0 {
        a.len()
    } else {
        min3(
            edit_distance_spec(a.drop_last(), b) + 1,
            edit_distance_spec(a, b.drop_last()) + 1,
            edit_distance_spec(a.drop_last(), b.drop_last()) + if a.last() == b.last() { 0nat } else { 1nat },
        )
    }
}

/// The distance is at most the length of the longer text.
pub proof fn lemma_distance_bound(a: Seq<char>, b: Seq<char>)
    ensures
        edit_distance_spec(a, b) <= if a.len() >= b.len() { a.len() } else { b.len() },
    decreases a.len() + b.len(),
{
    if a.len() > 0 && b.len() > 0 {
        lemma_distance_bound(a.drop_last(), b.drop_last());
    }
}

/// A text is at distance zero from itself.
pub proof fn lemma_distance_self(a: Seq<char>)
    ensures
        edit_distance_spec(a, a) == 0,
    decreases a.len(),
{
    if a.len() > 0 {
        lemma_distance_self(a.drop_last());
    }
}

/// The Levenshtein distance between two texts.
pub fn edit_distance(a: &Vec<char>, b: &Vec<char>) -> (r: usize)
    requires
        a@.len() < usize::MAX,
        b@.len() < usize::MAX,
    ensures
        r == edit_distance_spec(a@, b@),
{
    let n = a.len();
    let m = b.len();
    // prev[j] is the distance between the first i - 1 characters of a and the first j of b.
    let mut prev: Vec<usize> = Vec::new();
    let mut j: usize = 0;
    while j <= m
        invariant
            m == b@.len(),
            m < usize::MAX,
            j <= m + 1,
            prev@.len() == j,
            forall|t: int| 0 <= t < j ==> #[trigger] prev@[t] == edit_distance_spec(Seq::<char>::empty(), b@.subrange(0, t)),
        decreases m + 1 - j,
    {
        prev.push(j);
        j = j + 1;
    }
    let mut i: usize = 1;
    while i <= n
        invariant
            n == a@.len(),
            m == b@.len(),
            n < usize::MAX,
            m < usize::MAX,
            1 <= i <= n + 1,
            prev@.len() == m + 1,
            forall|t: int| 0 <= t <= m ==> #[trigger] prev@[t] == edit_distance_spec(a@.subrange(0, i - 1), b@.subrange(0, t)),
        decreases n + 1 - i,
    {
        let ghost ai = a@.subrange(0, i as int);
        let ghost ap = a@.subrange(0, i - 1);
        assert(ai.drop_last() == ap);
        let mut cur: Vec<usize> = Vec::new();
        cur.push(i);
        assert(ai.len() > 0);
        let mut j: usize = 1;
        while j <= m
            invariant
                n == a@.len(),
                m == b@.len(),
                n < usize::MAX,
                m < usize::MAX,
                1 <= i <= n,
                ai == a@.subrange(0, i as int),
                ap == a@.subrange(0, i - 1),
                ai.drop_last() == ap,
                ai.last() == a@[i - 1],
                prev@.len() == m + 1,
                forall|t: int| 0 <= t <= m ==> #[trigger] prev@[t] == edit_distance_spec(ap, b@.subrange(0, t)),
                1 <= j <= m + 1,
                cur@.len() == j,
                forall|t: int| 0 <= t < j ==> #[trigger] cur@[t] == edit_distance_spec(ai, b@.subrange(0, t)),
            decreases m + 1 - j,
        {
            let ghost bj = b@.subrange(0, j as int);
            assert(bj.drop_last() == b@.subrange(0, j - 1));
            assert(bj.last() == b@[j - 1]);
            proof {
                lemma_distance_bound(ap, bj);
                lemma_distance_bound(ai, b@.subrange(0, j - 1));
                lemma_distance_bound(ap, b@.subrange(0, j - 1));
            }
            let delete = prev[j] + 1;
            let insert = cur[j - 1] + 1;
            let replace = if a[i - 1] == b[j - 1] { prev[j - 1] } else { prev[j - 1] + 1 };
            let best = if delete <= insert && delete <= replace {
                delete
            } else if insert <= replace {
                insert
            } else {
                replace
            };
            cur.push(best);
            j = j + 1;
        }
        prev = cur;
        i = i + 1;
    }
    assert(a@.subrange(0, n as int) == a@);
    assert(b@.subrange(0, m as int) == b@);
    prev[m]
}

/// Whether `q` occurs in `s` as a contiguous piece.
pub open spec fn contains_text(s: Seq<char>, q: Seq<char>) -> bool {
    exists|i: int| 0 <= i && i + q.len() <= s.len() && #[trigger] s.subrange(i, i + q.len()) == q
}

/// Whether `q` occurs in `s` as a contiguous piece.
pub fn contains(s: &Vec<char>, q: &Vec<char>) -> (r: bool)
    requires
        s@.len() < usize::MAX,
    ensures
        r == contains_text(s@, q@),
{
    if q.len() > s.len() {
        return false;
    }
    let last = s.len() - q.len();
    let mut i: usize = 0;
    while i <= last
        invariant
            last == s@.len() - q@.len(),
            q@.len() <= s@.len(),
            s@.len() < usize::MAX,
            i <= last + 1,
            forall|p: int| 0 <= p < i ==> #[trigger] s@.subrange(p, p + q@.len()) != q@,
        decreases last + 1 - i,
    {
        let mut k: usize = 0;
        let mut same = true;
        assert(s@.subrange(i as int, i as int) == q@.subrange(0, 0));
        while k < q.len()
            invariant
                last == s@.len() - q@.len(),
                q@.len() <= s@.len(),
                s@.len() < usize::MAX,
                i <= last,
                k <= q@.len(),
                same == (s@.subrange(i as int, i + k) == q@.subrange(0, k as int)),
            decreases q.len() - k,
        {
            if same && s[i + k] != q[k] {
                assert(s@.subrange(i as int, i + k + 1)[k as int] != q@.subrange(0, k + 1)[k as int]);
                same = false;
            } else if same {
                assert(s@.subrange(i as int, i + k + 1) == s@.subrange(i as int, i + k).push(s@[i + k]));
                assert(q@.subrange(0, k + 1) == q@.subrange(0, k as int).push(q@[k as int]));
            } else {
                assert(s@.subrange(i as int, i + k + 1).subrange(0, k as int) == s@.subrange(i as int, i + k));
                assert(q@.subrange(0, k + 1).subrange(0, k as int) == q@.subrange(0, k as int));
            }
            k = k + 1;
        }
        assert(q@.subrange(0, q@.len() as int) == q@);
        if same {
            return true;
        }
        i = i + 1;
    }
    false
}

/// How well `path` matches `query`: exact, containing it, or neither.
pub open spec fn match_tier(path: Seq<char>, query: Seq<char>) -> nat {
    if path == query {
        0
    } else if contains_text(path, query) {
        1
    } else {
        2
    }
}

/// The ranking key of `path` for `query`: the tier first, then the distance.
pub open spec fn match_key(path: Seq<char>, query: Seq<char>) -> nat {
    match_tier(path, query) * 0x1_0000_0000_0000_0000 + edit_distance_spec(path, query)
}

/// The ranking keys of all paths.
pub open spec fn path_keys(paths: Seq<String>, query: Seq<char>) -> Seq<u128> {
    Seq::new(paths.len(), |i: int| match_key(paths[i]@, query) as u128)
}

/// The `limit` paths closest to `query`, closest first: a path equal to the
/// query ranks before one that contains it, which ranks before any other;
/// within a group, a smaller edit distance ranks first, then the earlier
/// position.
pub fn search_path(query: &str, paths: &Vec<String>, limit: usize) -> (r: Vec<String>)
    requires
        query@.len() < usize::MAX,
        forall|i: int| 0 <= i < paths@.len() ==> (#[trigger] paths@[i])@.len() < usize::MAX,
    ensures
        exists|sel: Seq<usize>| {
            &&& is_best_k(path_keys(paths@, query@), limit as nat, sel)
            &&& r@.len() == sel.len()
            &&& forall|i: int| 0 <= i < sel.len() ==> (#[trigger] r@[i])@ == paths@[sel[i] as int]@
        },
        limit > 0 && (exists|i: int| 0 <= i < paths@.len() && (#[trigger] paths@[i])@ == query@)
            ==> r@.len() > 0 && r@[0]@ == query@,
{
    let q = chars_of(query);
    let mut keys: Vec<u128> = Vec::new();
    let mut i: usize = 0;
    while i < paths.len()
        invariant
            q@ == query@,
            q@.len() < usize::MAX,
            forall|t: int| 0 <= t < paths@.len() ==> (#[trigger] paths@[t])@.len() < usize::MAX,
            i <= paths@.len(),
            keys@ == path_keys(paths@, query@).subrange(0, i as int),
        decreases paths.len() - i,
    {
        let p = chars_of(paths[i].as_str());
        let tier: u128 = if same_chars(&p, &q) {
            0
        } else if contains(&p, &q) {
            1
        } else {
            2
        };
        let d = edit_distance(&p, &q);
        proof { lemma_distance_bound(p@, q@); }
        keys.push(tier * 0x1_0000_0000_0000_0000 + d as u128);
        i = i + 1;
        assert(keys@ == path_keys(paths@, query@).subrange(0, i as int));
    }
    assert(keys@ == path_keys(paths@, query@));
    let sel = best_k(&keys, limit);
    let mut r: Vec<String> = Vec::new();
    let mut j: usize = 0;
    while j < sel.len()
        invariant
            is_best_k(path_keys(paths@, query@), limit as nat, sel@),
            j <= sel@.len(),
            r@.len() == j,
            forall|m: int| 0 <= m < j ==> (#[trigger] r@[m])@ == paths@[sel@[m] as int]@,
        decreases sel.len() - j,
    {
        let at = sel[j];
        r.push(paths[at].clone());
        j = j + 1;
    }
    proof {
        if limit > 0 && (exists|i: int| 0 <= i < paths@.len() && (#[trigger] paths@[i])@ == query@) {
            let w = choose|i: int| 0 <= i < paths@.len() && (#[trigger] paths@[i])@ == query@;
            let keys = path_keys(paths@, query@);
            lemma_distance_self(query@);
            assert(keys[w] == 0);
            assert(sel@.len() > 0);
            let first = sel@[0] as int;
            if first != w {
                if sel@.contains(w as usize) {
                    let v = choose|v: int| 0 <= v < sel@.len() && sel@[v] == w as usize;
                    assert(v != 0);
                    assert(ranks_before(keys, first, w));
                } else {
                    assert(ranks_before(keys, first, w));
                }
            }
            assert(keys[first] == 0);
            let tier = match_tier(paths@[first]@, query@);
            lemma_distance_bound(paths@[first]@, query@);
            assert(tier == 0) by {
                if tier == 1 || tier == 2 {
                    assert(match_key(paths@[first]@, query@) < 0x1_0000_0000_0000_0000_0000);
                    assert(match_key(paths@[first]@, query@) >= 0x1_0000_0000_0000_0000);
                }
            }
        }
    }
    r
}

} // verus!
