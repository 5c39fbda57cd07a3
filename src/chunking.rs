//! Splitting a file's text into chunks, and keeping the chunks that score
//! best against a query.
use vstd::prelude::*;
use crate::data::RelevantChunk;
use crate::ranking::{best_k, is_best_k};
use crate::text::{chars_of, owned, push_char, views};

verus! {

/// The chunks written one after another.
pub open spec fn concat_all(chunks: Seq<Seq<char>>) -> Seq<char>
    decreases chunks.len(),
{
    if chunks.len() == 0 {
        Seq::empty()
    } else {
        concat_all(chunks.drop_last()) + chunks.last()
    }
}

/// Every chunk is non-empty and at most `max` long, and every chunk but the
/// last is at least `min` long.
pub open spec fn sizes_within(chunks: Seq<Seq<char>>, min: nat, max: nat) -> bool {
    forall|i: int| 0 <= i < chunks.len() ==> {
        &&& 0 < (#[trigger] chunks[i]).len() <= max
        &&& i + 1 < chunks.len() ==> chunks[i].len() >= min
    }
}

/// Splits `text` into consecutive chunks of `max` characters; the last one
/// holds what is left. The chunks cover the text exactly once, in order.
pub fn split_into_chunks(text: &str, min: usize, max: usize) -> (r: Vec<String>)
    requires
        0 < min <= max,
    ensures
        concat_all(views(r@)) == text@,
        sizes_within(views(r@), min as nat, max as nat),
        forall|i: int| 0 <= i < r@.len() - 1 ==> (#[trigger] r@[i])@.len() == max,
{
    let chars = chars_of(text);
    let n = chars.len();
    let mut r: Vec<String> = Vec::new();
    let mut start: usize = 0;
    while start < n
        invariant
            n == text@.len(),
            chars@ == text@,
            0 < min <= max,
            start <= n,
            concat_all(views(r@)) == text@.subrange(0, start as int),
            sizes_within(views(r@), min as nat, max as nat),
            forall|i: int| 0 <= i < r@.len() ==> (#[trigger] r@[i])@.len() == max,
        decreases n - start,
    {
        let end = if n - start > max { start + max } else { n };
        let mut piece = String::new();
        let mut k: usize = start;
        while k < end
            invariant
                start <= k <= end <= n,
                chars@ == text@,
                n == text@.len(),
                piece@ == text@.subrange(start as int, k as int),
            decreases end - k,
        {
            push_char(&mut piece, chars[k]);
            k = k + 1;
            assert(piece@ == text@.subrange(start as int, k as int));
        }
        let ghost before = views(r@);
        r.push(piece);
        let ghost after = views(r@);
        assert(after.drop_last() == before);
        assert(text@.subrange(0, end as int) == text@.subrange(0, start as int) + text@.subrange(start as int, end as int));
        if end < n {
            start = end;
        } else {
            start = end;
            assert(text@.subrange(0, n as int) == text@);
            assert(sizes_within(views(r@), min as nat, max as nat));
            return r;
        }
    }
    assert(text@.subrange(0, n as int) == text@);
    r
}

/// The ranking keys of scores where a higher score is better.
pub open spec fn score_keys(scores: Seq<u32>) -> Seq<u128> {
    scores.map_values(|s: u32| (u32::MAX - s) as u128)
}

/// Keeps the `k` chunks of the file at `path` with the highest scores, best
/// first; equal scores keep the file's order. `scores[i]` is the score of
/// `chunks[i]`, higher meaning more similar to the query.
pub fn best_chunks(path: &str, chunks: &Vec<String>, scores: &Vec<u32>, k: usize) -> (r: Vec<RelevantChunk>)
    requires
        chunks@.len() == scores@.len(),
    ensures
        exists|sel: Seq<usize>| {
            &&& is_best_k(score_keys(scores@), k as nat, sel)
            &&& r@.len() == sel.len()
            &&& forall|i: int| 0 <= i < sel.len() ==> {
                &&& (#[trigger] r@[i]).path@ == path@
                &&& r@[i].content@ == chunks@[sel[i] as int]@
            }
        },
{
    let mut keys: Vec<u128> = Vec::new();
    let mut i: usize = 0;
    while i < scores.len()
        invariant
            i <= scores@.len(),
            keys@ == score_keys(scores@).subrange(0, i as int),
        decreases scores.len() - i,
    {
        keys.push((u32::MAX - scores[i]) as u128);
        i = i + 1;
        assert(keys@ == score_keys(scores@).subrange(0, i as int));
    }
    assert(keys@ == score_keys(scores@));
    let sel = best_k(&keys, k);
    let mut r: Vec<RelevantChunk> = Vec::new();
    let mut j: usize = 0;
    while j < sel.len()
        invariant
            is_best_k(score_keys(scores@), k as nat, sel@),
            chunks@.len() == scores@.len(),
            j <= sel@.len(),
            r@.len() == j,
            forall|m: int| 0 <= m < j ==> {
                &&& (#[trigger] r@[m]).path@ == path@
                &&& r@[m].content@ == chunks@[sel@[m] as int]@
            },
        decreases sel.len() - j,
    {
        let at = sel[j];
        assert(sel@[j as int] < score_keys(scores@).len());
        r.push(RelevantChunk { path: owned(path), content: chunks[at].clone() });
        j = j + 1;
    }
    r
}

} // verus!
