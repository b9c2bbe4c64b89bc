//! Adding many jobs in one round trip: the add-job scripts are sent as one pipeline
//! of `EVALSHA` commands whose errors read as nil. A nil answer means Redis did not
//! know the script; those commands alone are sent again once the scripts are
//! loaded, and their answers take the places of the nils.
use vstd::prelude::*;

use crate::reply::Reply;

verus! {

/// Whether `failed` lists, in increasing order, exactly the places of `results`
/// that hold a nil.
pub open spec fn lists_nil_places(results: Seq<Reply>, failed: Seq<usize>) -> bool {
    &&& forall|k: int| 0 <= k < failed.len() ==> failed[k] < results.len() && (#[trigger] results[failed[k] as int]) is Nil
    &&& forall|k: int, j: int| 0 <= k < j < failed.len() ==> failed[k] < failed[j]
    &&& forall|i: int| 0 <= i < results.len() && (#[trigger] results[i]) is Nil ==> exists|k: int| 0 <= k < failed.len() && failed[k] == i
}

/// The places of the answers that are nil, in increasing order: the commands to
/// send again.
pub fn nil_places(results: &Vec<Reply>) -> (r: Vec<usize>)
    ensures
        lists_nil_places(results@, r@),
{
    let mut r: Vec<usize> = Vec::new();
    let mut i: usize = 0;
    while i < results.len()
        invariant
            i <= results@.len(),
            forall|k: int| 0 <= k < r@.len() ==> #[trigger] r@[k] < i,
            forall|k: int| 0 <= k < r@.len() ==> (#[trigger] results@[r@[k] as int]) is Nil,
            forall|k: int, j: int| 0 <= k < j < r@.len() ==> r@[k] < r@[j],
            forall|m: int| 0 <= m < i && (#[trigger] results@[m]) is Nil ==> exists|k: int| 0 <= k < r@.len() && r@[k] == m,
        decreases results@.len() - i,
    {
        if let Reply::Nil = results[i] {
            let ghost old_r = r@;
            r.push(i);
            proof {
                assert forall|k: int, j: int| 0 <= k < j < r@.len() implies r@[k] < r@[j] by {
                    if j == old_r.len() {
                        assert(r@[k] == old_r[k]);
                    }
                }
                assert forall|m: int| 0 <= m < i + 1 && (#[trigger] results@[m]) is Nil implies exists|k: int|
                    0 <= k < r@.len() && r@[k] == m by {
                    if m == i {
                        assert(r@[old_r.len() as int] == m);
                    } else {
                        let k = choose|k: int| 0 <= k < old_r.len() && old_r[k] == m;
                        assert(r@[k] == m);
                    }
                }
            }
        }
        i = i + 1;
    }
    r
}

/// How many retried answers are put back: one per retried place, as far as both go.
pub open spec fn put_back_count(failed: Seq<usize>, retried: Seq<Reply>) -> int {
    if failed.len() < retried.len() {
        failed.len() as int
    } else {
        retried.len() as int
    }
}

/// Whether `k` is the last position in `failed` (among the first `n`) that names
/// its place.
pub open spec fn last_for_place(failed: Seq<usize>, n: int, k: int) -> bool {
    forall|j: int| k < j < n ==> failed[j] != failed[k]
}

/// The first `k` retried answers are in their places (a later one for the same
/// place winning).
#[verifier::opaque]
pub open spec fn placed(merged: Seq<Reply>, failed: Seq<usize>, retried: Seq<Reply>, k: int) -> bool {
    forall|q: int| 0 <= q < k && last_for_place(failed, k, q) ==> merged[#[trigger] failed[q] as int] == retried[q]
}

/// The places that none of the first `k` retried answers names still hold the
/// first round's answers.
#[verifier::opaque]
pub open spec fn untouched(merged: Seq<Reply>, results: Seq<Reply>, failed: Seq<usize>, k: int) -> bool {
    forall|i: int| 0 <= i < results.len() && (forall|q: int| 0 <= q < k ==> failed[q] != i) ==> #[trigger] merged[i] == results[i]
}

proof fn lemma_put_back_step(
    before: Seq<Reply>,
    results: Seq<Reply>,
    failed: Seq<usize>,
    retried: Seq<Reply>,
    k: int,
)
    requires
        0 <= k < failed.len(),
        k < retried.len(),
        forall|q: int| 0 <= q < failed.len() ==> #[trigger] failed[q] < before.len(),
        before.len() == results.len(),
        placed(before, failed, retried, k),
        untouched(before, results, failed, k),
    ensures
        placed(before.update(failed[k] as int, retried[k]), failed, retried, k + 1),
        untouched(before.update(failed[k] as int, retried[k]), results, failed, k + 1),
{
    reveal(placed);
    reveal(untouched);
    let after = before.update(failed[k] as int, retried[k]);
    assert forall|q: int| 0 <= q < k + 1 && last_for_place(failed, k + 1, q) implies after[#[trigger] failed[q] as int] == retried[q] by {
        if q < k {
            assert(failed[q] != failed[k]);
            assert(last_for_place(failed, k, q));
            assert(before[failed[q] as int] == retried[q]);
            assert(after[failed[q] as int] == before[failed[q] as int]);
        }
    }
    assert forall|i: int| 0 <= i < results.len() && (forall|q: int| 0 <= q < k + 1 ==> failed[q] != i) implies #[trigger] after[i] == results[i] by {
        assert(failed[k] != i);
        assert(forall|q: int| 0 <= q < k ==> failed[q] != i);
    }
}

/// Whether `r` is what putting the retried answers back gives: as many answers as
/// the first round; the `k`-th retried answer at place `failed[k]`, a later one
/// overriding an earlier one for the same place; every other place unchanged.
pub open spec fn put_back_result(results: Seq<Reply>, failed: Seq<usize>, retried: Seq<Reply>, r: Seq<Reply>) -> bool {
    let n = put_back_count(failed, retried);
    &&& r.len() == results.len()
    &&& forall|k: int| 0 <= k < n && last_for_place(failed, n, k) ==> r[#[trigger] failed[k] as int] == retried[k]
    &&& forall|i: int| 0 <= i < results.len() && (forall|k: int| 0 <= k < n ==> failed[k] != i) ==> #[trigger] r[i] == results[i]
}

/// Retrying only the commands that failed re-adds no job that was added: when
/// `failed` lists the nil places of the first round, every answer that was not nil
/// survives the put-back unchanged, and when every retried command answered, each
/// retried answer stands at its command's place.
pub proof fn lemma_retry_keeps_successes(results: Seq<Reply>, failed: Seq<usize>, retried: Seq<Reply>, r: Seq<Reply>)
    requires
        lists_nil_places(results, failed),
        put_back_result(results, failed, retried, r),
    ensures
        forall|i: int| 0 <= i < results.len() && !(results[i] is Nil) ==> #[trigger] r[i] == results[i],
        retried.len() == failed.len() ==> forall|k: int| 0 <= k < failed.len() ==> r[#[trigger] failed[k] as int] == retried[k],
{
    let n = put_back_count(failed, retried);
    assert forall|i: int| 0 <= i < results.len() && !(results[i] is Nil) implies #[trigger] r[i] == results[i] by {
        assert forall|k: int| 0 <= k < n implies failed[k] != i by {
            assert(results[failed[k] as int] is Nil);
        }
    }
    if retried.len() == failed.len() {
        assert forall|k: int| 0 <= k < failed.len() implies r[#[trigger] failed[k] as int] == retried[k] by {
            assert(last_for_place(failed, n, k));
        }
    }
}

/// The answers of the first round with the retried answers put in their places:
/// the `k`-th retried answer goes to place `failed[k]`, a later one overriding an
/// earlier one for the same place.
pub fn put_back(results: Vec<Reply>, failed: &Vec<usize>, retried: Vec<Reply>) -> (r: Vec<Reply>)
    requires
        forall|k: int| 0 <= k < failed@.len() ==> #[trigger] failed@[k] < results@.len(),
    ensures
        put_back_result(results@, failed@, retried@, r@),
{
    let mut merged = results;
    let mut rest = retried;
    let ghost n = put_back_count(failed@, retried@);
    let mut k: usize = 0;
    proof {
        reveal(placed);
        reveal(untouched);
    }
    while k < failed.len() && rest.len() > 0
        invariant
            0 <= k <= n,
            n == put_back_count(failed@, retried@),
            merged@.len() == results@.len(),
            rest@ == retried@.subrange(k as int, retried@.len() as int),
            forall|q: int| 0 <= q < failed@.len() ==> #[trigger] failed@[q] < results@.len(),
            placed(merged@, failed@, retried@, k as int),
            untouched(merged@, results@, failed@, k as int),
        decreases failed@.len() - k,
    {
        let val = rest.remove(0);
        let place = failed[k];
        let ghost before = merged@;
        merged.set(place, val);
        proof {
            assert(val == retried@[k as int]);
            lemma_put_back_step(before, results@, failed@, retried@, k as int);
            assert(rest@ =~= retried@.subrange(k + 1, retried@.len() as int));
        }
        k = k + 1;
    }
    proof {
        assert(k == n);
        reveal(placed);
        reveal(untouched);
    }
    merged
}

} // verus!
