use vstd::prelude::*;
use crate::EngineError;

verus! {

/// Sampling priority between two logit slots: `i` comes before `j` when its
/// key is strictly larger, or on equal keys when its index is lower.
pub open spec fn prec(keys: Seq<u64>, i: int, j: int) -> bool {
    keys[i] > keys[j] || (keys[i] == keys[j] && i < j)
}

/// Whether slot `j` occurs in the chosen index list.
pub open spec fn selected(idx: Seq<usize>, j: int) -> bool {
    exists|b: int| 0 <= b < idx.len() && idx[b] == j
}

/// Chooses the `k` highest-keyed slots, ties broken by lowest index, in
/// priority order. Keys are a caller-supplied total-order encoding of the
/// temperature-scaled logits. Fails when the request is degenerate: no keys
/// or a zero `k`.
pub fn top_k_indices(keys: &Vec<u64>, k: usize) -> (r: Result<Vec<usize>, EngineError>)
    ensures
        match r {
            Ok(idx) => {
                &&& k >= 1
                &&& keys@.len() >= 1
                &&& idx@.len() == (if k <= keys@.len() {
                    k as int
                } else {
                    keys@.len() as int
                })
                &&& forall|a: int| 0 <= a < idx@.len() ==> #[trigger] idx@[a] < keys@.len()
                &&& forall|a: int, b: int|
                    0 <= a < b < idx@.len() ==> prec(keys@, #[trigger] idx@[a] as int, #[trigger] idx@[b] as int)
                &&& forall|a: int, j: int|
                    0 <= a < idx@.len() && 0 <= j < keys@.len() && !(#[trigger] selected(idx@, j))
                        ==> prec(keys@, #[trigger] idx@[a] as int, j)
            },
            Err(e) => {
                &&& e == EngineError::SamplingError
                &&& (k == 0 || keys@.len() == 0)
            },
        },
{
    let n: usize = keys.len();
    if n == 0 || k == 0 {
        return Err(EngineError::SamplingError);
    }
    let kk: usize = if k < n {
        k
    } else {
        n
    };
    let mut remaining: Vec<usize> = Vec::new();
    let mut i: usize = 0;
    while i < n
        invariant
            0 <= i <= n,
            remaining@.len() == i,
            forall|t: int| 0 <= t < i ==> #[trigger] remaining@[t] == t,
        decreases n - i,
    {
        remaining.push(i);
        i = i + 1;
    }
    proof {
        assert forall|j: int| 0 <= j < n implies #[trigger] remaining@.contains(j as usize) by {
            assert(remaining@[j] == j as usize);
        }
    }
    let mut idx: Vec<usize> = Vec::new();
    while idx.len() < kk
        invariant
            n == keys@.len(),
            1 <= kk <= n,
            idx@.len() + remaining@.len() == n,
            idx@.len() <= kk,
            forall|a: int, b: int|
                0 <= a < b < remaining@.len() ==> #[trigger] remaining@[a] < #[trigger] remaining@[b],
            forall|a: int| 0 <= a < remaining@.len() ==> #[trigger] remaining@[a] < n,
            forall|a: int| 0 <= a < idx@.len() ==> #[trigger] idx@[a] < n,
            forall|j: int|
                0 <= j < n ==> (#[trigger] selected(idx@, j) || remaining@.contains(j as usize)),
            forall|p: int| 0 <= p < remaining@.len() ==> !selected(idx@, #[trigger] remaining@[p] as int),
            forall|a: int, b: int|
                0 <= a < b < idx@.len() ==> prec(keys@, #[trigger] idx@[a] as int, #[trigger] idx@[b] as int),
            forall|a: int, p: int|
                0 <= a < idx@.len() && 0 <= p < remaining@.len() ==> prec(
                    keys@,
                    #[trigger] idx@[a] as int,
                    #[trigger] remaining@[p] as int,
                ),
        decreases kk - idx@.len(),
    {
        // the best not-yet-chosen slot, scanning upward so that on ties the
        // lowest index wins
        let mut best_p: usize = 0;
        let mut p: usize = 1;
        while p < remaining.len()
            invariant
                1 <= remaining@.len(),
                n == keys@.len(),
                0 <= best_p < p <= remaining@.len(),
                forall|a: int| 0 <= a < remaining@.len() ==> #[trigger] remaining@[a] < n,
                forall|a: int, b: int|
                    0 <= a < b < remaining@.len() ==> #[trigger] remaining@[a] < #[trigger] remaining@[b],
                forall|q: int|
                    0 <= q < p && q != best_p ==> prec(
                        keys@,
                        remaining@[best_p as int] as int,
                        #[trigger] remaining@[q] as int,
                    ),
            decreases remaining@.len() - p,
        {
            if keys[remaining[p]] > keys[remaining[best_p]] {
                best_p = p;
            }
            p = p + 1;
        }
        let m: usize = remaining[best_p];
        let ghost old_idx = idx@;
        let ghost old_rem = remaining@;
        let ghost bp = best_p as int;
        idx.push(m);
        remaining.remove(best_p);
        proof {
            assert(remaining@ =~= old_rem.subrange(0, bp) + old_rem.subrange(
                bp + 1,
                old_rem.len() as int,
            ));
            // every surviving slot maps back to a slot of the old list other
            // than the one just chosen
            assert forall|q: int| 0 <= q < remaining@.len() implies exists|q0: int|
                0 <= q0 < old_rem.len() && q0 != bp && old_rem[q0] == #[trigger] remaining@[q] by {
                if q < bp {
                    assert(old_rem[q] == remaining@[q]);
                } else {
                    assert(old_rem[q + 1] == remaining@[q]);
                }
            }
            // the new choice precedes every surviving slot
            assert forall|q: int| 0 <= q < remaining@.len() implies prec(
                keys@,
                m as int,
                #[trigger] remaining@[q] as int,
            ) by {
                let q0 = choose|q0: int|
                    0 <= q0 < old_rem.len() && q0 != bp && old_rem[q0] == remaining@[q];
                assert(prec(keys@, old_rem[bp] as int, old_rem[q0] as int));
            }
            // a slot is accounted for exactly once: either already chosen,
            // just chosen, or still waiting
            assert forall|j: int|
                0 <= j < n implies (#[trigger] selected(idx@, j) || remaining@.contains(
                j as usize,
            )) by {
                if selected(old_idx, j) {
                    let b = choose|b: int| 0 <= b < old_idx.len() && old_idx[b] == j;
                    assert(idx@[b] == j);
                } else if j == m {
                    assert(idx@[idx@.len() - 1] == m);
                } else {
                    assert(old_rem.contains(j as usize));
                    let q0 = choose|q0: int| 0 <= q0 < old_rem.len() && old_rem[q0] == j as usize;
                    assert(q0 != bp);
                    if q0 < bp {
                        assert(remaining@[q0] == j as usize);
                    } else {
                        assert(remaining@[q0 - 1] == j as usize);
                    }
                }
            }
            assert forall|p2: int| 0 <= p2 < remaining@.len() implies !selected(
                idx@,
                #[trigger] remaining@[p2] as int,
            ) by {
                let q0 = choose|q0: int|
                    0 <= q0 < old_rem.len() && q0 != bp && old_rem[q0] == remaining@[p2];
                assert(!selected(old_idx, old_rem[q0] as int));
                // the surviving slot differs from the chosen one because the
                // old list is strictly increasing
                assert(old_rem[q0] != old_rem[bp]);
                assert forall|b: int| 0 <= b < idx@.len() implies idx@[b] != remaining@[p2] by {
                    if b < idx@.len() - 1 {
                        assert(!selected(old_idx, old_rem[q0] as int));
                        assert(old_idx[b] != old_rem[q0]);
                    }
                }
            }
        }
    }
    proof {
        assert(idx@.len() == kk);
    }
    Ok(idx)
}

/// A top-k request for a single slot is deterministic: whatever
/// `top_k_indices` returns under its contract names the slot with the
/// maximal key, and the lowest such slot when several keys are maximal.
/// With the keys encoding temperature-scaled logits, that is the
/// highest-logit token.
pub proof fn lemma_top_one_is_argmax(keys: Seq<u64>, idx: Seq<usize>)
    requires
        keys.len() >= 1,
        idx.len() == 1,
        idx[0] < keys.len(),
        forall|a: int, j: int|
            0 <= a < idx.len() && 0 <= j < keys.len() && !(#[trigger] selected(idx, j)) ==> prec(
                keys,
                #[trigger] idx[a] as int,
                j,
            ),
    ensures
        forall|j: int| 0 <= j < keys.len() ==> keys[idx[0] as int] >= #[trigger] keys[j],
        forall|j: int|
            0 <= j < keys.len() && #[trigger] keys[j] == keys[idx[0] as int] ==> idx[0] <= j,
{
    assert forall|j: int| 0 <= j < keys.len() implies keys[idx[0] as int] >= #[trigger] keys[j] && (
    keys[j] == keys[idx[0] as int] ==> idx[0] <= j) by {
        if selected(idx, j) {
            let b = choose|b: int| 0 <= b < idx.len() && idx[b] == j;
            assert(b == 0);
        } else {
            assert(prec(keys, idx[0] as int, j));
        }
    }
}

/// Whether `token` already occurs among the tokens emitted earlier in the
/// same call; such tokens are the ones the repetition penalty applies to.
pub fn is_emitted(token: u32, emitted: &Vec<u32>) -> (r: bool)
    ensures
        r == emitted@.contains(token),
{
    let mut i: usize = 0;
    while i < emitted.len()
        invariant
            0 <= i <= emitted@.len(),
            forall|t: int| 0 <= t < i ==> emitted@[t] != token,
        decreases emitted@.len() - i,
    {
        if emitted[i] == token {
            return true;
        }
        i = i + 1;
    }
    false
}

} // verus!
