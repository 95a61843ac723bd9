use vstd::prelude::*;
use crate::record::ProofFragment;

verus! {

/// Fragment `j` stands before fragment `i` in the proof path: it has a lower
/// position, or the same position and came earlier from the store.
pub open spec fn stands_before(f: Seq<ProofFragment>, j: int, i: int) -> bool {
    f[j].position < f[i].position || (f[j].position == f[i].position && j < i)
}

/// How many of the first `k` fragments stand before fragment `i`.
pub open spec fn count_before(f: Seq<ProofFragment>, i: int, k: int) -> nat
    decreases k,
{
    if k <= 0 {
        0
    } else {
        count_before(f, i, k - 1) + if stands_before(f, k - 1, i) {
            1nat
        } else {
            0nat
        }
    }
}

/// The place of fragment `i` in the ordered proof path.
pub open spec fn rank(f: Seq<ProofFragment>, i: int) -> nat {
    count_before(f, i, f.len() as int)
}

/// `p` is the proof path of the fragments `f`: as many segments as fragments,
/// each fragment's segment at its rank.
pub open spec fn is_ordered_path(f: Seq<ProofFragment>, p: Seq<String>) -> bool {
    &&& p.len() == f.len()
    &&& forall|i: int| #![trigger rank(f, i)] 0 <= i < f.len() ==> p[rank(f, i) as int]@ == f[i].path@
}

proof fn lemma_count_bound(f: Seq<ProofFragment>, i: int, k: int)
    requires
        0 <= i < f.len(),
        0 <= k <= f.len(),
    ensures
        count_before(f, i, k) + (if i < k { 1int } else { 0int }) <= k,
    decreases k,
{
    if k > 0 {
        lemma_count_bound(f, i, k - 1);
    }
}

proof fn lemma_count_grows(f: Seq<ProofFragment>, i: int, j: int, k: int)
    requires
        0 <= i < f.len(),
        0 <= j < f.len(),
        stands_before(f, i, j),
        0 <= k <= f.len(),
    ensures
        count_before(f, i, k) + (if i < k { 1int } else { 0int }) <= count_before(f, j, k),
    decreases k,
{
    if k > 0 {
        lemma_count_grows(f, i, j, k - 1);
    }
}

/// Each fragment has a place of its own in the proof path, inside it, and one
/// that stands before another is placed before it.
pub proof fn lemma_rank_is_placement(f: Seq<ProofFragment>, i: int, j: int)
    requires
        0 <= i < f.len(),
        0 <= j < f.len(),
    ensures
        rank(f, i) < f.len(),
        stands_before(f, i, j) ==> rank(f, i) < rank(f, j),
        i != j ==> rank(f, i) != rank(f, j),
{
    lemma_count_bound(f, i, f.len() as int);
    if stands_before(f, i, j) {
        lemma_count_grows(f, i, j, f.len() as int);
    }
    if stands_before(f, j, i) {
        lemma_count_grows(f, j, i, f.len() as int);
    }
}

/// A proof path holds exactly one segment per fragment, and the segments
/// follow the fragments' positions: of two fragments, the one with the lower
/// position has its segment earlier in the path, whatever order the store
/// gave them in.
pub proof fn lemma_path_follows_positions(f: Seq<ProofFragment>, p: Seq<String>, i: int, j: int)
    requires
        is_ordered_path(f, p),
        0 <= i < f.len(),
        0 <= j < f.len(),
        f[i].position < f[j].position,
    ensures
        p.len() == f.len(),
        rank(f, i) < rank(f, j) < p.len(),
        p[rank(f, i) as int]@ == f[i].path@,
        p[rank(f, j) as int]@ == f[j].path@,
{
    lemma_rank_is_placement(f, i, j);
    lemma_rank_is_placement(f, j, i);
}

/// The rank of fragment `i`, counted over the fragments.
fn rank_of(f: &Vec<ProofFragment>, i: usize) -> (r: usize)
    requires
        i < f.len(),
    ensures
        r == rank(f@, i as int),
{
    let mut k: usize = 0;
    let mut c: usize = 0;
    while k < f.len()
        invariant
            i < f.len(),
            k <= f.len(),
            c == count_before(f@, i as int, k as int),
        decreases f.len() - k,
    {
        proof {
            lemma_count_bound(f@, i as int, k as int + 1);
        }
        if f[k].position < f[i].position || (f[k].position == f[i].position && k < i) {
            c = c + 1;
        }
        k = k + 1;
    }
    c
}

/// The proof path of `fragments`: their segments in the order of their
/// positions, fragments of one position in the order the store gave them.
pub fn order_merkle_path(fragments: &Vec<ProofFragment>) -> (r: Vec<String>)
    ensures
        is_ordered_path(fragments@, r@),
{
    let n = fragments.len();
    let mut r: Vec<String> = Vec::new();
    while r.len() < n
        invariant
            r.len() <= n,
        decreases n - r.len(),
    {
        r.push(String::new());
    }
    let mut i: usize = 0;
    while i < n
        invariant
            n == fragments.len(),
            r.len() == n,
            i <= n,
            forall|k: int| #![trigger rank(fragments@, k)]
                0 <= k < i ==> r@[rank(fragments@, k) as int]@ == fragments@[k].path@,
        decreases n - i,
    {
        let p = rank_of(fragments, i);
        proof {
            lemma_rank_is_placement(fragments@, i as int, i as int);
            assert forall|k: int| 0 <= k < i implies rank(fragments@, k) != rank(fragments@, i as int)
                && rank(fragments@, k) < n by {
                lemma_rank_is_placement(fragments@, k, i as int);
            }
        }
        r.set(p, fragments[i].path.clone());
        i = i + 1;
    }
    r
}

} // verus!
