//! The reference-matching rule shared by every catalog lookup: each entry's
//! distance is the minimum over its stored hash variants, an entry matches
//! when its distance falls below its limit, and among matching entries the
//! one with the globally smallest distance wins, earliest catalog order
//! breaking ties.

use vstd::prelude::*;

use crate::hashing::hamming;
use crate::hashing::hamming_dist;
use crate::hashing::lemma_hamming_bound;

verus! {

/// The distance of one catalog entry from a candidate hash: the minimum
/// Hamming distance over the entry's stored hash variants, or the largest
/// 32-bit value when the entry stores none.
pub open spec fn entry_dist(hashes: Seq<Seq<u8>>, cand: Seq<u8>) -> int
    decreases hashes.len(),
{
    if hashes.len() == 0 {
        0xffff_ffff
    } else {
        let rest = entry_dist(hashes.drop_last(), cand);
        let d = hamming(hashes.last(), cand);
        if d < rest {
            d
        } else {
            rest
        }
    }
}

/// One step of the selection fold: entry `i` at distance `d` replaces the
/// current best only when it matches (`d < limit`) and strictly improves on
/// the best distance so far, so the earliest entry keeps ties.
pub open spec fn best_step(cur: Option<(int, int)>, i: int, d: int, limit: int) -> Option<
    (int, int),
> {
    if d < limit {
        match cur {
            Option::None => Some((i, d)),
            Option::Some(p) => if d < p.1 {
                Some((i, d))
            } else {
                cur
            },
        }
    } else {
        cur
    }
}

/// The selection fold over the first `n` entries.
pub open spec fn best_upto(dists: Seq<int>, limits: Seq<int>, n: int) -> Option<(int, int)>
    decreases n,
{
    if n <= 0 {
        None
    } else {
        best_step(best_upto(dists, limits, n - 1), n - 1, dists[n - 1], limits[n - 1])
    }
}

/// The selected entry over all entries: its index and its distance, or
/// nothing when no entry matches.
pub open spec fn best_sel(dists: Seq<int>, limits: Seq<int>) -> Option<(int, int)> {
    best_upto(dists, limits, dists.len() as int)
}

/// The selection fold only ever returns an in-range matching entry carrying
/// its own distance.
pub proof fn lemma_best_upto_shape(dists: Seq<int>, limits: Seq<int>, n: int)
    requires
        n <= dists.len(),
    ensures
        match best_upto(dists, limits, n) {
            None => true,
            Some(p) => 0 <= p.0 < n && p.1 == dists[p.0] && p.1 < limits[p.0],
        },
    decreases n,
{
    if n > 0 {
        lemma_best_upto_shape(dists, limits, n - 1);
    }
}

/// The selection fold picks exactly what the matching rule promises: no
/// entry when none matches; otherwise a matching entry of globally minimum
/// distance, and the earliest such entry when several share it.
pub proof fn lemma_best_sel_minimal(dists: Seq<int>, limits: Seq<int>)
    requires
        dists.len() == limits.len(),
    ensures
        match best_sel(dists, limits) {
            None => forall|j: int| 0 <= j < dists.len() ==> !(dists[j] < limits[j]),
            Some(p) => {
                &&& 0 <= p.0 < dists.len()
                &&& p.1 == dists[p.0]
                &&& dists[p.0] < limits[p.0]
                &&& forall|j: int|
                    0 <= j < dists.len() && dists[j] < limits[j] ==> dists[p.0] <= dists[j]
                &&& forall|j: int| 0 <= j < p.0 && dists[j] < limits[j] ==> dists[j] > dists[p.0]
            },
        },
{
    lemma_best_upto_minimal(dists, limits, dists.len() as int);
}

/// Helper induction for the minimality law, over prefixes of the entries.
proof fn lemma_best_upto_minimal(dists: Seq<int>, limits: Seq<int>, n: int)
    requires
        dists.len() == limits.len(),
        n <= dists.len(),
    ensures
        match best_upto(dists, limits, n) {
            None => forall|j: int| 0 <= j < n ==> !(dists[j] < limits[j]),
            Some(p) => {
                &&& 0 <= p.0 < n
                &&& p.1 == dists[p.0]
                &&& dists[p.0] < limits[p.0]
                &&& forall|j: int| 0 <= j < n && dists[j] < limits[j] ==> dists[p.0] <= dists[j]
                &&& forall|j: int| 0 <= j < p.0 && dists[j] < limits[j] ==> dists[j] > dists[p.0]
            },
        },
    decreases n,
{
    if n > 0 {
        lemma_best_upto_minimal(dists, limits, n - 1);
    }
}

/// A candidate hash that exactly equals a stored reference hash (distance
/// zero) is always selected: never discarded for exceeding a limit, and
/// never beaten by a worse match.
pub proof fn lemma_exact_match_selected(dists: Seq<int>, limits: Seq<int>, i: int)
    requires
        dists.len() == limits.len(),
        0 <= i < dists.len(),
        dists[i] == 0,
        forall|j: int| 0 <= j < dists.len() ==> dists[j] >= 0,
        forall|j: int| 0 <= j < limits.len() ==> limits[j] >= 1,
    ensures
        best_sel(dists, limits) matches Some(p) && p.1 == 0 && dists[p.0] == 0,
{
    lemma_exact_match_upto(dists, limits, i, dists.len() as int);
}

/// Helper induction for the exact-match law: once a zero-distance entry has
/// been folded in, the running best stays at distance zero.
proof fn lemma_exact_match_upto(dists: Seq<int>, limits: Seq<int>, i: int, n: int)
    requires
        dists.len() == limits.len(),
        0 <= i < n <= dists.len(),
        dists[i] == 0,
        forall|j: int| 0 <= j < dists.len() ==> dists[j] >= 0,
        forall|j: int| 0 <= j < limits.len() ==> limits[j] >= 1,
    ensures
        best_upto(dists, limits, n) matches Some(p) && p.1 == 0 && 0 <= p.0 < n && dists[p.0] == 0,
    decreases n,
{
    lemma_best_upto_shape(dists, limits, n - 1);
    if i < n - 1 {
        lemma_exact_match_upto(dists, limits, i, n - 1);
    }
}

/// An entry's distance never exceeds its distance to any single stored
/// hash variant.
pub proof fn lemma_entry_dist_le(hashes: Seq<Seq<u8>>, cand: Seq<u8>, j: int)
    requires
        0 <= j < hashes.len(),
    ensures
        entry_dist(hashes, cand) <= hamming(hashes[j], cand),
    decreases hashes.len(),
{
    if j < hashes.len() - 1 {
        lemma_entry_dist_le(hashes.drop_last(), cand, j);
    }
}

/// An entry's distance is never negative.
pub proof fn lemma_entry_dist_nonneg(hashes: Seq<Seq<u8>>, cand: Seq<u8>)
    ensures
        entry_dist(hashes, cand) >= 0,
    decreases hashes.len(),
{
    if hashes.len() > 0 {
        lemma_entry_dist_nonneg(hashes.drop_last(), cand);
        lemma_hamming_bound(hashes.last(), cand);
    }
}

/// Computes a catalog entry's distance from a candidate hash: the minimum
/// Hamming distance over its stored hash variants, or the largest 32-bit
/// value when it stores none.
#[verifier::loop_isolation(false)]
pub fn min_dist_over(hashes: &Vec<Vec<u8>>, cand: &Vec<u8>) -> (r: u32)
    requires
        forall|j: int| 0 <= j < hashes@.len() ==> #[trigger] hashes@[j]@.len() == cand@.len(),
        cand@.len() <= 0x0800_0000,
    ensures
        r == entry_dist(hashes@.map_values(|h: Vec<u8>| h@), cand@),
{
    let ghost hs = hashes@.map_values(|h: Vec<u8>| h@);
    let mut r: u32 = 0xffff_ffff;
    let mut j: usize = 0;
    while j < hashes.len()
        invariant
            j <= hashes@.len(),
            r == entry_dist(hs.subrange(0, j as int), cand@),
        decreases hashes@.len() - j,
    {
        let d = hamming_dist(&hashes[j], cand);
        proof {
            lemma_hamming_bound(hashes@[j as int]@, cand@);
            assert(hs.subrange(0, j + 1).drop_last() =~= hs.subrange(0, j as int));
            assert(hs.subrange(0, j + 1).last() == hs[j as int]);
        }
        if d < r {
            r = d;
        }
        j += 1;
    }
    proof {
        assert(hs.subrange(0, hs.len() as int) =~= hs);
    }
    r
}

} // verus!
