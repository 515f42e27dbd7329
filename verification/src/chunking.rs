//! Partitioning of the per-frame instance-position update.
//!
//! When more than one model is loaded, the models are split into up to eight
//! contiguous chunks; each chunk's new positions are computed on its own
//! worker and handed back over a bounded channel, and the frame blocks on all
//! of them before any GPU write — a fork-join barrier. The partition itself
//! is computed and verified here: the chunks are consecutive, non-empty,
//! cover the whole index range in order, and there are at most eight of
//! them.

use vstd::prelude::*;
use vstd::arithmetic::div_mod::lemma_fundamental_div_mod;

verus! {

/// Ceiling of an eighth of the model count: the chunk length the partition
/// uses.
pub open spec fn chunk_size_spec(len: int) -> int {
    (len + 7) / 8
}

/// Eight chunks of this size always cover the whole range.
pub proof fn lemma_chunk_size_covers(len: int)
    requires
        len >= 0,
    ensures
        8 * chunk_size_spec(len) >= len,
        len >= 1 ==> chunk_size_spec(len) >= 1,
{
    lemma_fundamental_div_mod(len + 7, 8);
}

/// The chunk length for a model count.
pub fn chunk_size(len: usize) -> (r: usize)
    requires
        len + 7 <= usize::MAX,
    ensures
        r == chunk_size_spec(len as int),
{
    (len + 7) / 8
}

/// Start of chunk `i`, capped at the end of the range.
pub open spec fn chunk_start(len: int, i: int) -> int {
    if i * chunk_size_spec(len) <= len {
        i * chunk_size_spec(len)
    } else {
        len
    }
}

/// Split `0..len` into consecutive chunks of the chunk length (the last one
/// possibly shorter). The result pins every bound: chunk `i` is
/// `[i * size, min((i + 1) * size, len))`; the chunks are non-empty, in
/// order, end at `len`, and number at most eight.
pub fn chunk_bounds(len: usize) -> (r: Vec<(usize, usize)>)
    requires
        len + 7 <= usize::MAX,
    ensures
        len == 0 ==> r@.len() == 0,
        len >= 1 ==> 1 <= r@.len() <= 8,
        forall|i: int|
            0 <= i < r@.len() ==> (#[trigger] r@[i]).0 == i * chunk_size_spec(len as int)
                && r@[i].1 == chunk_start(len as int, i + 1),
        forall|i: int| 0 <= i < r@.len() ==> (#[trigger] r@[i]).0 < r@[i].1 <= len,
        r@.len() >= 1 ==> r@[r@.len() - 1].1 == len,
{
    let mut r: Vec<(usize, usize)> = Vec::new();
    if len == 0 {
        return r;
    }
    let cs = chunk_size(len);
    proof {
        lemma_chunk_size_covers(len as int);
    }
    let ghost lenint = len as int;
    proof {
        assert(chunk_start(lenint, 0) == 0);
    }
    let mut start: usize = 0;
    while start < len
        invariant
            1 <= len,
            len + 7 <= usize::MAX,
            cs == chunk_size_spec(lenint),
            lenint == len as int,
            1 <= cs,
            8 * cs >= lenint,
            start as int == chunk_start(lenint, r@.len() as int),
            r@.len() >= 1 ==> (r@.len() - 1) * cs < lenint,
            forall|i: int|
                0 <= i < r@.len() ==> (#[trigger] r@[i]).0 == i * cs && r@[i].1 == chunk_start(
                    lenint,
                    i + 1,
                ),
            forall|i: int| 0 <= i < r@.len() ==> (#[trigger] r@[i]).0 < r@[i].1 <= lenint,
        decreases len - start,
    {
        let ghost n = r@.len() as int;
        let end = if cs < len - start {
            start + cs
        } else {
            len
        };
        proof {
            assert(start as int == n * cs) by {
                assert(chunk_start(lenint, n) < lenint);
            }
            assert((n + 1) * cs == n * cs + cs) by (nonlinear_arith);
            assert(end as int == chunk_start(lenint, n + 1));
        }
        r.push((start, end));
        start = end;
    }
    proof {
        let n = r@.len() as int;
        assert(n >= 1);
        assert(chunk_start(lenint, n) == lenint);
        assert(r@[n - 1].1 == chunk_start(lenint, n));
        assert(n <= 8) by {
            assert((n - 1) * cs < lenint);
            assert(lenint <= 8 * cs);
            assert((n - 1) * cs < 8 * cs);
            assert(n - 1 < 8) by (nonlinear_arith)
                requires
                    (n - 1) * cs < 8 * cs,
                    cs >= 1,
            ;
        }
    }
    r
}

} // verus!
