//! Wrap-around index layout for the zero-padded discrete-convolution FFT.
//!
//! A plain FFT computes a cyclic convolution. Padding both operands of an
//! `n`-point axis to `m = 2 n` points and laying the kernel out in wrap-around
//! order (non-negative offsets first, the single wrap point, then the negative
//! offsets) makes the cyclic result coincide with the linear (free-space)
//! convolution on the unpadded `n` points.

use vstd::prelude::*;
use vstd::arithmetic::div_mod::{lemma_mod_add_multiples_vanish, lemma_small_mod};

verus! {

/// The signed kernel offset stored at padded index `i` of an axis of `n`
/// unpadded and `m` padded points, or `None` at the single wrap point `i == n`.
pub open spec fn wrap_offset_spec(i: int, n: int, m: int) -> Option<int> {
    if i < n {
        Some(i)
    } else if i == n {
        None
    } else {
        Some(i - m)
    }
}

/// Maps a padded index to its signed kernel offset; the wrap point maps to `None`.
///
/// Indices below `n` carry the non-negative offsets `0..n`, the index `n` is
/// the single wrap point that no linear offset reaches, and indices above `n`
/// carry the negative offsets `i - m`.
pub fn wrap_offset(i: usize, n: usize, m: usize) -> (offset: Option<isize>)
    requires
        i <= isize::MAX,
        m <= isize::MAX,
    ensures
        match offset {
            Some(d) => wrap_offset_spec(i as int, n as int, m as int) == Some(d as int),
            None => wrap_offset_spec(i as int, n as int, m as int) is None,
        },
{
    if i < n {
        Some(i as isize)
    } else if i == n {
        None
    } else {
        Some(i as isize - m as isize)
    }
}

/// The padded axis stores every linear offset exactly where cyclic indexing
/// looks for it.
///
/// With `m = 2 n`, a linear offset `d` with `|d| < n` (the difference `i - j`
/// of a target `i < n` and a source `j < n`) is read by the cyclic convolution
/// from the padded index `d mod m`, and the wrap-around layout holds exactly
/// the offset `d` there. This is why the cyclic convolution of the zero-padded
/// operands equals the linear (free-space) convolution on the unpadded points.
pub proof fn lemma_cyclic_index_holds_linear_offset(n: int, d: int)
    requires
        n > 0,
        -n < d < n,
    ensures
        0 <= d % (2 * n) < 2 * n,
        wrap_offset_spec(d % (2 * n), n, 2 * n) == Some(d),
{
    let m = 2 * n;
    if d >= 0 {
        lemma_small_mod(d as nat, m as nat);
    } else {
        lemma_small_mod((m + d) as nat, m as nat);
        lemma_mod_add_multiples_vanish(d, m);
    }
}

/// The wrap-around layout of a padded axis of `m = 2 n` points: the index `n`
/// is its only wrap point, and every other index holds an offset `d` with
/// `|d| < n` that is congruent to the index modulo `m`, so no two indices hold
/// the same offset.
pub proof fn lemma_wrap_layout(n: int, i: int, k: int)
    requires
        n > 0,
        0 <= i < 2 * n,
        0 <= k < 2 * n,
    ensures
        wrap_offset_spec(i, n, 2 * n) is None <==> i == n,
        wrap_offset_spec(i, n, 2 * n) matches Some(d) ==> -n < d < n && d % (2 * n) == i,
        wrap_offset_spec(i, n, 2 * n) is Some && wrap_offset_spec(i, n, 2 * n)
            == wrap_offset_spec(k, n, 2 * n) ==> i == k,
{
    let m = 2 * n;
    if i < n {
        lemma_small_mod(i as nat, m as nat);
    } else if i > n {
        lemma_small_mod(i as nat, m as nat);
        lemma_mod_add_multiples_vanish(i - m, m);
    }
}

} // verus!
