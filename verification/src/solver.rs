//! Active-set bookkeeping of the bound-constrained contact iteration.
//!
//! The Polonsky–Keer iteration works over the active (in-contact) set: the
//! cells carrying positive pressure. Its size normalises the in-contact means
//! that recover the rigid approach, an empty set ends the iteration, and the
//! final count of loaded cells gives the contact area.

use vstd::prelude::*;

verus! {

/// The number of `true` entries of a mask.
pub open spec fn count_true(mask: Seq<bool>) -> nat
    decreases mask.len(),
{
    if mask.len() == 0 {
        0
    } else {
        count_true(mask.drop_last()) + if mask.last() {
            1nat
        } else {
            0nat
        }
    }
}

/// Appending a `true` entry adds exactly one to the count, and appending a
/// `false` entry leaves it unchanged, however many entries are already counted.
pub proof fn lemma_count_true_push(mask: Seq<bool>, entry: bool)
    ensures
        count_true(mask.push(true)) == count_true(mask) + 1,
        count_true(mask.push(false)) == count_true(mask),
        count_true(mask.push(entry)) == count_true(mask) + if entry {
            1nat
        } else {
            0nat
        },
{
    assert(mask.push(true).drop_last() =~= mask);
    assert(mask.push(false).drop_last() =~= mask);
    assert(mask.push(entry).drop_last() =~= mask);
}

/// The count of a concatenation is the sum of the counts of its parts.
pub proof fn lemma_count_true_concat(a: Seq<bool>, b: Seq<bool>)
    ensures
        count_true(a + b) == count_true(a) + count_true(b),
    decreases b.len(),
{
    if b.len() == 0 {
        assert(a + b =~= a);
    } else {
        lemma_count_true_concat(a, b.drop_last());
        assert((a + b).drop_last() =~= a + b.drop_last());
        assert((a + b).last() == b.last());
    }
}

/// A mask whose entries are all `true` counts every entry, and one whose
/// entries are all `false` counts none.
pub proof fn lemma_count_true_uniform(mask: Seq<bool>)
    ensures
        (forall|i: int| 0 <= i < mask.len() ==> #[trigger] mask[i]) ==> count_true(mask)
            == mask.len(),
        (forall|i: int| 0 <= i < mask.len() ==> !#[trigger] mask[i]) ==> count_true(mask) == 0,
    decreases mask.len(),
{
    if mask.len() > 0 {
        let init = mask.drop_last();
        lemma_count_true_uniform(init);
        assert forall|i: int| 0 <= i < init.len() implies #[trigger] init[i] == mask[i] by {}
        if forall|i: int| 0 <= i < mask.len() ==> #[trigger] mask[i] {
            assert(mask[mask.len() - 1]);
            assert forall|i: int| 0 <= i < init.len() implies #[trigger] init[i] by {
                assert(mask[i]);
            }
        }
        if forall|i: int| 0 <= i < mask.len() ==> !#[trigger] mask[i] {
            assert(!mask[mask.len() - 1]);
            assert forall|i: int| 0 <= i < init.len() implies !#[trigger] init[i] by {
                assert(!mask[i]);
            }
        }
    }
}

/// A mask has no `true` entry exactly when its count is zero, and the count
/// never exceeds the mask's length.
pub proof fn lemma_count_true_bounds(mask: Seq<bool>)
    ensures
        count_true(mask) <= mask.len(),
        count_true(mask) == 0 <==> forall|i: int| 0 <= i < mask.len() ==> !#[trigger] mask[i],
    decreases mask.len(),
{
    if mask.len() > 0 {
        let init = mask.drop_last();
        lemma_count_true_bounds(init);
        assert forall|i: int| 0 <= i < init.len() implies #[trigger] init[i] == mask[i] by {}
        if count_true(mask) == 0 {
            assert forall|i: int| 0 <= i < mask.len() implies !#[trigger] mask[i] by {
                if i < init.len() {
                    assert(init[i] == mask[i]);
                }
            }
        }
    }
}

/// Counts the cells of the active set (the `true` entries of `active`).
///
/// The result is at most the number of cells, and it is zero exactly when no
/// cell is in contact.
pub fn count_active(active: &[bool]) -> (n: usize)
    ensures
        n == count_true(active@),
        n <= active@.len(),
        n == 0 <==> forall|i: int| 0 <= i < active@.len() ==> !#[trigger] active@[i],
        (forall|i: int| 0 <= i < active@.len() ==> #[trigger] active@[i]) ==> n
            == active@.len(),
{
    let mut n: usize = 0;
    let mut i: usize = 0;
    while i < active.len()
        invariant
            i <= active@.len(),
            n == count_true(active@.take(i as int)),
            n <= i,
        decreases active@.len() - i,
    {
        assert(active@.take(i as int + 1).drop_last() =~= active@.take(i as int));
        if active[i] {
            n = n + 1;
        }
        i = i + 1;
    }
    assert(active@.take(active@.len() as int) =~= active@);
    proof {
        lemma_count_true_bounds(active@);
        lemma_count_true_uniform(active@);
    }
    n
}

} // verus!
