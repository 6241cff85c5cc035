//! Boundary conditions accepted at the solver's entry points.
//!
//! Only the free-space (non-periodic) boundary is implemented; the name
//! `"periodic"` is reserved for a later periodic kernel and is refused as not
//! yet implemented, and any other name is refused as invalid.

use vstd::prelude::*;
use vstd::string::StrSliceExecFns;

verus! {

/// Why a boundary name was refused.
#[derive(Debug, Clone, Copy, PartialEq, Eq, Structural)]
pub enum BoundaryError {
    /// The reserved `"periodic"` boundary, not implemented yet.
    NotImplemented,
    /// A name that is not a boundary condition at all.
    Invalid,
}

/// Whether two strings hold the same characters.
fn same_chars(a: &str, b: &str) -> (same: bool)
    ensures
        same == (a@ == b@),
{
    let n = a.unicode_len();
    if n != b.unicode_len() {
        return false;
    }
    let mut i: usize = 0;
    while i < n
        invariant
            n == a@.len(),
            n == b@.len(),
            i <= n,
            forall|j: int| 0 <= j < i ==> a@[j] == b@[j],
        decreases n - i,
    {
        if a.get_char(i) != b.get_char(i) {
            return false;
        }
        i = i + 1;
    }
    assert(a@ =~= b@);
    true
}

/// Accepts the free-space boundary `"free"` and refuses every other name:
/// the reserved `"periodic"` as not implemented, anything else as invalid.
pub fn require_boundary(boundary: &str) -> (checked: Result<(), BoundaryError>)
    ensures
        checked is Ok <==> boundary@ == "free"@,
        checked == Err::<(), BoundaryError>(BoundaryError::NotImplemented) <==> boundary@
            == "periodic"@,
        checked == Err::<(), BoundaryError>(BoundaryError::Invalid) <==> (boundary@ != "free"@
            && boundary@ != "periodic"@),
{
    proof {
        reveal_strlit("free");
        reveal_strlit("periodic");
        assert("free"@.len() != "periodic"@.len());
    }
    if same_chars(boundary, "free") {
        Ok(())
    } else if same_chars(boundary, "periodic") {
        Err(BoundaryError::NotImplemented)
    } else {
        Err(BoundaryError::Invalid)
    }
}

} // verus!
