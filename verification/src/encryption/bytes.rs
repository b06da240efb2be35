use vstd::prelude::*;

verus! {

/// Whether two byte arrays of the same length hold the same bytes.
pub fn arrays_equal<const N: usize>(left: &[u8; N], right: &[u8; N]) -> (equal: bool)
    ensures
        equal == (left@ == right@),
{
    let mut i: usize = 0;
    while i < N
        invariant
            i <= N,
            forall|j: int| 0 <= j < i ==> left@[j] == right@[j],
        decreases N - i,
    {
        if left[i] != right[i] {
            return false;
        }
        i += 1;
    }
    assert(left@ =~= right@);
    true
}

} // verus!
