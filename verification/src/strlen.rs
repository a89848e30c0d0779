//! The length of a NUL-terminated byte string.

use vstd::prelude::*;

verus! {

/// The index of the first NUL byte of `s`, or `None` when no byte of `s`
/// is NUL.
pub fn strlen(s: &Vec<u8>) -> (r: Option<usize>)
    ensures
        (match r {
            Some(n) => n < s@.len() && s@[n as int] == 0 && (forall|j: int|
                0 <= j < n ==> s@[j] != 0),
            None => forall|j: int| 0 <= j < s@.len() ==> s@[j] != 0,
        }),
{
    let mut i: usize = 0;
    while i < s.len()
        invariant
            i <= s@.len(),
            forall|j: int| 0 <= j < i ==> s@[j] != 0,
        decreases s@.len() - i,
    {
        if s[i] == 0 {
            return Some(i);
        }
        i += 1;
    }
    None
}

} // verus!
