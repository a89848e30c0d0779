//! The POSIX error numbers the proxy and the guest dispatcher speak of.

use vstd::prelude::*;

verus! {

/// Invalid argument.
pub const EINVAL: i64 = 22;

/// Function not implemented.
pub const ENOSYS: i64 = 38;

/// File descriptor in bad state.
pub const EBADFD: i64 = 77;

/// The value `-code` as the guest's syscall return register sees it.
pub fn neg_as_usize(code: i64) -> (r: usize)
    requires
        1 <= code <= usize::MAX,
    ensures
        r == usize::MAX - code + 1,
{
    usize::MAX - (code as usize) + 1
}

} // verus!
