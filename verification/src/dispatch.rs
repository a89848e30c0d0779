//! The guest kernel's syscall dispatcher: the pure decision from a
//! syscall number and its arguments to the action the kernel takes.
//! Performing the action (console output, page mapping, register writes)
//! is the caller's, unverifiable, half.

use vstd::prelude::*;

verus! {

use crate::errno::EINVAL;
use crate::errno::EBADFD;

/// Linux syscall number of `write`.
pub const SYSCALL_WRITE: usize = 1;

/// Linux syscall number of `mmap`.
pub const SYSCALL_MMAP: usize = 9;

/// Linux syscall number of `brk`.
pub const SYSCALL_BRK: usize = 12;

/// Linux syscall number of `rt_sigaction`.
pub const SYSCALL_RT_SIGACTION: usize = 13;

/// Linux syscall number of `rt_sigprocmask`.
pub const SYSCALL_RT_SIGPROCMASK: usize = 14;

/// Linux syscall number of `ioctl`.
pub const SYSCALL_IOCTL: usize = 16;

/// Linux syscall number of `exit`.
pub const SYSCALL_EXIT: usize = 60;

/// Linux syscall number of `uname`.
pub const SYSCALL_UNAME: usize = 63;

/// Linux syscall number of `readlink`.
pub const SYSCALL_READLINK: usize = 89;

/// Linux syscall number of `sigaltstack`.
pub const SYSCALL_SIGALTSTACK: usize = 131;

/// Linux syscall number of `arch_prctl`.
pub const SYSCALL_ARCH_PRCTL: usize = 158;

/// Linux syscall number of `set_tid_address`.
pub const SYSCALL_SET_TID_ADDRESS: usize = 218;

/// Linux syscall number of `exit_group`.
pub const SYSCALL_EXIT_GROUP: usize = 231;

/// `arch_prctl` operation: set the FS segment base.
pub const ARCH_SET_FS: usize = 0x1002;

/// `ioctl` request: read the terminal window size.
pub const TIOCGWINSZ: usize = 0x5413;

/// The fixed tid value reported to `set_tid_address`.
pub const FIXED_TID: usize = 63618;

/// What the guest kernel must do for one trapped syscall.
#[derive(Clone, Copy, Debug, PartialEq, Eq, Structural)]
pub enum SyscallDecision {
    /// Leave the guest with success or failure signalled to the host.
    Exit {
        /// Whether the exit code was zero.
        success: bool,
    },
    /// Write `len` bytes at `data_ptr` to the console and return `len`
    /// (or a fault for non-UTF-8 data; see `write_return`).
    WriteConsole {
        /// The file descriptor written to (1 or 2).
        fd: usize,
        /// Address of the bytes.
        data_ptr: usize,
        /// How many bytes.
        len: usize,
    },
    /// Return this value to the application unchanged.
    ReturnValue {
        /// The raw return register value.
        value: usize,
    },
    /// Load the FS segment base register and return zero.
    SetFsBase {
        /// The new base.
        base: u64,
    },
    /// Map `len` fresh anonymous bytes at the kernel's next free virtual
    /// address and return that address.
    MmapUser {
        /// Requested mapping size.
        len: usize,
    },
    /// Report the current program break.
    BrkQuery,
    /// Grow the program break by `grow` bytes and return `target`.
    BrkGrow {
        /// How many bytes to map; zero when the break does not move up.
        grow: usize,
        /// The value to report back.
        target: usize,
    },
    /// Fill the `utsname` struct at `buf` and return zero.
    FillUname {
        /// Address of the struct.
        buf: usize,
    },
    /// Answer `readlink` with the fixed init path and return its length.
    FillReadlink {
        /// Address of the queried path.
        path_ptr: usize,
        /// Output buffer.
        buf: usize,
        /// Output buffer length.
        buf_len: usize,
    },
    /// Fill the terminal window-size struct at `buf` and return zero.
    FillWinsize {
        /// Address of the struct.
        buf: usize,
    },
    /// The syscall has no implementation: report a typed failure instead
    /// of crashing the guest.
    Unsupported {
        /// The unimplemented syscall number.
        nr: usize,
    },
}

/// The dispatcher's decision for syscall `nr` with arguments `a` to `f`,
/// where `next_mmap` is the kernel's current break/mapping watermark.
pub open spec fn dispatch_spec(
    nr: usize,
    a: usize,
    b: usize,
    c: usize,
    next_mmap: usize,
) -> SyscallDecision {
    if nr == SYSCALL_EXIT || nr == SYSCALL_EXIT_GROUP {
        SyscallDecision::Exit { success: a == 0 }
    } else if nr == SYSCALL_WRITE {
        if a == 1 || a == 2 {
            SyscallDecision::WriteConsole { fd: a, data_ptr: b, len: c }
        } else {
            SyscallDecision::ReturnValue { value: (usize::MAX - EBADFD as usize + 1) as usize }
        }
    } else if nr == SYSCALL_ARCH_PRCTL {
        if a == ARCH_SET_FS {
            SyscallDecision::SetFsBase { base: b as u64 }
        } else if a == 0x1001 || a == 0x1003 || a == 0x1004 {
            SyscallDecision::Unsupported { nr }
        } else {
            SyscallDecision::ReturnValue { value: (usize::MAX - EINVAL as usize + 1) as usize }
        }
    } else if nr == SYSCALL_MMAP {
        if a == 0 {
            SyscallDecision::MmapUser { len: b }
        } else {
            SyscallDecision::Unsupported { nr }
        }
    } else if nr == SYSCALL_BRK {
        if a == 0 {
            SyscallDecision::BrkQuery
        } else {
            SyscallDecision::BrkGrow {
                grow: (if a >= next_mmap {
                    (a - next_mmap) as usize
                } else {
                    0
                }),
                target: a,
            }
        }
    } else if nr == SYSCALL_UNAME {
        SyscallDecision::FillUname { buf: a }
    } else if nr == SYSCALL_READLINK {
        SyscallDecision::FillReadlink { path_ptr: a, buf: b, buf_len: c }
    } else if nr == SYSCALL_RT_SIGACTION || nr == SYSCALL_RT_SIGPROCMASK || nr
        == SYSCALL_SIGALTSTACK {
        SyscallDecision::ReturnValue { value: 0 }
    } else if nr == SYSCALL_SET_TID_ADDRESS {
        SyscallDecision::ReturnValue { value: FIXED_TID }
    } else if nr == SYSCALL_IOCTL {
        if a == 1 && b == TIOCGWINSZ {
            SyscallDecision::FillWinsize { buf: c }
        } else {
            SyscallDecision::ReturnValue { value: (usize::MAX - EINVAL as usize + 1) as usize }
        }
    } else {
        SyscallDecision::Unsupported { nr }
    }
}

/// Decides what to do for one trapped guest syscall; the register
/// arguments `d`, `e` and `f` are carried by no supported call.
pub fn handle_syscall(
    nr: usize,
    a: usize,
    b: usize,
    c: usize,
    _d: usize,
    _e: usize,
    _f: usize,
    next_mmap: usize,
) -> (r: SyscallDecision)
    ensures
        r == dispatch_spec(nr, a, b, c, next_mmap),
{
    if nr == SYSCALL_EXIT || nr == SYSCALL_EXIT_GROUP {
        SyscallDecision::Exit { success: a == 0 }
    } else if nr == SYSCALL_WRITE {
        if a == 1 || a == 2 {
            SyscallDecision::WriteConsole { fd: a, data_ptr: b, len: c }
        } else {
            SyscallDecision::ReturnValue { value: crate::errno::neg_as_usize(EBADFD) }
        }
    } else if nr == SYSCALL_ARCH_PRCTL {
        if a == ARCH_SET_FS {
            SyscallDecision::SetFsBase { base: b as u64 }
        } else if a == 0x1001 || a == 0x1003 || a == 0x1004 {
            SyscallDecision::Unsupported { nr }
        } else {
            SyscallDecision::ReturnValue { value: crate::errno::neg_as_usize(EINVAL) }
        }
    } else if nr == SYSCALL_MMAP {
        if a == 0 {
            SyscallDecision::MmapUser { len: b }
        } else {
            SyscallDecision::Unsupported { nr }
        }
    } else if nr == SYSCALL_BRK {
        if a == 0 {
            SyscallDecision::BrkQuery
        } else {
            let grow = if a >= next_mmap {
                a - next_mmap
            } else {
                0
            };
            SyscallDecision::BrkGrow { grow, target: a }
        }
    } else if nr == SYSCALL_UNAME {
        SyscallDecision::FillUname { buf: a }
    } else if nr == SYSCALL_READLINK {
        SyscallDecision::FillReadlink { path_ptr: a, buf: b, buf_len: c }
    } else if nr == SYSCALL_RT_SIGACTION || nr == SYSCALL_RT_SIGPROCMASK || nr
        == SYSCALL_SIGALTSTACK {
        SyscallDecision::ReturnValue { value: 0 }
    } else if nr == SYSCALL_SET_TID_ADDRESS {
        SyscallDecision::ReturnValue { value: FIXED_TID }
    } else if nr == SYSCALL_IOCTL {
        if a == 1 && b == TIOCGWINSZ {
            SyscallDecision::FillWinsize { buf: c }
        } else {
            SyscallDecision::ReturnValue { value: crate::errno::neg_as_usize(EINVAL) }
        }
    } else {
        SyscallDecision::Unsupported { nr }
    }
}

/// The return value of a console write: the byte count when the data was
/// valid UTF-8, `-EINVAL` otherwise.
pub fn write_return(utf8_ok: bool, len: usize) -> (r: usize)
    ensures
        utf8_ok ==> r == len,
        !utf8_ok ==> r == usize::MAX - EINVAL + 1,
{
    if utf8_ok {
        len
    } else {
        crate::errno::neg_as_usize(EINVAL)
    }
}

/// The guest-visible value of an unsupported syscall: `-ENOSYS`.
pub fn unsupported_return() -> (r: usize)
    ensures
        r == usize::MAX - crate::errno::ENOSYS + 1,
{
    crate::errno::neg_as_usize(crate::errno::ENOSYS)
}

} // verus!
