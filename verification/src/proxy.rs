//! The syscall proxy: the hypervisor side that services a request found in
//! the shared page, and the guest side that frames a request, hands it
//! over, and reads the reply back.
//!
//! The exchange is strictly synchronous: the guest writes the request into
//! the shared page and traps to the host through the trigger port; the
//! host services the request, overwrites the page with the reply, and the
//! guest learns the reply's length from the next port read.

use vstd::prelude::*;

verus! {

use crate::errno::ENOSYS;
use crate::vmsyscall::Error;
use crate::vmsyscall::VmSyscall;
use crate::vmsyscall::VmSyscallRet;
use crate::vmsyscall::syscall_wf;
use crate::vmsyscall::enc_syscall;
use crate::vmsyscall::enc_ret;
use crate::vmsyscall::ret_wf;
use crate::vmsyscall::serialize_syscall;
use crate::vmsyscall::deserialize_syscall;
use crate::vmsyscall::serialize_ret;
use crate::vmsyscall::deserialize_ret;
use crate::vmsyscall::lemma_enc_syscall_injective;
use crate::vmsyscall::lemma_enc_ret_injective;

/// The FFI pointee type of the guest's C-style memory calls.
#[allow(non_camel_case_types)]
#[derive(Clone, Copy, Debug, PartialEq, Eq, Structural)]
pub enum c_void {
    /// First opaque variant; never constructed.
    __variant1,
    /// Second opaque variant; never constructed.
    __variant2,
}

/// What the hypervisor replies to each request: no proxied syscall has a
/// host implementation yet, so every request is answered with its
/// variant's typed "not implemented" error.
pub open spec fn handle_syscall_spec(s: VmSyscall) -> VmSyscallRet {
    match s {
        VmSyscall::Read { .. } => VmSyscallRet::Read(Err(Error::Errno(ENOSYS))),
        VmSyscall::Write { .. } => VmSyscallRet::Write(Err(Error::Errno(ENOSYS))),
        VmSyscall::Madvise { .. } => VmSyscallRet::Madvise(Err(Error::Errno(ENOSYS))),
        VmSyscall::Mmap { .. } => VmSyscallRet::Mmap(Err(Error::Errno(ENOSYS))),
        VmSyscall::Mremap { .. } => VmSyscallRet::Mremap(Err(Error::Errno(ENOSYS))),
        VmSyscall::Munmap { .. } => VmSyscallRet::Munmap(Err(Error::Errno(ENOSYS))),
        VmSyscall::Mprotect { .. } => VmSyscallRet::Mprotect(Err(Error::Errno(ENOSYS))),
    }
}

/// The hypervisor's handler for a decoded request. A misbehaving or
/// evolving guest must not be able to crash the hypervisor, so an
/// unimplemented request is answered, never panicked on.
pub fn handle_syscall(s: &VmSyscall) -> (r: VmSyscallRet)
    ensures
        r == handle_syscall_spec(*s),
{
    match s {
        VmSyscall::Read { .. } => VmSyscallRet::Read(Err(Error::Errno(ENOSYS))),
        VmSyscall::Write { .. } => VmSyscallRet::Write(Err(Error::Errno(ENOSYS))),
        VmSyscall::Madvise { .. } => VmSyscallRet::Madvise(Err(Error::Errno(ENOSYS))),
        VmSyscall::Mmap { .. } => VmSyscallRet::Mmap(Err(Error::Errno(ENOSYS))),
        VmSyscall::Mremap { .. } => VmSyscallRet::Mremap(Err(Error::Errno(ENOSYS))),
        VmSyscall::Munmap { .. } => VmSyscallRet::Munmap(Err(Error::Errno(ENOSYS))),
        VmSyscall::Mprotect { .. } => VmSyscallRet::Mprotect(Err(Error::Errno(ENOSYS))),
    }
}

/// Host side of one exchange: decodes the request bytes, services them,
/// and returns the encoded reply.
///
/// Succeeds exactly when the bytes encode a well-formed request; the
/// reply is then the exact encoding of the handler's answer. Malformed
/// bytes are a protocol error, not a crash.
pub fn host_service_page(req: &Vec<u8>) -> (r: Result<Vec<u8>, Error>)
    ensures
        (match r {
            Ok(reply) => exists|s: VmSyscall|
                syscall_wf(s) && #[trigger] enc_syscall(s) == req@ && reply@ == enc_ret(
                    handle_syscall_spec(s),
                ),
            Err(e) => e == Error::DeSerializeError && (forall|s: VmSyscall|
                syscall_wf(s) ==> req@ != #[trigger] enc_syscall(s)),
        }),
{
    let s = match deserialize_syscall(req) {
        Ok(s) => s,
        Err(e) => {
            return Err(e);
        },
    };
    let ret = handle_syscall(&s);
    match serialize_ret(&ret) {
        Ok(reply) => {
            proof {
                assert(syscall_wf(s) && enc_syscall(s) == req@ && reply@ == enc_ret(
                    handle_syscall_spec(s),
                ));
            }
            Ok(reply)
        },
        Err(_) => {
            proof {
                assert(ret_wf(ret));
                assert(false);
            }
            Err(Error::SerializeError)
        },
    }
}

/// One complete guest syscall through the proxy: frame the request, let
/// the host service it, decode the reply. The two port operations that
/// suspend the guest in between are the caller's transport; the bytes
/// exchanged are exactly those that cross the shared page.
///
/// For every well-formed request the guest gets back exactly the host's
/// answer; a request whose payload does not fit the page fails with
/// `SerializeError` before anything is exchanged.
pub fn vm_syscall(syscall: &VmSyscall) -> (r: Result<VmSyscallRet, Error>)
    ensures
        syscall_wf(*syscall) ==> r == Ok::<VmSyscallRet, Error>(handle_syscall_spec(*syscall)),
        !syscall_wf(*syscall) ==> r == Err::<VmSyscallRet, Error>(Error::SerializeError),
{
    let req = match serialize_syscall(syscall) {
        Ok(v) => v,
        Err(e) => {
            return Err(e);
        },
    };
    let reply = match host_service_page(&req) {
        Ok(v) => v,
        Err(e) => {
            proof {
                assert(false);
            }
            return Err(e);
        },
    };
    proof {
        let s2 = choose|s2: VmSyscall|
            syscall_wf(s2) && #[trigger] enc_syscall(s2) == req@ && reply@ == enc_ret(
                handle_syscall_spec(s2),
            );
        lemma_enc_syscall_injective(*syscall, s2);
        assert(handle_syscall_spec(s2) == handle_syscall_spec(*syscall));
    }
    match deserialize_ret(&reply) {
        Ok(t) => {
            proof {
                lemma_enc_ret_injective(t, handle_syscall_spec(*syscall));
            }
            Ok(t)
        },
        Err(e) => {
            proof {
                assert(ret_wf(handle_syscall_spec(*syscall)));
                assert(false);
            }
            Err(e)
        },
    }
}

/// Guest-side `madvise(2)` through the proxy.
pub fn madvise(addr: usize, len: usize, advice: i32) -> (r: Result<i32, Error>)
    ensures
        r == Err::<i32, Error>(Error::Errno(ENOSYS)),
{
    let s = VmSyscall::Madvise { addr, len, advice };
    match vm_syscall(&s) {
        Ok(VmSyscallRet::Madvise(res)) => res,
        _ => Err(Error::DeSerializeError),
    }
}

/// Guest-side `mmap(2)` through the proxy; returns the mapped address.
pub fn mmap(addr: usize, len: usize, prot: i32, flags: i32) -> (r: Result<usize, Error>)
    ensures
        r == Err::<usize, Error>(Error::Errno(ENOSYS)),
{
    let s = VmSyscall::Mmap { addr, len, prot, flags };
    match vm_syscall(&s) {
        Ok(VmSyscallRet::Mmap(res)) => res,
        _ => Err(Error::DeSerializeError),
    }
}

/// Guest-side `mremap(2)` through the proxy; returns the new address.
pub fn mremap(addr: usize, len: usize, new_len: usize, flags: i32) -> (r: Result<usize, Error>)
    ensures
        r == Err::<usize, Error>(Error::Errno(ENOSYS)),
{
    let s = VmSyscall::Mremap { addr, len, new_len, flags };
    match vm_syscall(&s) {
        Ok(VmSyscallRet::Mremap(res)) => res,
        _ => Err(Error::DeSerializeError),
    }
}

/// Guest-side `munmap(2)` through the proxy.
pub fn munmap(addr: usize, len: usize) -> (r: Result<i32, Error>)
    ensures
        r == Err::<i32, Error>(Error::Errno(ENOSYS)),
{
    let s = VmSyscall::Munmap { addr, len };
    match vm_syscall(&s) {
        Ok(VmSyscallRet::Munmap(res)) => res,
        _ => Err(Error::DeSerializeError),
    }
}

/// Guest-side `mprotect(2)` through the proxy.
pub fn mprotect(addr: usize, len: usize, prot: i32) -> (r: Result<i32, Error>)
    ensures
        r == Err::<i32, Error>(Error::Errno(ENOSYS)),
{
    let s = VmSyscall::Mprotect { addr, len, prot };
    match vm_syscall(&s) {
        Ok(VmSyscallRet::Mprotect(res)) => res,
        _ => Err(Error::DeSerializeError),
    }
}

} // verus!
