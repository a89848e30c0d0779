//! The VM-exit dispatch state machine: from one trapped exit to the
//! action the host must take, servicing the syscall proxy through the
//! shared page on the way.
//!
//! The caller runs the loop: it executes the vCPU, feeds each exit in,
//! and performs the returned action; between the port write that delivers
//! a request and the next port read that asks for the size, the reply has
//! already been serialized into the same shared page, overwriting the
//! request in place.

use vstd::prelude::*;

verus! {

use crate::layout::SYSCALL_TRIGGER_PORT;
use crate::layout::HYPERVISOR_EXIT_PORT;
use crate::layout::SERIAL_PORT;
use crate::layout::PAGE_SIZE;
use crate::vmsyscall::VmSyscall;
use crate::vmsyscall::syscall_wf;
use crate::vmsyscall::enc_syscall;
use crate::vmsyscall::enc_ret;
use crate::proxy::handle_syscall_spec;
use crate::proxy::host_service_page;

/// The exit code a guest reports through the debug-exit port.
#[derive(Clone, Copy, Debug, PartialEq, Eq, Structural)]
pub enum HyperVisorExitCode {
    /// The guest finished successfully; the host process exits with zero.
    Success,
    /// The guest failed; the host process exits non-zero.
    Failed,
}

impl HyperVisorExitCode {
    /// The 32-bit value the guest writes to the debug-exit port.
    pub fn code(&self) -> (r: u32)
        ensures
            *self is Success ==> r == 0x10,
            *self is Failed ==> r == 0x11,
    {
        match self {
            HyperVisorExitCode::Success => 0x10,
            HyperVisorExitCode::Failed => 0x11,
        }
    }

    /// The four bytes of the port write, as the dispatch loop sees them.
    pub fn port_bytes(&self) -> (r: Vec<u8>)
        ensures
            *self is Success ==> r@ == seq![0x10u8, 0u8, 0u8, 0u8],
            *self is Failed ==> r@ == seq![0x11u8, 0u8, 0u8, 0u8],
    {
        let mut out: Vec<u8> = Vec::new();
        out.push(self.code() as u8);
        out.push(0);
        out.push(0);
        out.push(0);
        proof {
            if *self is Success {
                assert(out@ =~= seq![0x10u8, 0u8, 0u8, 0u8]);
            } else {
                assert(out@ =~= seq![0x11u8, 0u8, 0u8, 0u8]);
            }
        }
        out
    }
}

/// One trapped exit of the vCPU, as the host sees it.
#[derive(Debug)]
pub enum VmExit {
    /// The guest wrote `data` to `port`.
    IoOut {
        /// The I/O port written.
        port: u16,
        /// The bytes written.
        data: Vec<u8>,
    },
    /// The guest reads from `port`.
    IoIn {
        /// The I/O port read.
        port: u16,
    },
    /// The guest halted; not an error.
    Hlt,
    /// Any other exit reason.
    Other,
}

/// What the host must do for one exit.
#[derive(Debug)]
pub enum VmExitAction {
    /// Terminate the host process with this exit code.
    ExitProcess {
        /// The process exit code.
        code: u32,
    },
    /// Write these bytes to the host console.
    WriteSerial {
        /// The bytes the guest sent to the serial port.
        data: Vec<u8>,
    },
    /// A request was serviced; the reply sits in the shared page and its
    /// length is pending for the next trigger-port read.
    ReplyReady,
    /// Answer the guest's trigger-port read with this reply length.
    ReplyLength {
        /// The pending reply's byte length.
        len: u16,
    },
    /// Leave the dispatch loop; the guest chose to halt.
    Halt,
    /// The proxy protocol defines no such interaction: dump state and
    /// abort.
    Fatal,
}

/// The host's dispatch state: the reply length pending between the
/// request's delivery and the guest's next trigger-port read.
pub struct VmExitHandler {
    pending_len: Option<u16>,
}

impl VmExitHandler {
    /// The pending reply length, if a request was serviced and the guest
    /// has not asked for the length yet.
    pub closed spec fn pending(&self) -> Option<u16> {
        self.pending_len
    }

    /// A fresh handler with no reply pending.
    pub fn new() -> (r: VmExitHandler)
        ensures
            r.pending() is None,
    {
        VmExitHandler { pending_len: None }
    }

    /// Dispatches one VM exit against the shared syscall `page`.
    #[verifier::rlimit(30)]
    pub fn handle_vm_exit(&mut self, exit: VmExit, page: &mut Vec<u8>) -> (r: VmExitAction)
        requires
            old(page)@.len() == PAGE_SIZE,
        ensures
            final(page)@.len() == PAGE_SIZE,
            (match exit {
                VmExit::Hlt => r is Halt && final(self).pending() == old(self).pending()
                    && final(page)@ == old(page)@,
                VmExit::Other => r is Fatal && final(self).pending() == old(self).pending()
                    && final(page)@ == old(page)@,
                VmExit::IoIn { port } => {
                    &&& final(page)@ == old(page)@
                    &&& (if port == SYSCALL_TRIGGER_PORT && old(self).pending() is Some {
                        r == (VmExitAction::ReplyLength { len: old(self).pending()->0 })
                            && final(self).pending() is None
                    } else {
                        r is Fatal && final(self).pending() == old(self).pending()
                    })
                },
                VmExit::IoOut { port, data } => {
                    if port == HYPERVISOR_EXIT_PORT && data@ == seq![0x10u8, 0u8, 0u8, 0u8] {
                        r == (VmExitAction::ExitProcess { code: 0 }) && final(page)@ == old(page)@
                            && final(self).pending() == old(self).pending()
                    } else if port == HYPERVISOR_EXIT_PORT && data@ == seq![
                        0x11u8,
                        0u8,
                        0u8,
                        0u8,
                    ] {
                        r == (VmExitAction::ExitProcess { code: 1 }) && final(page)@ == old(page)@
                            && final(self).pending() == old(self).pending()
                    } else if port == SERIAL_PORT {
                        (r matches VmExitAction::WriteSerial { data: d } && d@ == data@)
                            && final(page)@ == old(page)@ && final(self).pending() == old(
                            self,
                        ).pending()
                    } else if port == SYSCALL_TRIGGER_PORT {
                        if data@.len() == 2 && crate::wire::dec_u16(data@) <= PAGE_SIZE {
                            let req = old(page)@.subrange(
                                0,
                                crate::wire::dec_u16(data@) as int,
                            );
                            if exists|s: VmSyscall| syscall_wf(s) && #[trigger] enc_syscall(s)
                                == req {
                                exists|s: VmSyscall|
                                    {
                                        &&& syscall_wf(s)
                                        &&& #[trigger] enc_syscall(s) == req
                                        &&& r is ReplyReady
                                        &&& final(page)@ == enc_ret(handle_syscall_spec(s))
                                            + old(page)@.subrange(
                                            enc_ret(handle_syscall_spec(s)).len() as int,
                                            PAGE_SIZE as int,
                                        )
                                        &&& final(self).pending() == Some(
                                            enc_ret(handle_syscall_spec(s)).len() as u16,
                                        )
                                    }
                            } else {
                                r is Fatal && final(page)@ == old(page)@ && final(self).pending()
                                    == old(self).pending()
                            }
                        } else {
                            r is Fatal && final(page)@ == old(page)@ && final(self).pending()
                                == old(self).pending()
                        }
                    } else {
                        r is Fatal && final(page)@ == old(page)@ && final(self).pending() == old(
                            self,
                        ).pending()
                    }
                },
            }),
    {
        match exit {
            VmExit::Hlt => VmExitAction::Halt,
            VmExit::Other => VmExitAction::Fatal,
            VmExit::IoIn { port } => {
                if port == SYSCALL_TRIGGER_PORT {
                    match self.pending_len {
                        Some(len) => {
                            self.pending_len = None;
                            VmExitAction::ReplyLength { len }
                        },
                        None => VmExitAction::Fatal,
                    }
                } else {
                    VmExitAction::Fatal
                }
            },
            VmExit::IoOut { port, data } => {
                if port == HYPERVISOR_EXIT_PORT {
                    if data.len() == 4 && data[0] == 0x10 && data[1] == 0 && data[2] == 0
                        && data[3] == 0 {
                        proof {
                            assert(data@ =~= seq![0x10u8, 0u8, 0u8, 0u8]);
                        }
                        VmExitAction::ExitProcess { code: 0 }
                    } else if data.len() == 4 && data[0] == 0x11 && data[1] == 0 && data[2] == 0
                        && data[3] == 0 {
                        proof {
                            assert(data@ =~= seq![0x11u8, 0u8, 0u8, 0u8]);
                        }
                        VmExitAction::ExitProcess { code: 1 }
                    } else {
                        proof {
                            if data@.len() == 4 {
                                assert(data@ != seq![0x10u8, 0u8, 0u8, 0u8] && data@ != seq![
                                    0x11u8,
                                    0u8,
                                    0u8,
                                    0u8,
                                ]) by {
                                    if data@ == seq![0x10u8, 0u8, 0u8, 0u8] {
                                        assert(data@[0] == 0x10 && data@[1] == 0 && data@[2] == 0
                                            && data@[3] == 0);
                                    }
                                    if data@ == seq![0x11u8, 0u8, 0u8, 0u8] {
                                        assert(data@[0] == 0x11 && data@[1] == 0 && data@[2] == 0
                                            && data@[3] == 0);
                                    }
                                }
                            }
                        }
                        VmExitAction::Fatal
                    }
                } else if port == SERIAL_PORT {
                    VmExitAction::WriteSerial { data }
                } else if port == SYSCALL_TRIGGER_PORT {
                    if data.len() != 2 {
                        return VmExitAction::Fatal;
                    }
                    let len = crate::wire::get_u16(&data, 0);
                    proof {
                        assert(data@.subrange(0, 2) =~= data@);
                    }
                    if len as usize > PAGE_SIZE {
                        return VmExitAction::Fatal;
                    }
                    let req = crate::vmsyscall::copy_range(page, 0, len as usize);
                    match host_service_page(&req) {
                        Ok(reply) => {
                            let rlen = reply.len();
                            overwrite_prefix(page, &reply);
                            self.pending_len = Some(rlen as u16);
                            VmExitAction::ReplyReady
                        },
                        Err(_) => VmExitAction::Fatal,
                    }
                } else {
                    VmExitAction::Fatal
                }
            },
        }
    }
}

/// Overwrites the front of `page` with `src`, leaving the tail as it was.
fn overwrite_prefix(page: &mut Vec<u8>, src: &Vec<u8>)
    requires
        src@.len() <= old(page)@.len(),
    ensures
        final(page)@.len() == old(page)@.len(),
        final(page)@ == src@ + old(page)@.subrange(src@.len() as int, old(page)@.len() as int),
{
    let mut i: usize = 0;
    while i < src.len()
        invariant
            i <= src@.len() <= page@.len(),
            page@.len() == old(page)@.len(),
            page@ == src@.subrange(0, i as int) + old(page)@.subrange(
                i as int,
                old(page)@.len() as int,
            ),
        decreases src@.len() - i,
    {
        page.set(i, src[i]);
        proof {
            assert(page@ =~= src@.subrange(0, i + 1) + old(page)@.subrange(
                i + 1,
                old(page)@.len() as int,
            ));
        }
        i += 1;
    }
    proof {
        assert(page@ =~= src@ + old(page)@.subrange(src@.len() as int, old(page)@.len() as int));
    }
}

} // verus!
