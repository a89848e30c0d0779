//! The syscall proxy: wire round trips for every variant, the libc-style
//! guest calls, and the full exchange through the shared page.

use vmrun::errno;
use vmrun::layout::{PAGE_SIZE, SYSCALL_TRIGGER_PORT};
use vmrun::proxy;
use vmrun::vmexit::{HyperVisorExitCode, VmExit, VmExitAction, VmExitHandler};
use vmrun::vmsyscall::{
    deserialize_ret, deserialize_syscall, serialize_ret, serialize_syscall, Error, VmSyscall,
    VmSyscallRet, DATA_MAX,
};

fn round_trip(s: VmSyscall) -> VmSyscall {
    let bytes = serialize_syscall(&s).unwrap();
    deserialize_syscall(&bytes).unwrap()
}

fn round_trip_ret(t: VmSyscallRet) -> VmSyscallRet {
    let bytes = serialize_ret(&t).unwrap();
    deserialize_ret(&bytes).unwrap()
}

#[test]
fn syscall_round_trip_every_variant() {
    let samples = vec![
        VmSyscall::Read { fd: 3, count: 77 },
        VmSyscall::Write { fd: 1, count: 5, data: vec![1, 2, 3, 4, 5] },
        VmSyscall::Madvise { addr: 0x1000, len: 0x2000, advice: -3 },
        VmSyscall::Mmap { addr: 0, len: 4096, prot: 7, flags: 0x22 },
        VmSyscall::Mremap { addr: 0x7000, len: 1, new_len: 2, flags: -1 },
        VmSyscall::Munmap { addr: usize::MAX, len: 0 },
        VmSyscall::Mprotect { addr: 12, len: 34, prot: 0 },
    ];
    for s in samples {
        let copy = round_trip(clone_syscall(&s));
        assert_eq!(copy, s);
    }
}

fn clone_syscall(s: &VmSyscall) -> VmSyscall {
    match s {
        VmSyscall::Read { fd, count } => VmSyscall::Read { fd: *fd, count: *count },
        VmSyscall::Write { fd, count, data } => {
            VmSyscall::Write { fd: *fd, count: *count, data: data.clone() }
        }
        VmSyscall::Madvise { addr, len, advice } => {
            VmSyscall::Madvise { addr: *addr, len: *len, advice: *advice }
        }
        VmSyscall::Mmap { addr, len, prot, flags } => {
            VmSyscall::Mmap { addr: *addr, len: *len, prot: *prot, flags: *flags }
        }
        VmSyscall::Mremap { addr, len, new_len, flags } => {
            VmSyscall::Mremap { addr: *addr, len: *len, new_len: *new_len, flags: *flags }
        }
        VmSyscall::Munmap { addr, len } => VmSyscall::Munmap { addr: *addr, len: *len },
        VmSyscall::Mprotect { addr, len, prot } => {
            VmSyscall::Mprotect { addr: *addr, len: *len, prot: *prot }
        }
    }
}

#[test]
fn ret_round_trip_every_variant() {
    let samples = vec![
        VmSyscallRet::Read(Ok((9, vec![7, 8, 9]))),
        VmSyscallRet::Read(Err(Error::Errno(-2))),
        VmSyscallRet::Write(Ok(11)),
        VmSyscallRet::Write(Err(Error::SerializeError)),
        VmSyscallRet::Madvise(Ok(-1)),
        VmSyscallRet::Madvise(Err(Error::Errno(errno::ENOSYS))),
        VmSyscallRet::Mmap(Ok(0xdead_b000)),
        VmSyscallRet::Mremap(Err(Error::DeSerializeError)),
        VmSyscallRet::Munmap(Ok(0)),
        VmSyscallRet::Mprotect(Err(Error::Errno(22))),
    ];
    for t in samples {
        let copy = round_trip_ret(clone_ret(&t));
        assert_eq!(copy, t);
    }
}

fn clone_ret(t: &VmSyscallRet) -> VmSyscallRet {
    match t {
        VmSyscallRet::Read(Ok((c, d))) => VmSyscallRet::Read(Ok((*c, d.clone()))),
        VmSyscallRet::Read(Err(e)) => VmSyscallRet::Read(Err(*e)),
        VmSyscallRet::Write(r) => VmSyscallRet::Write(*r),
        VmSyscallRet::Madvise(r) => VmSyscallRet::Madvise(*r),
        VmSyscallRet::Mmap(r) => VmSyscallRet::Mmap(*r),
        VmSyscallRet::Mremap(r) => VmSyscallRet::Mremap(*r),
        VmSyscallRet::Munmap(r) => VmSyscallRet::Munmap(*r),
        VmSyscallRet::Mprotect(r) => VmSyscallRet::Mprotect(*r),
    }
}

#[test]
fn oversized_write_payload_is_a_serialize_error() {
    let s = VmSyscall::Write { fd: 1, count: 0, data: vec![0u8; DATA_MAX + 1] };
    assert_eq!(serialize_syscall(&s).unwrap_err(), Error::SerializeError);
}

#[test]
fn garbage_bytes_are_a_deserialize_error() {
    assert_eq!(deserialize_syscall(&vec![]).unwrap_err(), Error::DeSerializeError);
    assert_eq!(deserialize_syscall(&vec![0u8; 4096]).unwrap_err(), Error::DeSerializeError);
    assert_eq!(deserialize_syscall(&vec![9u8; 21]).unwrap_err(), Error::DeSerializeError);
    // A valid message with trailing garbage is rejected too.
    let mut bytes = serialize_syscall(&VmSyscall::Munmap { addr: 1, len: 2 }).unwrap();
    bytes.push(0);
    assert_eq!(deserialize_syscall(&bytes).unwrap_err(), Error::DeSerializeError);
    assert_eq!(deserialize_ret(&vec![1u8, 9u8, 0u8]).unwrap_err(), Error::DeSerializeError);
}

#[test]
fn test_madvise() {
    let ret = proxy::madvise(0, 0, 0).unwrap_err();
    assert_eq!(ret, Error::Errno(errno::ENOSYS));
}

#[test]
fn test_mmap() {
    let ret = proxy::mmap(0, 0, 0, 0).unwrap_err();
    assert_eq!(ret, Error::Errno(errno::ENOSYS));
}

#[test]
fn test_mremap() {
    let ret = proxy::mremap(0, 0, 0, 0).unwrap_err();
    assert_eq!(ret, Error::Errno(errno::ENOSYS));
}

#[test]
fn test_munmap() {
    let ret = proxy::munmap(0, 0).unwrap_err();
    assert_eq!(ret, Error::Errno(errno::ENOSYS));
}

#[test]
fn test_mprotect() {
    let ret = proxy::mprotect(0, 0, 0).unwrap_err();
    assert_eq!(ret, Error::Errno(errno::ENOSYS));
}

#[test]
fn negated_errno_representation() {
    assert_eq!(errno::neg_as_usize(errno::ENOSYS), (-errno::ENOSYS) as usize);
    assert_eq!(errno::neg_as_usize(errno::EINVAL), (-22i64) as usize);
}

#[test]
fn madvise_round_trip_through_the_shared_page() {
    // The guest serializes the request into the shared page and traps.
    let request = VmSyscall::Madvise { addr: 0, len: 0, advice: 0 };
    let req_bytes = serialize_syscall(&request).unwrap();
    let mut page = vec![0u8; PAGE_SIZE];
    page[..req_bytes.len()].copy_from_slice(&req_bytes);
    let len_bytes = (req_bytes.len() as u16).to_le_bytes();

    let mut handler = VmExitHandler::new();
    let out = handler.handle_vm_exit(
        VmExit::IoOut { port: SYSCALL_TRIGGER_PORT, data: vec![len_bytes[0], len_bytes[1]] },
        &mut page,
    );
    assert!(matches!(out, VmExitAction::ReplyReady));

    // The guest spins on the trigger port to learn the reply size.
    let len = match handler.handle_vm_exit(VmExit::IoIn { port: SYSCALL_TRIGGER_PORT }, &mut page)
    {
        VmExitAction::ReplyLength { len } => len as usize,
        other => panic!("unexpected action {:?}", other),
    };
    let reply = deserialize_ret(&page[..len].to_vec()).unwrap();
    assert_eq!(reply, VmSyscallRet::Madvise(Err(Error::Errno(errno::ENOSYS))));
}

#[test]
fn exit_loop_dispatch() {
    let mut page = vec![0u8; PAGE_SIZE];
    let mut handler = VmExitHandler::new();
    let halt = handler.handle_vm_exit(VmExit::Hlt, &mut page);
    assert!(matches!(halt, VmExitAction::Halt));
    let fatal = handler.handle_vm_exit(VmExit::Other, &mut page);
    assert!(matches!(fatal, VmExitAction::Fatal));
    let success = handler.handle_vm_exit(
        VmExit::IoOut { port: 0xF4, data: vec![0x10, 0, 0, 0] },
        &mut page,
    );
    assert!(matches!(success, VmExitAction::ExitProcess { code: 0 }));
    let failure = handler.handle_vm_exit(
        VmExit::IoOut { port: 0xF4, data: vec![0x11, 0, 0, 0] },
        &mut page,
    );
    assert!(matches!(failure, VmExitAction::ExitProcess { code: 1 }));
    let serial = handler.handle_vm_exit(
        VmExit::IoOut { port: 0x3F8, data: vec![b'h', b'i'] },
        &mut page,
    );
    match serial {
        VmExitAction::WriteSerial { data } => assert_eq!(data, vec![b'h', b'i']),
        other => panic!("unexpected action {:?}", other),
    }
    // Reading the trigger port with no reply pending is a protocol bug.
    let stray = handler.handle_vm_exit(VmExit::IoIn { port: SYSCALL_TRIGGER_PORT }, &mut page);
    assert!(matches!(stray, VmExitAction::Fatal));
}

#[test]
fn hypervisor_exit_codes() {
    assert_eq!(HyperVisorExitCode::Success.code(), 0x10);
    assert_eq!(HyperVisorExitCode::Failed.code(), 0x11);
    let mut page = vec![0u8; PAGE_SIZE];
    let mut handler = VmExitHandler::new();
    let action = handler.handle_vm_exit(
        VmExit::IoOut { port: 0xF4, data: HyperVisorExitCode::Success.port_bytes() },
        &mut page,
    );
    assert!(matches!(action, VmExitAction::ExitProcess { code: 0 }));
    let action = handler.handle_vm_exit(
        VmExit::IoOut { port: 0xF4, data: HyperVisorExitCode::Failed.port_bytes() },
        &mut page,
    );
    assert!(matches!(action, VmExitAction::ExitProcess { code: 1 }));
}
