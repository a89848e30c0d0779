//! The syscall proxy envelope: requests and replies exchanged between the
//! guest and the hypervisor through the fixed shared page, and their exact
//! wire format.
//!
//! Each message is a tag byte followed by the variant's fields, integers in
//! little-endian byte order; `Write` and `Read` carry a length-prefixed
//! byte payload of at most `DATA_MAX` bytes, so every message fits in the
//! 4096-byte page.

use vstd::prelude::*;

verus! {

use crate::wire::enc_u32;
use crate::wire::enc_u64;
use crate::wire::dec_u32;
use crate::wire::dec_u64;

/// Largest byte payload a `Write` request or a `Read` reply may carry.
pub const DATA_MAX: usize = 4000;

/// An error crossing the proxy boundary.
#[derive(Clone, Copy, Debug, PartialEq, Eq, Structural)]
pub enum Error {
    /// The host executed the request and reports a POSIX-style error code.
    Errno(i64),
    /// The request could not be written to the shared page.
    SerializeError,
    /// The bytes in the shared page do not form a valid message.
    DeSerializeError,
}

/// A syscall the guest asks the hypervisor to perform.
#[derive(Debug, PartialEq, Eq)]
pub enum VmSyscall {
    /// `ssize_t read(int fd, void *buf, size_t count)`
    Read {
        /// File descriptor to read from.
        fd: u32,
        /// Number of bytes asked for.
        count: usize,
    },
    /// `ssize_t write(int fd, const void *buf, size_t count)`
    Write {
        /// File descriptor to write to.
        fd: u32,
        /// Number of bytes to write.
        count: usize,
        /// The bytes to write, at most `DATA_MAX` of them.
        data: Vec<u8>,
    },
    /// `int madvise(void *addr, size_t length, int advice)`
    Madvise {
        /// Start of the advised range.
        addr: usize,
        /// Length of the advised range.
        len: usize,
        /// The advice value.
        advice: i32,
    },
    /// `void *mmap(void *addr, size_t length, int prot, int flags, ...)`
    Mmap {
        /// Requested address, or zero.
        addr: usize,
        /// Length of the mapping.
        len: usize,
        /// Protection bits.
        prot: i32,
        /// Mapping flags.
        flags: i32,
    },
    /// `void *mremap(void *old, size_t old_size, size_t new_size, int flags, ...)`
    Mremap {
        /// Old address.
        addr: usize,
        /// Old length.
        len: usize,
        /// New length.
        new_len: usize,
        /// Remapping flags.
        flags: i32,
    },
    /// `int munmap(void *addr, size_t length)`
    Munmap {
        /// Start of the unmapped range.
        addr: usize,
        /// Length of the unmapped range.
        len: usize,
    },
    /// `int mprotect(void *addr, size_t len, int prot)`
    Mprotect {
        /// Start of the protected range.
        addr: usize,
        /// Length of the protected range.
        len: usize,
        /// Protection bits.
        prot: i32,
    },
}

/// The request can be written to the shared page: its payload, if any, is
/// within bounds.
pub open spec fn syscall_wf(s: VmSyscall) -> bool {
    match s {
        VmSyscall::Write { data, .. } => data@.len() <= DATA_MAX,
        _ => true,
    }
}

/// The exact bytes of a request on the wire.
pub open spec fn enc_syscall(s: VmSyscall) -> Seq<u8> {
    match s {
        VmSyscall::Read { fd, count } => seq![1u8] + enc_u32(fd) + enc_u64(count as u64),
        VmSyscall::Write { fd, count, data } => seq![2u8] + enc_u32(fd) + enc_u64(count as u64)
            + enc_u64(data@.len() as u64) + data@,
        VmSyscall::Madvise { addr, len, advice } => seq![3u8] + enc_u64(addr as u64) + enc_u64(
            len as u64,
        ) + enc_u32(advice as u32),
        VmSyscall::Mmap { addr, len, prot, flags } => seq![4u8] + enc_u64(addr as u64) + enc_u64(
            len as u64,
        ) + enc_u32(prot as u32) + enc_u32(flags as u32),
        VmSyscall::Mremap { addr, len, new_len, flags } => seq![5u8] + enc_u64(addr as u64)
            + enc_u64(len as u64) + enc_u64(new_len as u64) + enc_u32(flags as u32),
        VmSyscall::Munmap { addr, len } => seq![6u8] + enc_u64(addr as u64) + enc_u64(len as u64),
        VmSyscall::Mprotect { addr, len, prot } => seq![7u8] + enc_u64(addr as u64) + enc_u64(
            len as u64,
        ) + enc_u32(prot as u32),
    }
}

/// Tag and length of every encoded request: the tag byte pins the variant
/// down and the length is determined (for `Write`, up to its payload).
pub proof fn lemma_enc_syscall_shape(s: VmSyscall)
    ensures
        enc_syscall(s).len() >= 13,
        1 <= enc_syscall(s)[0] <= 7,
        s is Read <==> enc_syscall(s)[0] == 1,
        s is Write <==> enc_syscall(s)[0] == 2,
        s is Madvise <==> enc_syscall(s)[0] == 3,
        s is Mmap <==> enc_syscall(s)[0] == 4,
        s is Mremap <==> enc_syscall(s)[0] == 5,
        s is Munmap <==> enc_syscall(s)[0] == 6,
        s is Mprotect <==> enc_syscall(s)[0] == 7,
        s is Read ==> enc_syscall(s).len() == 13,
        s is Write ==> enc_syscall(s).len() == 21 + s->Write_data@.len(),
        s is Madvise ==> enc_syscall(s).len() == 21,
        s is Mmap ==> enc_syscall(s).len() == 25,
        s is Mremap ==> enc_syscall(s).len() == 29,
        s is Munmap ==> enc_syscall(s).len() == 17,
        s is Mprotect ==> enc_syscall(s).len() == 21,
{
}

/// Appends all of `data` to `buf`.
fn put_bytes(buf: &mut Vec<u8>, data: &Vec<u8>)
    ensures
        final(buf)@ == old(buf)@ + data@,
{
    let ghost base: Seq<u8> = buf@;
    let mut i: usize = 0;
    while i < data.len()
        invariant
            i <= data@.len(),
            buf@ == base + data@.subrange(0, i as int),
        decreases data@.len() - i,
    {
        buf.push(data[i]);
        proof {
            assert(buf@ =~= base + data@.subrange(0, i + 1));
        }
        i += 1;
    }
    proof {
        assert(buf@ =~= base + data@);
    }
}

/// Serializes a request into its wire bytes.
///
/// Succeeds exactly on well-formed requests (payload within bounds) and
/// then returns exactly the encoding, which always fits the shared page.
pub fn serialize_syscall(s: &VmSyscall) -> (r: Result<Vec<u8>, Error>)
    ensures
        syscall_wf(*s) ==> (r matches Ok(v) && v@ == enc_syscall(*s) && v@.len() <= 4096),
        !syscall_wf(*s) ==> r == Err::<Vec<u8>, Error>(Error::SerializeError),
{
    let mut buf: Vec<u8> = Vec::new();
    match s {
        VmSyscall::Read { fd, count } => {
            buf.push(1u8);
            crate::wire::put_u32(&mut buf, *fd);
            crate::wire::put_u64(&mut buf, *count as u64);
            proof {
                assert(buf@ =~= enc_syscall(*s));
            }
            Ok(buf)
        },
        VmSyscall::Write { fd, count, data } => {
            if data.len() > DATA_MAX {
                return Err(Error::SerializeError);
            }
            buf.push(2u8);
            crate::wire::put_u32(&mut buf, *fd);
            crate::wire::put_u64(&mut buf, *count as u64);
            crate::wire::put_u64(&mut buf, data.len() as u64);
            put_bytes(&mut buf, data);
            proof {
                assert(buf@ =~= enc_syscall(*s));
            }
            Ok(buf)
        },
        VmSyscall::Madvise { addr, len, advice } => {
            buf.push(3u8);
            crate::wire::put_u64(&mut buf, *addr as u64);
            crate::wire::put_u64(&mut buf, *len as u64);
            crate::wire::put_u32(&mut buf, *advice as u32);
            proof {
                assert(buf@ =~= enc_syscall(*s));
            }
            Ok(buf)
        },
        VmSyscall::Mmap { addr, len, prot, flags } => {
            buf.push(4u8);
            crate::wire::put_u64(&mut buf, *addr as u64);
            crate::wire::put_u64(&mut buf, *len as u64);
            crate::wire::put_u32(&mut buf, *prot as u32);
            crate::wire::put_u32(&mut buf, *flags as u32);
            proof {
                assert(buf@ =~= enc_syscall(*s));
            }
            Ok(buf)
        },
        VmSyscall::Mremap { addr, len, new_len, flags } => {
            buf.push(5u8);
            crate::wire::put_u64(&mut buf, *addr as u64);
            crate::wire::put_u64(&mut buf, *len as u64);
            crate::wire::put_u64(&mut buf, *new_len as u64);
            crate::wire::put_u32(&mut buf, *flags as u32);
            proof {
                assert(buf@ =~= enc_syscall(*s));
            }
            Ok(buf)
        },
        VmSyscall::Munmap { addr, len } => {
            buf.push(6u8);
            crate::wire::put_u64(&mut buf, *addr as u64);
            crate::wire::put_u64(&mut buf, *len as u64);
            proof {
                assert(buf@ =~= enc_syscall(*s));
            }
            Ok(buf)
        },
        VmSyscall::Mprotect { addr, len, prot } => {
            buf.push(7u8);
            crate::wire::put_u64(&mut buf, *addr as u64);
            crate::wire::put_u64(&mut buf, *len as u64);
            crate::wire::put_u32(&mut buf, *prot as u32);
            proof {
                assert(buf@ =~= enc_syscall(*s));
            }
            Ok(buf)
        },
    }
}

/// The hypervisor's reply to a proxied syscall, mirroring the request's
/// variant.
#[derive(Debug, PartialEq, Eq)]
pub enum VmSyscallRet {
    /// Reply to `Read`: bytes read and the data, or an error.
    Read(Result<(i32, Vec<u8>), Error>),
    /// Reply to `Write`: bytes written, or an error.
    Write(Result<i32, Error>),
    /// Reply to `Madvise`.
    Madvise(Result<i32, Error>),
    /// Reply to `Mmap`: the mapped address, or an error.
    Mmap(Result<usize, Error>),
    /// Reply to `Mremap`: the new address, or an error.
    Mremap(Result<usize, Error>),
    /// Reply to `Munmap`.
    Munmap(Result<i32, Error>),
    /// Reply to `Mprotect`.
    Mprotect(Result<i32, Error>),
}

/// The reply can be written to the shared page: its payload, if any, is
/// within bounds.
pub open spec fn ret_wf(t: VmSyscallRet) -> bool {
    match t {
        VmSyscallRet::Read(Ok((_c, data))) => data@.len() <= DATA_MAX,
        _ => true,
    }
}

/// The reply carries a success.
pub open spec fn ret_is_ok(t: VmSyscallRet) -> bool {
    match t {
        VmSyscallRet::Read(res) => res is Ok,
        VmSyscallRet::Write(res) => res is Ok,
        VmSyscallRet::Madvise(res) => res is Ok,
        VmSyscallRet::Mmap(res) => res is Ok,
        VmSyscallRet::Mremap(res) => res is Ok,
        VmSyscallRet::Munmap(res) => res is Ok,
        VmSyscallRet::Mprotect(res) => res is Ok,
    }
}

/// The error a failed reply carries.
pub open spec fn ret_err(t: VmSyscallRet) -> Error
    recommends
        !ret_is_ok(t),
{
    match t {
        VmSyscallRet::Read(res) => res->Err_0,
        VmSyscallRet::Write(res) => res->Err_0,
        VmSyscallRet::Madvise(res) => res->Err_0,
        VmSyscallRet::Mmap(res) => res->Err_0,
        VmSyscallRet::Mremap(res) => res->Err_0,
        VmSyscallRet::Munmap(res) => res->Err_0,
        VmSyscallRet::Mprotect(res) => res->Err_0,
    }
}

/// The exact bytes of an error on the wire.
pub open spec fn enc_error(e: Error) -> Seq<u8> {
    match e {
        Error::Errno(code) => seq![0u8] + enc_u64(code as u64),
        Error::SerializeError => seq![1u8],
        Error::DeSerializeError => seq![2u8],
    }
}

/// The bytes of an `i32` success or an error, behind a result byte.
pub open spec fn enc_res_i32(res: Result<i32, Error>) -> Seq<u8> {
    match res {
        Ok(v) => seq![0u8] + enc_u32(v as u32),
        Err(e) => seq![1u8] + enc_error(e),
    }
}

/// The bytes of a `usize` success or an error, behind a result byte.
pub open spec fn enc_res_usize(res: Result<usize, Error>) -> Seq<u8> {
    match res {
        Ok(v) => seq![0u8] + enc_u64(v as u64),
        Err(e) => seq![1u8] + enc_error(e),
    }
}

/// The exact bytes of a reply on the wire.
pub open spec fn enc_ret(t: VmSyscallRet) -> Seq<u8> {
    match t {
        VmSyscallRet::Read(res) => seq![1u8] + (match res {
            Ok((c, data)) => seq![0u8] + enc_u32(c as u32) + enc_u64(data@.len() as u64) + data@,
            Err(e) => seq![1u8] + enc_error(e),
        }),
        VmSyscallRet::Write(res) => seq![2u8] + enc_res_i32(res),
        VmSyscallRet::Madvise(res) => seq![3u8] + enc_res_i32(res),
        VmSyscallRet::Mmap(res) => seq![4u8] + enc_res_usize(res),
        VmSyscallRet::Mremap(res) => seq![5u8] + enc_res_usize(res),
        VmSyscallRet::Munmap(res) => seq![6u8] + enc_res_i32(res),
        VmSyscallRet::Mprotect(res) => seq![7u8] + enc_res_i32(res),
    }
}

/// Tag, result byte and length of every encoded reply.
pub proof fn lemma_enc_ret_shape(t: VmSyscallRet)
    ensures
        enc_ret(t).len() >= 3,
        1 <= enc_ret(t)[0] <= 7,
        t is Read <==> enc_ret(t)[0] == 1,
        t is Write <==> enc_ret(t)[0] == 2,
        t is Madvise <==> enc_ret(t)[0] == 3,
        t is Mmap <==> enc_ret(t)[0] == 4,
        t is Mremap <==> enc_ret(t)[0] == 5,
        t is Munmap <==> enc_ret(t)[0] == 6,
        t is Mprotect <==> enc_ret(t)[0] == 7,
        enc_ret(t)[1] == 0 || enc_ret(t)[1] == 1,
        ret_is_ok(t) <==> enc_ret(t)[1] == 0,
        !ret_is_ok(t) ==> enc_ret(t).subrange(2, enc_ret(t).len() as int) == enc_error(ret_err(t)),
        t is Read && ret_is_ok(t) ==> enc_ret(t).len() == 14 + t->Read_0->Ok_0.1@.len(),
        (t is Write || t is Madvise || t is Munmap || t is Mprotect) && ret_is_ok(t) ==> enc_ret(
            t,
        ).len() == 6,
        (t is Mmap || t is Mremap) && ret_is_ok(t) ==> enc_ret(t).len() == 10,
{
    if !ret_is_ok(t) {
        assert(enc_ret(t).subrange(2, enc_ret(t).len() as int) =~= enc_error(ret_err(t)));
    }
}


pub(crate) fn copy_range(b: &Vec<u8>, from: usize, to: usize) -> (out: Vec<u8>)
    requires
        from <= to <= b@.len(),
    ensures
        out@ == b@.subrange(from as int, to as int),
{
    let mut out: Vec<u8> = Vec::new();
    let mut i: usize = from;
    while i < to
        invariant
            from <= i <= to <= b@.len(),
            out@ == b@.subrange(from as int, i as int),
        decreases to - i,
    {
        out.push(b[i]);
        proof {
            assert(out@ =~= b@.subrange(from as int, i + 1));
        }
        i += 1;
    }
    out
}

/// Deserializes a request from its wire bytes.
///
/// Succeeds exactly on byte strings that are the encoding of some
/// well-formed request, and then returns that request; anything else is a
/// `DeSerializeError`.
#[verifier::rlimit(100)]
pub fn deserialize_syscall(b: &Vec<u8>) -> (r: Result<VmSyscall, Error>)
    ensures
        (match r {
            Ok(s) => syscall_wf(s) && b@ == enc_syscall(s),
            Err(e) => e == Error::DeSerializeError && (forall|s: VmSyscall|
                syscall_wf(s) ==> b@ != #[trigger] enc_syscall(s)),
        }),
{
    let n = b.len();
    if n < 13 {
        proof {
            assert forall|s: VmSyscall| syscall_wf(s) implies b@ != enc_syscall(s) by {
                lemma_enc_syscall_shape(s);
            }
        }
        return Err(Error::DeSerializeError);
    }
    let tag = b[0];
    if tag < 1 || tag > 7 {
        proof {
            assert forall|s: VmSyscall| syscall_wf(s) implies b@ != enc_syscall(s) by {
                lemma_enc_syscall_shape(s);
                if b@ == enc_syscall(s) {
                    assert(b@[0] == enc_syscall(s)[0]);
                }
            }
        }
        return Err(Error::DeSerializeError);
    }
    if tag == 1 {
        if n != 13 {
            proof {
                assert forall|s: VmSyscall| syscall_wf(s) implies b@ != enc_syscall(s) by {
                    lemma_enc_syscall_shape(s);
                    if b@ == enc_syscall(s) {
                        assert(b@[0] == enc_syscall(s)[0]);
                    }
                }
            }
            return Err(Error::DeSerializeError);
        }
        let fd = crate::wire::get_u32(b, 1);
        let count = crate::wire::get_u64(b, 5);
        if count > usize::MAX as u64 {
            proof {
                assert forall|s: VmSyscall| syscall_wf(s) implies b@ != enc_syscall(s) by {
                    lemma_enc_syscall_shape(s);
                    if b@ == enc_syscall(s) {
                        assert(b@[0] == enc_syscall(s)[0]);
                        let c = s->Read_count;
                        assert(b@.subrange(5, 13) =~= enc_u64(c as u64));
                        crate::wire::lemma_u64_round_trip(c as u64);
                    }
                }
            }
            return Err(Error::DeSerializeError);
        }
        let s = VmSyscall::Read { fd, count: count as usize };
        proof {
            crate::wire::lemma_u32_bytes_round_trip(b@.subrange(1, 5));
            crate::wire::lemma_u64_bytes_round_trip(b@.subrange(5, 13));
            assert(b@ =~= enc_syscall(s));
        }
        return Ok(s);
    }
    if tag == 2 {
        if n < 21 {
            proof {
                assert forall|s: VmSyscall| syscall_wf(s) implies b@ != enc_syscall(s) by {
                    lemma_enc_syscall_shape(s);
                    if b@ == enc_syscall(s) {
                        assert(b@[0] == enc_syscall(s)[0]);
                    }
                }
            }
            return Err(Error::DeSerializeError);
        }
        let fd = crate::wire::get_u32(b, 1);
        let count = crate::wire::get_u64(b, 5);
        let dlen = crate::wire::get_u64(b, 13);
        if count > usize::MAX as u64 || dlen > DATA_MAX as u64 || n as u64 - 21 != dlen {
            proof {
                assert forall|s: VmSyscall| syscall_wf(s) implies b@ != enc_syscall(s) by {
                    lemma_enc_syscall_shape(s);
                    if b@ == enc_syscall(s) {
                        assert(b@[0] == enc_syscall(s)[0]);
                        let c = s->Write_count;
                        let d = s->Write_data;
                        assert(b@.subrange(5, 13) =~= enc_u64(c as u64));
                        assert(b@.subrange(13, 21) =~= enc_u64(d@.len() as u64));
                        crate::wire::lemma_u64_round_trip(c as u64);
                        crate::wire::lemma_u64_round_trip(d@.len() as u64);
                    }
                }
            }
            return Err(Error::DeSerializeError);
        }
        let data = copy_range(b, 21, n);
        let s = VmSyscall::Write { fd, count: count as usize, data };
        proof {
            crate::wire::lemma_u32_bytes_round_trip(b@.subrange(1, 5));
            crate::wire::lemma_u64_bytes_round_trip(b@.subrange(5, 13));
            crate::wire::lemma_u64_bytes_round_trip(b@.subrange(13, 21));
            assert(b@ =~= enc_syscall(s));
        }
        return Ok(s);
    }
    if tag == 3 || tag == 7 {
        if n != 21 {
            proof {
                assert forall|s: VmSyscall| syscall_wf(s) implies b@ != enc_syscall(s) by {
                    lemma_enc_syscall_shape(s);
                    if b@ == enc_syscall(s) {
                        assert(b@[0] == enc_syscall(s)[0]);
                    }
                }
            }
            return Err(Error::DeSerializeError);
        }
        let addr = crate::wire::get_u64(b, 1);
        let len = crate::wire::get_u64(b, 9);
        let word = crate::wire::get_u32(b, 17);
        if addr > usize::MAX as u64 || len > usize::MAX as u64 {
            proof {
                assert forall|s: VmSyscall| syscall_wf(s) implies b@ != enc_syscall(s) by {
                    lemma_enc_syscall_shape(s);
                    if b@ == enc_syscall(s) {
                        assert(b@[0] == enc_syscall(s)[0]);
                        if s is Madvise {
                            assert(b@.subrange(1, 9) =~= enc_u64(s->Madvise_addr as u64));
                            assert(b@.subrange(9, 17) =~= enc_u64(s->Madvise_len as u64));
                            crate::wire::lemma_u64_round_trip(s->Madvise_addr as u64);
                            crate::wire::lemma_u64_round_trip(s->Madvise_len as u64);
                        } else {
                            assert(b@.subrange(1, 9) =~= enc_u64(s->Mprotect_addr as u64));
                            assert(b@.subrange(9, 17) =~= enc_u64(s->Mprotect_len as u64));
                            crate::wire::lemma_u64_round_trip(s->Mprotect_addr as u64);
                            crate::wire::lemma_u64_round_trip(s->Mprotect_len as u64);
                        }
                    }
                }
            }
            return Err(Error::DeSerializeError);
        }
        let s = if tag == 3 {
            VmSyscall::Madvise { addr: addr as usize, len: len as usize, advice: word as i32 }
        } else {
            VmSyscall::Mprotect { addr: addr as usize, len: len as usize, prot: word as i32 }
        };
        proof {
            crate::wire::lemma_u64_bytes_round_trip(b@.subrange(1, 9));
            crate::wire::lemma_u64_bytes_round_trip(b@.subrange(9, 17));
            crate::wire::lemma_u32_bytes_round_trip(b@.subrange(17, 21));
            crate::wire::lemma_u32_i32_round_trip(word);
            assert(b@ =~= enc_syscall(s));
        }
        return Ok(s);
    }
    if tag == 4 {
        if n != 25 {
            proof {
                assert forall|s: VmSyscall| syscall_wf(s) implies b@ != enc_syscall(s) by {
                    lemma_enc_syscall_shape(s);
                    if b@ == enc_syscall(s) {
                        assert(b@[0] == enc_syscall(s)[0]);
                    }
                }
            }
            return Err(Error::DeSerializeError);
        }
        let addr = crate::wire::get_u64(b, 1);
        let len = crate::wire::get_u64(b, 9);
        let prot = crate::wire::get_u32(b, 17);
        let flags = crate::wire::get_u32(b, 21);
        if addr > usize::MAX as u64 || len > usize::MAX as u64 {
            proof {
                assert forall|s: VmSyscall| syscall_wf(s) implies b@ != enc_syscall(s) by {
                    lemma_enc_syscall_shape(s);
                    if b@ == enc_syscall(s) {
                        assert(b@[0] == enc_syscall(s)[0]);
                        assert(b@.subrange(1, 9) =~= enc_u64(s->Mmap_addr as u64));
                        assert(b@.subrange(9, 17) =~= enc_u64(s->Mmap_len as u64));
                        crate::wire::lemma_u64_round_trip(s->Mmap_addr as u64);
                        crate::wire::lemma_u64_round_trip(s->Mmap_len as u64);
                    }
                }
            }
            return Err(Error::DeSerializeError);
        }
        let s = VmSyscall::Mmap {
            addr: addr as usize,
            len: len as usize,
            prot: prot as i32,
            flags: flags as i32,
        };
        proof {
            crate::wire::lemma_u64_bytes_round_trip(b@.subrange(1, 9));
            crate::wire::lemma_u64_bytes_round_trip(b@.subrange(9, 17));
            crate::wire::lemma_u32_bytes_round_trip(b@.subrange(17, 21));
            crate::wire::lemma_u32_bytes_round_trip(b@.subrange(21, 25));
            crate::wire::lemma_u32_i32_round_trip(prot);
            crate::wire::lemma_u32_i32_round_trip(flags);
            assert(b@ =~= enc_syscall(s));
        }
        return Ok(s);
    }
    if tag == 5 {
        if n != 29 {
            proof {
                assert forall|s: VmSyscall| syscall_wf(s) implies b@ != enc_syscall(s) by {
                    lemma_enc_syscall_shape(s);
                    if b@ == enc_syscall(s) {
                        assert(b@[0] == enc_syscall(s)[0]);
                    }
                }
            }
            return Err(Error::DeSerializeError);
        }
        let addr = crate::wire::get_u64(b, 1);
        let len = crate::wire::get_u64(b, 9);
        let new_len = crate::wire::get_u64(b, 17);
        let flags = crate::wire::get_u32(b, 25);
        if addr > usize::MAX as u64 || len > usize::MAX as u64 || new_len > usize::MAX as u64 {
            proof {
                assert forall|s: VmSyscall| syscall_wf(s) implies b@ != enc_syscall(s) by {
                    lemma_enc_syscall_shape(s);
                    if b@ == enc_syscall(s) {
                        assert(b@[0] == enc_syscall(s)[0]);
                        assert(b@.subrange(1, 9) =~= enc_u64(s->Mremap_addr as u64));
                        assert(b@.subrange(9, 17) =~= enc_u64(s->Mremap_len as u64));
                        assert(b@.subrange(17, 25) =~= enc_u64(s->Mremap_new_len as u64));
                        crate::wire::lemma_u64_round_trip(s->Mremap_addr as u64);
                        crate::wire::lemma_u64_round_trip(s->Mremap_len as u64);
                        crate::wire::lemma_u64_round_trip(s->Mremap_new_len as u64);
                    }
                }
            }
            return Err(Error::DeSerializeError);
        }
        let s = VmSyscall::Mremap {
            addr: addr as usize,
            len: len as usize,
            new_len: new_len as usize,
            flags: flags as i32,
        };
        proof {
            crate::wire::lemma_u64_bytes_round_trip(b@.subrange(1, 9));
            crate::wire::lemma_u64_bytes_round_trip(b@.subrange(9, 17));
            crate::wire::lemma_u64_bytes_round_trip(b@.subrange(17, 25));
            crate::wire::lemma_u32_bytes_round_trip(b@.subrange(25, 29));
            crate::wire::lemma_u32_i32_round_trip(flags);
            assert(b@ =~= enc_syscall(s));
        }
        return Ok(s);
    }
    // tag == 6
    if n != 17 {
        proof {
            assert forall|s: VmSyscall| syscall_wf(s) implies b@ != enc_syscall(s) by {
                lemma_enc_syscall_shape(s);
                if b@ == enc_syscall(s) {
                    assert(b@[0] == enc_syscall(s)[0]);
                }
            }
        }
        return Err(Error::DeSerializeError);
    }
    let addr = crate::wire::get_u64(b, 1);
    let len = crate::wire::get_u64(b, 9);
    if addr > usize::MAX as u64 || len > usize::MAX as u64 {
        proof {
            assert forall|s: VmSyscall| syscall_wf(s) implies b@ != enc_syscall(s) by {
                lemma_enc_syscall_shape(s);
                if b@ == enc_syscall(s) {
                    assert(b@[0] == enc_syscall(s)[0]);
                    assert(b@.subrange(1, 9) =~= enc_u64(s->Munmap_addr as u64));
                    assert(b@.subrange(9, 17) =~= enc_u64(s->Munmap_len as u64));
                    crate::wire::lemma_u64_round_trip(s->Munmap_addr as u64);
                    crate::wire::lemma_u64_round_trip(s->Munmap_len as u64);
                }
            }
        }
        return Err(Error::DeSerializeError);
    }
    let s = VmSyscall::Munmap { addr: addr as usize, len: len as usize };
    proof {
        crate::wire::lemma_u64_bytes_round_trip(b@.subrange(1, 9));
        crate::wire::lemma_u64_bytes_round_trip(b@.subrange(9, 17));
        assert(b@ =~= enc_syscall(s));
    }
    Ok(s)
}

/// Appends the wire bytes of an error.
fn put_error(buf: &mut Vec<u8>, e: &Error)
    ensures
        final(buf)@ == old(buf)@ + enc_error(*e),
{
    match e {
        Error::Errno(code) => {
            buf.push(0u8);
            crate::wire::put_u64(buf, *code as u64);
        },
        Error::SerializeError => {
            buf.push(1u8);
        },
        Error::DeSerializeError => {
            buf.push(2u8);
        },
    }
    proof {
        assert(buf@ =~= old(buf)@ + enc_error(*e));
    }
}

/// Serializes a reply into its wire bytes.
///
/// Succeeds exactly on well-formed replies (payload within bounds) and
/// then returns exactly the encoding, which always fits the shared page.
pub fn serialize_ret(t: &VmSyscallRet) -> (r: Result<Vec<u8>, Error>)
    ensures
        ret_wf(*t) ==> (r matches Ok(v) && v@ == enc_ret(*t) && v@.len() <= 4096),
        !ret_wf(*t) ==> r == Err::<Vec<u8>, Error>(Error::SerializeError),
{
    let mut buf: Vec<u8> = Vec::new();
    match t {
        VmSyscallRet::Read(res) => {
            buf.push(1u8);
            match res {
                Ok((c, data)) => {
                    if data.len() > DATA_MAX {
                        return Err(Error::SerializeError);
                    }
                    buf.push(0u8);
                    crate::wire::put_u32(&mut buf, *c as u32);
                    crate::wire::put_u64(&mut buf, data.len() as u64);
                    put_bytes(&mut buf, data);
                },
                Err(e) => {
                    buf.push(1u8);
                    put_error(&mut buf, e);
                },
            }
            proof {
                assert(buf@ =~= enc_ret(*t));
            }
            Ok(buf)
        },
        VmSyscallRet::Write(res) => {
            buf.push(2u8);
            put_res_i32(&mut buf, res);
            proof {
                assert(buf@ =~= enc_ret(*t));
            }
            Ok(buf)
        },
        VmSyscallRet::Madvise(res) => {
            buf.push(3u8);
            put_res_i32(&mut buf, res);
            proof {
                assert(buf@ =~= enc_ret(*t));
            }
            Ok(buf)
        },
        VmSyscallRet::Mmap(res) => {
            buf.push(4u8);
            put_res_usize(&mut buf, res);
            proof {
                assert(buf@ =~= enc_ret(*t));
            }
            Ok(buf)
        },
        VmSyscallRet::Mremap(res) => {
            buf.push(5u8);
            put_res_usize(&mut buf, res);
            proof {
                assert(buf@ =~= enc_ret(*t));
            }
            Ok(buf)
        },
        VmSyscallRet::Munmap(res) => {
            buf.push(6u8);
            put_res_i32(&mut buf, res);
            proof {
                assert(buf@ =~= enc_ret(*t));
            }
            Ok(buf)
        },
        VmSyscallRet::Mprotect(res) => {
            buf.push(7u8);
            put_res_i32(&mut buf, res);
            proof {
                assert(buf@ =~= enc_ret(*t));
            }
            Ok(buf)
        },
    }
}

/// Appends a result byte and an `i32` success or an error.
fn put_res_i32(buf: &mut Vec<u8>, res: &Result<i32, Error>)
    ensures
        final(buf)@ == old(buf)@ + enc_res_i32(*res),
{
    match res {
        Ok(v) => {
            buf.push(0u8);
            crate::wire::put_u32(buf, *v as u32);
        },
        Err(e) => {
            buf.push(1u8);
            put_error(buf, e);
        },
    }
    proof {
        assert(buf@ =~= old(buf)@ + enc_res_i32(*res));
    }
}

/// Appends a result byte and a `usize` success or an error.
fn put_res_usize(buf: &mut Vec<u8>, res: &Result<usize, Error>)
    ensures
        final(buf)@ == old(buf)@ + enc_res_usize(*res),
{
    match res {
        Ok(v) => {
            buf.push(0u8);
            crate::wire::put_u64(buf, *v as u64);
        },
        Err(e) => {
            buf.push(1u8);
            put_error(buf, e);
        },
    }
    proof {
        assert(buf@ =~= old(buf)@ + enc_res_usize(*res));
    }
}

/// Reads the error whose wire bytes fill `b` from `pos` to the end.
fn get_error_at(b: &Vec<u8>, pos: usize) -> (r: Result<Error, Error>)
    requires
        pos <= b@.len(),
    ensures
        (match r {
            Ok(e) => b@.subrange(pos as int, b@.len() as int) == enc_error(e),
            Err(x) => x == Error::DeSerializeError && (forall|e: Error|
                b@.subrange(pos as int, b@.len() as int) != #[trigger] enc_error(e)),
        }),
{
    let n = b.len();
    let ghost tail = b@.subrange(pos as int, b@.len() as int);
    if n == pos {
        proof {
            assert forall|e: Error| tail != enc_error(e) by {
                assert(enc_error(e).len() >= 1);
            }
        }
        return Err(Error::DeSerializeError);
    }
    let et = b[pos];
    if et == 0 {
        if n - pos != 9 {
            proof {
                assert forall|e: Error| tail != enc_error(e) by {
                    if tail == enc_error(e) {
                        assert(tail[0] == enc_error(e)[0]);
                        if e is Errno {
                            assert(enc_error(e).len() == 9 && enc_error(e)[0] == 0);
                        } else if e is SerializeError {
                            assert(enc_error(e).len() == 1 && enc_error(e)[0] == 1);
                        } else {
                            assert(enc_error(e).len() == 1 && enc_error(e)[0] == 2);
                        }
                    }
                }
            }
            return Err(Error::DeSerializeError);
        }
        let code = crate::wire::get_u64(b, pos + 1);
        let e = Error::Errno(code as i64);
        proof {
            crate::wire::lemma_u64_bytes_round_trip(b@.subrange(pos + 1, pos + 9));
            crate::wire::lemma_i64_u64_round_trip(code as i64);
            crate::wire::lemma_u64_i64_round_trip(code);
            assert(tail =~= enc_error(e));
        }
        return Ok(e);
    }
    if et == 1 {
        if n - pos != 1 {
            proof {
                assert forall|e: Error| tail != enc_error(e) by {
                    if tail == enc_error(e) {
                        assert(tail[0] == enc_error(e)[0]);
                        if e is Errno {
                            assert(enc_error(e).len() == 9 && enc_error(e)[0] == 0);
                        } else if e is SerializeError {
                            assert(enc_error(e).len() == 1 && enc_error(e)[0] == 1);
                        } else {
                            assert(enc_error(e).len() == 1 && enc_error(e)[0] == 2);
                        }
                    }
                }
            }
            return Err(Error::DeSerializeError);
        }
        proof {
            assert(tail =~= enc_error(Error::SerializeError));
        }
        return Ok(Error::SerializeError);
    }
    if et == 2 {
        if n - pos != 1 {
            proof {
                assert forall|e: Error| tail != enc_error(e) by {
                    if tail == enc_error(e) {
                        assert(tail[0] == enc_error(e)[0]);
                        if e is Errno {
                            assert(enc_error(e).len() == 9 && enc_error(e)[0] == 0);
                        } else if e is SerializeError {
                            assert(enc_error(e).len() == 1 && enc_error(e)[0] == 1);
                        } else {
                            assert(enc_error(e).len() == 1 && enc_error(e)[0] == 2);
                        }
                    }
                }
            }
            return Err(Error::DeSerializeError);
        }
        proof {
            assert(tail =~= enc_error(Error::DeSerializeError));
        }
        return Ok(Error::DeSerializeError);
    }
    proof {
        assert forall|e: Error| tail != enc_error(e) by {
            if tail == enc_error(e) {
                assert(tail[0] == enc_error(e)[0]);
                if e is Errno {
                    assert(enc_error(e)[0] == 0);
                } else if e is SerializeError {
                    assert(enc_error(e)[0] == 1);
                } else {
                    assert(enc_error(e)[0] == 2);
                }
            }
        }
    }
    Err(Error::DeSerializeError)
}

/// Deserializes a reply from its wire bytes.
///
/// Succeeds exactly on byte strings that are the encoding of some
/// well-formed reply, and then returns that reply; anything else is a
/// `DeSerializeError`.
#[verifier::rlimit(100)]
pub fn deserialize_ret(b: &Vec<u8>) -> (r: Result<VmSyscallRet, Error>)
    ensures
        (match r {
            Ok(t) => ret_wf(t) && b@ == enc_ret(t),
            Err(e) => e == Error::DeSerializeError && (forall|t: VmSyscallRet|
                ret_wf(t) ==> b@ != #[trigger] enc_ret(t)),
        }),
{
    let n = b.len();
    if n < 3 {
        proof {
            assert forall|t: VmSyscallRet| ret_wf(t) implies b@ != enc_ret(t) by {
                lemma_enc_ret_shape(t);
            }
        }
        return Err(Error::DeSerializeError);
    }
    let tag = b[0];
    let resb = b[1];
    if tag < 1 || tag > 7 || resb > 1 {
        proof {
            assert forall|t: VmSyscallRet| ret_wf(t) implies b@ != enc_ret(t) by {
                lemma_enc_ret_shape(t);
                if b@ == enc_ret(t) {
                    assert(b@[0] == enc_ret(t)[0] && b@[1] == enc_ret(t)[1]);
                }
            }
        }
        return Err(Error::DeSerializeError);
    }
    if resb == 1 {
        let e = match get_error_at(b, 2) {
            Ok(e) => e,
            Err(x) => {
                proof {
                    assert forall|t: VmSyscallRet| ret_wf(t) implies b@ != enc_ret(t) by {
                        lemma_enc_ret_shape(t);
                        if b@ == enc_ret(t) {
                            assert(b@[1] == enc_ret(t)[1]);
                            assert(b@.subrange(2, b@.len() as int) == enc_error(ret_err(t)));
                        }
                    }
                }
                return Err(x);
            },
        };
        let t = if tag == 1 {
            VmSyscallRet::Read(Err(e))
        } else if tag == 2 {
            VmSyscallRet::Write(Err(e))
        } else if tag == 3 {
            VmSyscallRet::Madvise(Err(e))
        } else if tag == 4 {
            VmSyscallRet::Mmap(Err(e))
        } else if tag == 5 {
            VmSyscallRet::Mremap(Err(e))
        } else if tag == 6 {
            VmSyscallRet::Munmap(Err(e))
        } else {
            VmSyscallRet::Mprotect(Err(e))
        };
        proof {
            assert(b@ =~= enc_ret(t));
        }
        return Ok(t);
    }
    // resb == 0: a success payload follows.
    if tag == 1 {
        if n < 14 {
            proof {
                assert forall|t: VmSyscallRet| ret_wf(t) implies b@ != enc_ret(t) by {
                    lemma_enc_ret_shape(t);
                    if b@ == enc_ret(t) {
                        assert(b@[0] == enc_ret(t)[0] && b@[1] == enc_ret(t)[1]);
                    }
                }
            }
            return Err(Error::DeSerializeError);
        }
        let c = crate::wire::get_u32(b, 2);
        let dlen = crate::wire::get_u64(b, 6);
        if dlen > DATA_MAX as u64 || n as u64 - 14 != dlen {
            proof {
                assert forall|t: VmSyscallRet| ret_wf(t) implies b@ != enc_ret(t) by {
                    lemma_enc_ret_shape(t);
                    if b@ == enc_ret(t) {
                        assert(b@[0] == enc_ret(t)[0] && b@[1] == enc_ret(t)[1]);
                        let d = t->Read_0->Ok_0.1;
                        assert(b@.subrange(6, 14) =~= enc_u64(d@.len() as u64));
                        crate::wire::lemma_u64_round_trip(d@.len() as u64);
                    }
                }
            }
            return Err(Error::DeSerializeError);
        }
        let data = copy_range(b, 14, n);
        let t = VmSyscallRet::Read(Ok((c as i32, data)));
        proof {
            crate::wire::lemma_u32_bytes_round_trip(b@.subrange(2, 6));
            crate::wire::lemma_u64_bytes_round_trip(b@.subrange(6, 14));
            crate::wire::lemma_u32_i32_round_trip(c);
            assert(b@ =~= enc_ret(t));
        }
        return Ok(t);
    }
    if tag == 4 || tag == 5 {
        if n != 10 {
            proof {
                assert forall|t: VmSyscallRet| ret_wf(t) implies b@ != enc_ret(t) by {
                    lemma_enc_ret_shape(t);
                    if b@ == enc_ret(t) {
                        assert(b@[0] == enc_ret(t)[0] && b@[1] == enc_ret(t)[1]);
                    }
                }
            }
            return Err(Error::DeSerializeError);
        }
        let v = crate::wire::get_u64(b, 2);
        if v > usize::MAX as u64 {
            proof {
                assert forall|t: VmSyscallRet| ret_wf(t) implies b@ != enc_ret(t) by {
                    lemma_enc_ret_shape(t);
                    if b@ == enc_ret(t) {
                        assert(b@[0] == enc_ret(t)[0] && b@[1] == enc_ret(t)[1]);
                        if t is Mmap {
                            assert(b@.subrange(2, 10) =~= enc_u64(t->Mmap_0->Ok_0 as u64));
                            crate::wire::lemma_u64_round_trip(t->Mmap_0->Ok_0 as u64);
                        } else {
                            assert(b@.subrange(2, 10) =~= enc_u64(t->Mremap_0->Ok_0 as u64));
                            crate::wire::lemma_u64_round_trip(t->Mremap_0->Ok_0 as u64);
                        }
                    }
                }
            }
            return Err(Error::DeSerializeError);
        }
        let t = if tag == 4 {
            VmSyscallRet::Mmap(Ok(v as usize))
        } else {
            VmSyscallRet::Mremap(Ok(v as usize))
        };
        proof {
            crate::wire::lemma_u64_bytes_round_trip(b@.subrange(2, 10));
            assert(b@ =~= enc_ret(t));
        }
        return Ok(t);
    }
    // tags 2, 3, 6, 7 carry an i32 success.
    if n != 6 {
        proof {
            assert forall|t: VmSyscallRet| ret_wf(t) implies b@ != enc_ret(t) by {
                lemma_enc_ret_shape(t);
                if b@ == enc_ret(t) {
                    assert(b@[0] == enc_ret(t)[0] && b@[1] == enc_ret(t)[1]);
                }
            }
        }
        return Err(Error::DeSerializeError);
    }
    let v = crate::wire::get_u32(b, 2);
    let t = if tag == 2 {
        VmSyscallRet::Write(Ok(v as i32))
    } else if tag == 3 {
        VmSyscallRet::Madvise(Ok(v as i32))
    } else if tag == 6 {
        VmSyscallRet::Munmap(Ok(v as i32))
    } else {
        VmSyscallRet::Mprotect(Ok(v as i32))
    };
    proof {
        crate::wire::lemma_u32_bytes_round_trip(b@.subrange(2, 6));
        crate::wire::lemma_u32_i32_round_trip(v);
        assert(b@ =~= enc_ret(t));
    }
    Ok(t)
}

/// The two replies say the same thing: equal in every field, with byte
/// payloads compared by content.
pub open spec fn ret_equiv(a: VmSyscallRet, b: VmSyscallRet) -> bool {
    match (a, b) {
        (VmSyscallRet::Read(Ok((c1, d1))), VmSyscallRet::Read(Ok((c2, d2)))) => c1 == c2 && d1@
            == d2@,
        _ => a == b,
    }
}

/// Round trip for replies: two well-formed replies with the same wire
/// bytes say the same thing, so deserializing what `serialize_ret` wrote
/// yields the original reply.
pub proof fn lemma_enc_ret_injective(t1: VmSyscallRet, t2: VmSyscallRet)
    requires
        ret_wf(t1),
        ret_wf(t2),
        enc_ret(t1) == enc_ret(t2),
    ensures
        ret_equiv(t1, t2),
{
    lemma_enc_ret_shape(t1);
    lemma_enc_ret_shape(t2);
    let b = enc_ret(t1);
    if !ret_is_ok(t1) {
        assert(enc_error(ret_err(t1)) == enc_error(ret_err(t2)));
        lemma_enc_error_injective(ret_err(t1), ret_err(t2));
        assert(t1 == t2);
    } else {
        if t1 is Read {
            let (c1, d1) = t1->Read_0->Ok_0;
            let (c2, d2) = t2->Read_0->Ok_0;
            assert(b.subrange(2, 6) =~= enc_u32(c1 as u32));
            assert(b.subrange(2, 6) =~= enc_u32(c2 as u32));
            assert(b.subrange(6, 14) =~= enc_u64(d1@.len() as u64));
            assert(b.subrange(6, 14) =~= enc_u64(d2@.len() as u64));
            crate::wire::lemma_u32_round_trip(c1 as u32);
            crate::wire::lemma_u32_round_trip(c2 as u32);
            crate::wire::lemma_i32_u32_round_trip(c1);
            crate::wire::lemma_i32_u32_round_trip(c2);
            crate::wire::lemma_u64_round_trip(d1@.len() as u64);
            crate::wire::lemma_u64_round_trip(d2@.len() as u64);
            assert(d1@ =~= b.subrange(14, b.len() as int));
            assert(d2@ =~= b.subrange(14, b.len() as int));
        } else if t1 is Mmap || t1 is Mremap {
            let v1 = if t1 is Mmap {
                t1->Mmap_0->Ok_0
            } else {
                t1->Mremap_0->Ok_0
            };
            let v2 = if t2 is Mmap {
                t2->Mmap_0->Ok_0
            } else {
                t2->Mremap_0->Ok_0
            };
            assert(b.subrange(2, 10) =~= enc_u64(v1 as u64));
            assert(b.subrange(2, 10) =~= enc_u64(v2 as u64));
            crate::wire::lemma_u64_round_trip(v1 as u64);
            crate::wire::lemma_u64_round_trip(v2 as u64);
            assert(t1 == t2);
        } else {
            let v1 = if t1 is Write {
                t1->Write_0->Ok_0
            } else if t1 is Madvise {
                t1->Madvise_0->Ok_0
            } else if t1 is Munmap {
                t1->Munmap_0->Ok_0
            } else {
                t1->Mprotect_0->Ok_0
            };
            let v2 = if t2 is Write {
                t2->Write_0->Ok_0
            } else if t2 is Madvise {
                t2->Madvise_0->Ok_0
            } else if t2 is Munmap {
                t2->Munmap_0->Ok_0
            } else {
                t2->Mprotect_0->Ok_0
            };
            assert(b.subrange(2, 6) =~= enc_u32(v1 as u32));
            assert(b.subrange(2, 6) =~= enc_u32(v2 as u32));
            crate::wire::lemma_u32_round_trip(v1 as u32);
            crate::wire::lemma_u32_round_trip(v2 as u32);
            crate::wire::lemma_i32_u32_round_trip(v1);
            crate::wire::lemma_i32_u32_round_trip(v2);
            assert(t1 == t2);
        }
    }
}

/// Equal error encodings mean equal errors.
proof fn lemma_enc_error_injective(e1: Error, e2: Error)
    requires
        enc_error(e1) == enc_error(e2),
    ensures
        e1 == e2,
{
    if e1 is Errno {
        assert(enc_error(e1)[0] == 0);
        assert(enc_error(e2)[0] == enc_error(e1)[0]);
        if e2 is SerializeError {
            assert(enc_error(e2)[0] == 1);
        }
        if e2 is DeSerializeError {
            assert(enc_error(e2)[0] == 2);
        }
        let c1 = e1->Errno_0;
        let c2 = e2->Errno_0;
        assert(enc_error(e1).subrange(1, 9) =~= enc_u64(c1 as u64));
        assert(enc_error(e2).subrange(1, 9) =~= enc_u64(c2 as u64));
        crate::wire::lemma_u64_round_trip(c1 as u64);
        crate::wire::lemma_u64_round_trip(c2 as u64);
        crate::wire::lemma_i64_u64_round_trip(c1);
        crate::wire::lemma_i64_u64_round_trip(c2);
        assert(c1 == c2);
        assert(e1 == Error::Errno(c1) && e2 == Error::Errno(c2));
    } else {
        assert(enc_error(e1)[0] == enc_error(e2)[0]);
        if e2 is Errno {
            assert(enc_error(e2)[0] == 0);
            if e1 is SerializeError {
                assert(enc_error(e1)[0] == 1);
            } else {
                assert(enc_error(e1)[0] == 2);
            }
        }
        if e1 is SerializeError && e2 is DeSerializeError {
            assert(enc_error(e1)[0] == 1 && enc_error(e2)[0] == 2);
        }
        if e1 is DeSerializeError && e2 is SerializeError {
            assert(enc_error(e1)[0] == 2 && enc_error(e2)[0] == 1);
        }
    }
}

/// The two requests ask for the same thing: equal in every field, with
/// byte payloads compared by content.
pub open spec fn syscall_equiv(a: VmSyscall, b: VmSyscall) -> bool {
    match (a, b) {
        (
            VmSyscall::Write { fd: f1, count: c1, data: d1 },
            VmSyscall::Write { fd: f2, count: c2, data: d2 },
        ) => f1 == f2 && c1 == c2 && d1@ == d2@,
        _ => a == b,
    }
}

/// Round trip: two well-formed requests with the same wire bytes ask for
/// the same thing, so deserializing what `serialize_syscall` wrote yields
/// the original request.
pub proof fn lemma_enc_syscall_injective(s1: VmSyscall, s2: VmSyscall)
    requires
        syscall_wf(s1),
        syscall_wf(s2),
        enc_syscall(s1) == enc_syscall(s2),
    ensures
        syscall_equiv(s1, s2),
{
    lemma_enc_syscall_shape(s1);
    lemma_enc_syscall_shape(s2);
    lemma_syscall_fields_from_bytes(s1);
    lemma_syscall_fields_from_bytes(s2);
    if s1 is Read {
        assert(s1->Read_count == s2->Read_count);
        assert(s1 == (VmSyscall::Read { fd: s1->Read_fd, count: s1->Read_count }));
        assert(s2 == (VmSyscall::Read { fd: s2->Read_fd, count: s2->Read_count }));
    } else if s1 is Write {
        assert(s1->Write_data@ =~= s2->Write_data@);
        assert(s1->Write_count == s2->Write_count);
    } else if s1 is Madvise {
        assert(s1->Madvise_addr == s2->Madvise_addr && s1->Madvise_len == s2->Madvise_len
            && s1->Madvise_advice == s2->Madvise_advice) by {
            crate::wire::lemma_i32_u32_round_trip(s1->Madvise_advice);
            crate::wire::lemma_i32_u32_round_trip(s2->Madvise_advice);
        }
        assert(s1 == (VmSyscall::Madvise {
            addr: s1->Madvise_addr,
            len: s1->Madvise_len,
            advice: s1->Madvise_advice,
        }));
        assert(s2 == (VmSyscall::Madvise {
            addr: s2->Madvise_addr,
            len: s2->Madvise_len,
            advice: s2->Madvise_advice,
        }));
    } else if s1 is Mmap {
        assert(s1->Mmap_addr == s2->Mmap_addr && s1->Mmap_len == s2->Mmap_len && s1->Mmap_prot
            == s2->Mmap_prot && s1->Mmap_flags == s2->Mmap_flags) by {
            crate::wire::lemma_i32_u32_round_trip(s1->Mmap_prot);
            crate::wire::lemma_i32_u32_round_trip(s2->Mmap_prot);
            crate::wire::lemma_i32_u32_round_trip(s1->Mmap_flags);
            crate::wire::lemma_i32_u32_round_trip(s2->Mmap_flags);
        }
        assert(s1 == (VmSyscall::Mmap {
            addr: s1->Mmap_addr,
            len: s1->Mmap_len,
            prot: s1->Mmap_prot,
            flags: s1->Mmap_flags,
        }));
        assert(s2 == (VmSyscall::Mmap {
            addr: s2->Mmap_addr,
            len: s2->Mmap_len,
            prot: s2->Mmap_prot,
            flags: s2->Mmap_flags,
        }));
    } else if s1 is Mremap {
        assert(s1->Mremap_addr == s2->Mremap_addr && s1->Mremap_len == s2->Mremap_len
            && s1->Mremap_new_len == s2->Mremap_new_len && s1->Mremap_flags == s2->Mremap_flags)
            by {
            crate::wire::lemma_i32_u32_round_trip(s1->Mremap_flags);
            crate::wire::lemma_i32_u32_round_trip(s2->Mremap_flags);
        }
        assert(s1 == (VmSyscall::Mremap {
            addr: s1->Mremap_addr,
            len: s1->Mremap_len,
            new_len: s1->Mremap_new_len,
            flags: s1->Mremap_flags,
        }));
        assert(s2 == (VmSyscall::Mremap {
            addr: s2->Mremap_addr,
            len: s2->Mremap_len,
            new_len: s2->Mremap_new_len,
            flags: s2->Mremap_flags,
        }));
    } else if s1 is Munmap {
        assert(s1->Munmap_addr == s2->Munmap_addr && s1->Munmap_len == s2->Munmap_len);
        assert(s1 == (VmSyscall::Munmap { addr: s1->Munmap_addr, len: s1->Munmap_len }));
        assert(s2 == (VmSyscall::Munmap { addr: s2->Munmap_addr, len: s2->Munmap_len }));
    } else {
        assert(s1->Mprotect_addr == s2->Mprotect_addr && s1->Mprotect_len == s2->Mprotect_len
            && s1->Mprotect_prot == s2->Mprotect_prot) by {
            crate::wire::lemma_i32_u32_round_trip(s1->Mprotect_prot);
            crate::wire::lemma_i32_u32_round_trip(s2->Mprotect_prot);
        }
        assert(s1 == (VmSyscall::Mprotect {
            addr: s1->Mprotect_addr,
            len: s1->Mprotect_len,
            prot: s1->Mprotect_prot,
        }));
        assert(s2 == (VmSyscall::Mprotect {
            addr: s2->Mprotect_addr,
            len: s2->Mprotect_len,
            prot: s2->Mprotect_prot,
        }));
    }
}

/// Every field of a request can be read back off its wire bytes.
proof fn lemma_syscall_fields_from_bytes(s: VmSyscall)
    ensures
        s is Read ==> s->Read_fd == dec_u32(enc_syscall(s).subrange(1, 5)) && s->Read_count as u64
            == dec_u64(enc_syscall(s).subrange(5, 13)),
        s is Write ==> s->Write_fd == dec_u32(enc_syscall(s).subrange(1, 5)) && s->Write_count as u64
            == dec_u64(enc_syscall(s).subrange(5, 13)) && s->Write_data@.len() as u64 == dec_u64(
            enc_syscall(s).subrange(13, 21),
        ) && s->Write_data@ == enc_syscall(s).subrange(21, enc_syscall(s).len() as int),
        s is Madvise ==> s->Madvise_addr as u64 == dec_u64(enc_syscall(s).subrange(1, 9))
            && s->Madvise_len as u64 == dec_u64(enc_syscall(s).subrange(9, 17))
            && s->Madvise_advice as u32 == dec_u32(enc_syscall(s).subrange(17, 21)),
        s is Mmap ==> s->Mmap_addr as u64 == dec_u64(enc_syscall(s).subrange(1, 9))
            && s->Mmap_len as u64 == dec_u64(enc_syscall(s).subrange(9, 17)) && s->Mmap_prot as u32
            == dec_u32(enc_syscall(s).subrange(17, 21)) && s->Mmap_flags as u32 == dec_u32(
            enc_syscall(s).subrange(21, 25),
        ),
        s is Mremap ==> s->Mremap_addr as u64 == dec_u64(enc_syscall(s).subrange(1, 9))
            && s->Mremap_len as u64 == dec_u64(enc_syscall(s).subrange(9, 17))
            && s->Mremap_new_len as u64 == dec_u64(enc_syscall(s).subrange(17, 25))
            && s->Mremap_flags as u32 == dec_u32(enc_syscall(s).subrange(25, 29)),
        s is Munmap ==> s->Munmap_addr as u64 == dec_u64(enc_syscall(s).subrange(1, 9))
            && s->Munmap_len as u64 == dec_u64(enc_syscall(s).subrange(9, 17)),
        s is Mprotect ==> s->Mprotect_addr as u64 == dec_u64(enc_syscall(s).subrange(1, 9))
            && s->Mprotect_len as u64 == dec_u64(enc_syscall(s).subrange(9, 17))
            && s->Mprotect_prot as u32 == dec_u32(enc_syscall(s).subrange(17, 21)),
{
    let b = enc_syscall(s);
    match s {
        VmSyscall::Read { fd, count } => {
            assert(b.subrange(1, 5) =~= enc_u32(fd));
            assert(b.subrange(5, 13) =~= enc_u64(count as u64));
            crate::wire::lemma_u32_round_trip(fd);
            crate::wire::lemma_u64_round_trip(count as u64);
        },
        VmSyscall::Write { fd, count, data } => {
            assert(b.subrange(1, 5) =~= enc_u32(fd));
            assert(b.subrange(5, 13) =~= enc_u64(count as u64));
            assert(b.subrange(13, 21) =~= enc_u64(data@.len() as u64));
            assert(b.subrange(21, b.len() as int) =~= data@);
            crate::wire::lemma_u32_round_trip(fd);
            crate::wire::lemma_u64_round_trip(count as u64);
            crate::wire::lemma_u64_round_trip(data@.len() as u64);
        },
        VmSyscall::Madvise { addr, len, advice } => {
            assert(b.subrange(1, 9) =~= enc_u64(addr as u64));
            assert(b.subrange(9, 17) =~= enc_u64(len as u64));
            assert(b.subrange(17, 21) =~= enc_u32(advice as u32));
            crate::wire::lemma_u64_round_trip(addr as u64);
            crate::wire::lemma_u64_round_trip(len as u64);
            crate::wire::lemma_u32_round_trip(advice as u32);
        },
        VmSyscall::Mmap { addr, len, prot, flags } => {
            assert(b.subrange(1, 9) =~= enc_u64(addr as u64));
            assert(b.subrange(9, 17) =~= enc_u64(len as u64));
            assert(b.subrange(17, 21) =~= enc_u32(prot as u32));
            assert(b.subrange(21, 25) =~= enc_u32(flags as u32));
            crate::wire::lemma_u64_round_trip(addr as u64);
            crate::wire::lemma_u64_round_trip(len as u64);
            crate::wire::lemma_u32_round_trip(prot as u32);
            crate::wire::lemma_u32_round_trip(flags as u32);
        },
        VmSyscall::Mremap { addr, len, new_len, flags } => {
            assert(b.subrange(1, 9) =~= enc_u64(addr as u64));
            assert(b.subrange(9, 17) =~= enc_u64(len as u64));
            assert(b.subrange(17, 25) =~= enc_u64(new_len as u64));
            assert(b.subrange(25, 29) =~= enc_u32(flags as u32));
            crate::wire::lemma_u64_round_trip(addr as u64);
            crate::wire::lemma_u64_round_trip(len as u64);
            crate::wire::lemma_u64_round_trip(new_len as u64);
            crate::wire::lemma_u32_round_trip(flags as u32);
        },
        VmSyscall::Munmap { addr, len } => {
            assert(b.subrange(1, 9) =~= enc_u64(addr as u64));
            assert(b.subrange(9, 17) =~= enc_u64(len as u64));
            crate::wire::lemma_u64_round_trip(addr as u64);
            crate::wire::lemma_u64_round_trip(len as u64);
        },
        VmSyscall::Mprotect { addr, len, prot } => {
            assert(b.subrange(1, 9) =~= enc_u64(addr as u64));
            assert(b.subrange(9, 17) =~= enc_u64(len as u64));
            assert(b.subrange(17, 21) =~= enc_u32(prot as u32));
            crate::wire::lemma_u64_round_trip(addr as u64);
            crate::wire::lemma_u64_round_trip(len as u64);
            crate::wire::lemma_u32_round_trip(prot as u32);
        },
    }
}

} // verus!
