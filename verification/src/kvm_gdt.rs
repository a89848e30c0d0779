//! Hypervisor-side segment plumbing: packing raw GDT entry quadwords,
//! extracting the vCPU segment-register state bit-for-bit from them, and
//! the little-endian descriptor images written into guest memory.

use vstd::prelude::*;

verus! {

use crate::wire::enc_u16;
use crate::wire::enc_u32;
use crate::wire::enc_u64;

/// The quadword `gdt_entry` packs.
pub open spec fn spec_gdt_entry(flags: u16, base: u32, limit: u32) -> u64 {
    (((base as u64) & 0xff00_0000) << 32) | (((flags as u64) & 0xf0ff) << 40) | (((limit as u64)
        & 0xf_0000) << 32) | (((base as u64) & 0x00ff_ffff) << 16) | ((limit as u64) & 0xffff)
}

/// Packs one GDT entry quadword from the classic `flags`, `base`,
/// `limit` triple.
pub fn gdt_entry(flags: u16, base: u32, limit: u32) -> (r: u64)
    ensures
        r == spec_gdt_entry(flags, base, limit),
        r == (((base as u64) & 0xff00_0000) << 32) | (((flags as u64) & 0xf0ff) << 40) | (((
        limit as u64) & 0xf_0000) << 32) | (((base as u64) & 0x00ff_ffff) << 16) | ((limit as u64)
            & 0xffff),
{
    (((base as u64) & 0xff00_0000) << 32) | (((flags as u64) & 0xf0ff) << 40) | (((limit as u64)
        & 0xf_0000) << 32) | (((base as u64) & 0x00ff_ffff) << 16) | ((limit as u64) & 0xffff)
}

/// The vCPU segment-register state handed to the virtualization layer;
/// plain fields mirroring the hardware segment description.
#[derive(Clone, Copy, Debug, PartialEq, Eq, Structural)]
pub struct Segment {
    /// Segment base address.
    pub base: u64,
    /// Segment limit.
    pub limit: u32,
    /// Selector naming the GDT entry.
    pub selector: u16,
    /// Segment type bits.
    pub type_: u8,
    /// Present bit.
    pub present: u8,
    /// Descriptor privilege level.
    pub dpl: u8,
    /// Default operation size bit.
    pub db: u8,
    /// Code/data (non-system) bit.
    pub s: u8,
    /// Long-mode bit.
    pub l: u8,
    /// Granularity bit.
    pub g: u8,
    /// Available-for-software bit.
    pub avl: u8,
    /// Set exactly when the segment is not present.
    pub unusable: u8,
    /// Always zero.
    pub padding: u8,
}

/// The segment state `kvm_segment_from_gdt` unpacks.
pub open spec fn spec_segment_from_gdt(entry: u64, table_index: u8) -> Segment {
    Segment {
        base: ((entry >> 16) & 0x00ff_ffff) | (((entry >> 56) & 0xff) << 24),
        limit: ((entry & 0xffff) | ((entry >> 32) & 0xf_0000)) as u32,
        selector: ((table_index as u16) * 8) as u16,
        type_: ((entry >> 40) & 0xf) as u8,
        present: ((entry >> 47) & 0x1) as u8,
        dpl: ((entry >> 45) & 0x3) as u8,
        db: ((entry >> 54) & 0x1) as u8,
        s: ((entry >> 44) & 0x1) as u8,
        l: ((entry >> 53) & 0x1) as u8,
        g: ((entry >> 55) & 0x1) as u8,
        avl: ((entry >> 52) & 0x1) as u8,
        unusable: (if (entry >> 47) & 0x1 == 0 {
            1u8
        } else {
            0u8
        }),
        padding: 0,
    }
}

/// Unpacks the vCPU segment state for the GDT entry `entry` at table
/// index `table_index`, bit-for-bit consistent with what `gdt_entry`
/// packed into guest memory.
pub fn kvm_segment_from_gdt(entry: u64, table_index: u8) -> (r: Segment)
    ensures
        r == spec_segment_from_gdt(entry, table_index),
        r.base == ((entry >> 16) & 0x00ff_ffff) | (((entry >> 56) & 0xff) << 24),
        r.limit == (((entry & 0xffff) | ((entry >> 32) & 0xf_0000)) as u32),
        r.selector == (table_index as u16) * 8,
        r.type_ == (((entry >> 40) & 0xf) as u8),
        r.present == (((entry >> 47) & 0x1) as u8),
        r.dpl == (((entry >> 45) & 0x3) as u8),
        r.db == (((entry >> 54) & 0x1) as u8),
        r.s == (((entry >> 44) & 0x1) as u8),
        r.l == (((entry >> 53) & 0x1) as u8),
        r.g == (((entry >> 55) & 0x1) as u8),
        r.avl == (((entry >> 52) & 0x1) as u8),
        r.unusable == (if (entry >> 47) & 0x1 == 0 {
            1u8
        } else {
            0u8
        }),
        r.padding == 0,
{
    proof {
        assert((entry >> 40) & 0xf < 256 && (entry >> 47) & 0x1 < 256 && (entry >> 45) & 0x3 < 256
            && (entry >> 54) & 0x1 < 256 && (entry >> 44) & 0x1 < 256 && (entry >> 53) & 0x1 < 256
            && (entry >> 55) & 0x1 < 256 && (entry >> 52) & 0x1 < 256 && ((entry & 0xffff) | ((
        entry >> 32) & 0xf_0000)) < 0x1_0000_0000) by (bit_vector);
    }
    let present = ((entry >> 47) & 0x1) as u8;
    Segment {
        base: ((entry >> 16) & 0x00ff_ffff) | (((entry >> 56) & 0xff) << 24),
        limit: ((entry & 0xffff) | ((entry >> 32) & 0xf_0000)) as u32,
        selector: (table_index as u16) * 8,
        type_: ((entry >> 40) & 0xf) as u8,
        present,
        dpl: ((entry >> 45) & 0x3) as u8,
        db: ((entry >> 54) & 0x1) as u8,
        s: ((entry >> 44) & 0x1) as u8,
        l: ((entry >> 53) & 0x1) as u8,
        g: ((entry >> 55) & 0x1) as u8,
        avl: ((entry >> 52) & 0x1) as u8,
        unusable: if present == 0 {
            1
        } else {
            0
        },
        padding: 0,
    }
}

/// A four-byte little-endian bit-field unit, as C bit fields lay it out.
#[derive(Clone, Copy, Debug, PartialEq, Eq)]
#[allow(non_camel_case_types)]
pub struct __BindgenBitfieldUnit {
    storage: [u8; 4],
}

/// Bit `index` of the unit's little-endian storage.
pub open spec fn unit_bit(storage: Seq<u8>, index: int) -> bool {
    (storage[index / 8] >> ((index % 8) as u8)) & 1 == 1
}

impl __BindgenBitfieldUnit {
    /// The unit's bytes.
    pub closed spec fn bytes(&self) -> Seq<u8> {
        self.storage@
    }

    /// A unit over the given storage bytes.
    pub fn new(storage: [u8; 4]) -> (r: __BindgenBitfieldUnit)
        ensures
            r.bytes() == storage@,
    {
        __BindgenBitfieldUnit { storage }
    }

    /// A unit of all-zero bytes.
    pub fn zeroed() -> (r: __BindgenBitfieldUnit)
        ensures
            r.bytes() =~= seq![0u8, 0u8, 0u8, 0u8],
    {
        __BindgenBitfieldUnit { storage: [0, 0, 0, 0] }
    }

    /// Reads one bit.
    pub fn get_bit(&self, index: usize) -> (r: bool)
        requires
            index < 32,
        ensures
            r == unit_bit(self.bytes(), index as int),
    {
        let byte_index = index / 8;
        let byte = self.storage[byte_index];
        let bit_index = (index % 8) as u8;
        (byte >> bit_index) & 1 == 1
    }

    /// Writes one bit.
    pub fn set_bit(&mut self, index: usize, val: bool)
        requires
            index < 32,
        ensures
            final(self).bytes().len() == 4,
            forall|k: int|
                0 <= k < 32 ==> unit_bit(final(self).bytes(), k) == (if k == index {
                    val
                } else {
                    unit_bit(old(self).bytes(), k)
                }),
    {
        let byte_index = index / 8;
        let bit_index = (index % 8) as u8;
        let mask: u8 = 1u8 << bit_index;
        let b = self.storage[byte_index];
        let nb = if val {
            b | mask
        } else {
            b & !mask
        };
        let s = self.storage;
        self.storage = if byte_index == 0 {
            [nb, s[1], s[2], s[3]]
        } else if byte_index == 1 {
            [s[0], nb, s[2], s[3]]
        } else if byte_index == 2 {
            [s[0], s[1], nb, s[3]]
        } else {
            [s[0], s[1], s[2], nb]
        };
        proof {
            let bi = bit_index;
            assert(forall|j: u8|
                j < 8 ==> ((#[trigger] ((b | (1u8 << bi)) >> j)) & 1 == 1) == (if j == bi {
                    true
                } else {
                    (b >> j) & 1 == 1
                })) by (bit_vector);
            assert(forall|j: u8|
                j < 8 ==> ((#[trigger] ((b & !(1u8 << bi)) >> j)) & 1 == 1) == (if j == bi {
                    false
                } else {
                    (b >> j) & 1 == 1
                })) by (bit_vector);
            assert forall|k: int|
                0 <= k < 32 implies unit_bit(self.bytes(), k) == (if k == index {
                val
            } else {
                unit_bit(old(self).bytes(), k)
            }) by {
                assert(self.bytes()[k / 8] == (if k / 8 == byte_index {
                    nb
                } else {
                    old(self).bytes()[k / 8]
                }));
                if k / 8 == byte_index {
                    assert((k % 8) as u8 == bi <==> k == index);
                }
            }
        }
    }

    /// Reads `bit_width` bits starting at `bit_offset`, lowest bit first.
    pub fn get(&self, bit_offset: usize, bit_width: u8) -> (r: u64)
        requires
            bit_width <= 32,
            bit_offset + bit_width <= 32,
        ensures
            forall|k: u64|
                k < bit_width ==> (((r >> k) & 1) == 1) == unit_bit(
                    self.bytes(),
                    bit_offset + k,
                ),
            forall|k: u64| bit_width <= k < 64 ==> (r >> k) & 1 == 0,
    {
        let mut val: u64 = 0;
        let mut i: usize = 0;
        proof {
            assert(forall|k: u64| k < 64 ==> (0u64 >> k) & 1 == 0) by (bit_vector);
        }
        while i < bit_width as usize
            invariant
                i <= bit_width <= 32,
                bit_offset + bit_width <= 32,
                forall|k: u64|
                    k < i ==> (((val >> k) & 1) == 1) == unit_bit(self.bytes(), bit_offset + k),
                forall|k: u64| i <= k < 64 ==> (val >> k) & 1 == 0,
            decreases bit_width - i,
        {
            let bit = self.get_bit(i + bit_offset);
            let ghost oldv = val;
            if bit {
                val = val | (1u64 << (i as u64));
            }
            proof {
                let ii = i as u64;
                assert(ii < 64 ==> forall|k: u64|
                    k < 64 ==> ((#[trigger] ((oldv | (1u64 << ii)) >> k)) & 1) == (if k == ii {
                        1u64
                    } else {
                        (oldv >> k) & 1
                    })) by (bit_vector);
            }
            i += 1;
        }
        val
    }

    /// Writes the low `bit_width` bits of `val` at `bit_offset`, lowest
    /// bit first; all other bits keep their value.
    pub fn set(&mut self, bit_offset: usize, bit_width: u8, val: u64)
        requires
            bit_width <= 32,
            bit_offset + bit_width <= 32,
            old(self).bytes().len() == 4,
        ensures
            final(self).bytes().len() == 4,
            forall|k: int|
                0 <= k < 32 ==> unit_bit(final(self).bytes(), k) == (if bit_offset <= k
                    < bit_offset + bit_width {
                    (val >> ((k - bit_offset) as u64)) & 1 == 1
                } else {
                    unit_bit(old(self).bytes(), k)
                }),
    {
        let mut i: usize = 0;
        while i < bit_width as usize
            invariant
                i <= bit_width <= 32,
                bit_offset + bit_width <= 32,
                self.bytes().len() == 4,
                forall|k: int|
                    0 <= k < 32 ==> unit_bit(self.bytes(), k) == (if bit_offset <= k < bit_offset
                        + i {
                        (val >> ((k - bit_offset) as u64)) & 1 == 1
                    } else {
                        unit_bit(old(self).bytes(), k)
                    }),
            decreases bit_width - i,
        {
            let mask: u64 = 1u64 << (i as u64);
            let bit = val & mask == mask;
            proof {
                let ii = i as u64;
                assert((val & (1u64 << ii) == (1u64 << ii)) == ((val >> ii) & 1 == 1)) by (
                bit_vector)
                    requires
                        ii < 64,
                ;
            }
            self.set_bit(i + bit_offset, bit);
            i += 1;
        }
    }
}

/// A GDT descriptor as the virtualization layer's C headers lay it out:
/// limit and base fragments around a 32-bit bit-field unit.
#[derive(Clone, Copy, Debug, PartialEq, Eq)]
#[allow(non_camel_case_types)]
pub struct desc64 {
    /// Limit bits 0..16.
    pub limit0: u16,
    /// Base bits 0..16.
    pub base0: u16,
    /// The packed middle: base bits 16..24, flags, limit bits 16..20,
    /// base bits 24..32.
    pub _bitfield_1: __BindgenBitfieldUnit,
    /// Base bits 32..64.
    pub base3: u32,
    /// Reserved, must be zero.
    pub zero1: u32,
}

impl desc64 {
    /// The descriptor's 16-byte little-endian image in guest memory.
    pub fn wire_bytes(&self) -> (out: Vec<u8>)
        requires
            self._bitfield_1.bytes().len() == 4,
        ensures
            out@.len() == 16,
            out@ == enc_u16(self.limit0) + enc_u16(self.base0) + self._bitfield_1.bytes() + enc_u32(
                self.base3,
            ) + enc_u32(self.zero1),
    {
        let mut out: Vec<u8> = Vec::new();
        crate::wire::put_u16(&mut out, self.limit0);
        crate::wire::put_u16(&mut out, self.base0);
        let s = self._bitfield_1;
        let ghost pre: Seq<u8> = out@;
        let mut i: usize = 0;
        while i < 4
            invariant
                i <= 4,
                s.bytes().len() == 4,
                s == self._bitfield_1,
                out@ == pre + s.bytes().subrange(0, i as int),
            decreases 4 - i,
        {
            let v = s.get(i * 8, 8);
            let byte = (v & 0xff) as u8;
            proof {
                let target = s.bytes()[i as int];
                assert forall|j: u64| j < 8 implies ((#[trigger] (v >> j)) & 1 == 1) == ((target
                    >> (j as u8)) & 1 == 1) by {
                    assert((((v >> j) & 1) == 1) == unit_bit(s.bytes(), i * 8 + j));
                    assert((i * 8 + j) / 8 == i && (i * 8 + j) % 8 == j as int);
                }
                assert(byte == target) by (bit_vector)
                    requires
                        byte == (v & 0xff) as u8,
                        ((v >> 0u64) & 1 == 1) == ((target >> 0u8) & 1 == 1),
                        ((v >> 1u64) & 1 == 1) == ((target >> 1u8) & 1 == 1),
                        ((v >> 2u64) & 1 == 1) == ((target >> 2u8) & 1 == 1),
                        ((v >> 3u64) & 1 == 1) == ((target >> 3u8) & 1 == 1),
                        ((v >> 4u64) & 1 == 1) == ((target >> 4u8) & 1 == 1),
                        ((v >> 5u64) & 1 == 1) == ((target >> 5u8) & 1 == 1),
                        ((v >> 6u64) & 1 == 1) == ((target >> 6u8) & 1 == 1),
                        ((v >> 7u64) & 1 == 1) == ((target >> 7u8) & 1 == 1),
                ;
                assert(out@.push(target) =~= pre + s.bytes().subrange(0, i + 1));
            }
            out.push(byte);
            i += 1;
        }
        proof {
            assert(s.bytes().subrange(0, 4) =~= s.bytes());
        }
        crate::wire::put_u32(&mut out, self.base3);
        crate::wire::put_u32(&mut out, self.zero1);
        proof {
            assert(out@ =~= enc_u16(self.limit0) + enc_u16(self.base0) + s.bytes() + enc_u32(
                self.base3,
            ) + enc_u32(self.zero1));
        }
        out
    }
}

/// The pseudo-descriptor `lgdt`/`lidt` read: a 16-bit size and a 64-bit
/// address, packed to ten bytes on the wire.
#[derive(Clone, Copy, Debug, PartialEq, Eq, Structural)]
#[allow(non_camel_case_types)]
pub struct desc_ptr {
    /// Table limit (size minus one).
    pub size: u16,
    /// Table base address.
    pub address: u64,
}

impl desc_ptr {
    /// The pointer's 10-byte little-endian image in guest memory.
    pub fn wire_bytes(&self) -> (out: Vec<u8>)
        ensures
            out@.len() == 10,
            out@ == enc_u16(self.size) + enc_u64(self.address),
    {
        let mut out: Vec<u8> = Vec::new();
        crate::wire::put_u16(&mut out, self.size);
        crate::wire::put_u64(&mut out, self.address);
        proof {
            assert(out@ =~= enc_u16(self.size) + enc_u64(self.address));
        }
        out
    }
}

} // verus!
