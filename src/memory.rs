use vstd::prelude::*;

use crate::sic::{Sic, CAUSE_BAD_READ, CAUSE_BAD_WRITE, CAUSE_OUT_OF_BOUNDS};

verus! {

/// Two bytes read as a little-endian halfword.
pub open spec fn le16(b0: u8, b1: u8) -> u16 {
    (b0 as u16) | ((b1 as u16) << 8u16)
}

/// Four bytes read as a little-endian word.
pub open spec fn le32(b0: u8, b1: u8, b2: u8, b3: u8) -> u32 {
    (b0 as u32) | ((b1 as u32) << 8u32) | ((b2 as u32) << 16u32) | ((b3 as u32) << 24u32)
}

/// The halfword stored at `i` in `m`.
pub open spec fn read16(m: Seq<u8>, i: int) -> u16 {
    le16(m[i], m[i + 1])
}

/// The word stored at `i` in `m`.
pub open spec fn read32(m: Seq<u8>, i: int) -> u32 {
    le32(m[i], m[i + 1], m[i + 2], m[i + 3])
}

/// The doubleword stored at `i` in `m`.
pub open spec fn read64(m: Seq<u8>, i: int) -> u64 {
    (read32(m, i) as u64) | ((read32(m, i + 4) as u64) << 32u64)
}

/// `m` with the halfword `v` stored at `i`, low byte first.
pub open spec fn write16(m: Seq<u8>, i: int, v: u16) -> Seq<u8> {
    m.update(i, v as u8).update(i + 1, (v >> 8u16) as u8)
}

/// `m` with the word `v` stored at `i`, low byte first.
pub open spec fn write32(m: Seq<u8>, i: int, v: u32) -> Seq<u8> {
    m.update(i, v as u8).update(i + 1, (v >> 8u32) as u8).update(i + 2, (v >> 16u32) as u8).update(
        i + 3,
        (v >> 24u32) as u8,
    )
}

/// `m` with the doubleword `v` stored at `i`, low byte first.
pub open spec fn write64(m: Seq<u8>, i: int, v: u64) -> Seq<u8> {
    write32(write32(m, i, v as u32), i + 4, (v >> 32u64) as u32)
}

/// Whether an access of `width` bytes at `index` is aligned to its width.
pub open spec fn aligned(index: int, width: int) -> bool {
    index % width == 0
}

/// What a guarded read of `width` bytes (2 or 4) at `index` returns, and the interrupt
/// controller after it: zero and a fault when the access is misaligned or runs past the
/// end of `m`.
pub open spec fn guarded_read(m: Seq<u8>, sic: Sic, index: int, width: int) -> (Sic, u32) {
    if !aligned(index, width) {
        (sic.raised(CAUSE_BAD_READ, true), 0)
    } else if index + width > m.len() {
        (sic.raised(CAUSE_OUT_OF_BOUNDS, true), 0)
    } else if width == 4 {
        (sic, read32(m, index))
    } else {
        (sic, read16(m, index) as u32)
    }
}

/// The memory and the interrupt controller after a guarded write of the low `width`
/// bytes (2 or 4) of `v` at `index`: nothing is written, and a fault is raised, when the
/// access is misaligned or runs past the end of `m`.
pub open spec fn guarded_write(m: Seq<u8>, sic: Sic, index: int, v: u32, width: int) -> (
    Seq<u8>,
    Sic,
) {
    if !aligned(index, width) {
        (m, sic.raised(CAUSE_BAD_WRITE, true))
    } else if index + width > m.len() {
        (m, sic.raised(CAUSE_OUT_OF_BOUNDS, true))
    } else if width == 4 {
        (write32(m, index, v), sic)
    } else {
        (write16(m, index, v as u16), sic)
    }
}

/// Storing a halfword and reading it back gives it again.
pub proof fn lemma_read_write16(m: Seq<u8>, i: int, v: u16)
    requires
        0 <= i,
        i + 2 <= m.len(),
    ensures
        read16(write16(m, i, v), i) == v,
        write16(m, i, v).len() == m.len(),
{
    assert(le16(v as u8, (v >> 8u16) as u8) == v) by (bit_vector);
}

/// Storing a word and reading it back gives it again.
pub proof fn lemma_read_write32(m: Seq<u8>, i: int, v: u32)
    requires
        0 <= i,
        i + 4 <= m.len(),
    ensures
        read32(write32(m, i, v), i) == v,
        write32(m, i, v).len() == m.len(),
{
    assert(le32(v as u8, (v >> 8u32) as u8, (v >> 16u32) as u8, (v >> 24u32) as u8) == v)
        by (bit_vector);
}

/// A byte-addressable memory of fixed size, zero when created.
pub struct Memory {
    bytes: Vec<u8>,
}

impl View for Memory {
    type V = Seq<u8>;

    closed spec fn view(&self) -> Seq<u8> {
        self.bytes@
    }
}

impl Memory {
    /// A memory of no bytes.
    pub fn null() -> (r: Memory)
        ensures
            r@ == Seq::<u8>::empty(),
    {
        Memory { bytes: Vec::new() }
    }

    /// A memory of `size` zero bytes.
    pub fn new(size: usize) -> (r: Memory)
        ensures
            r@ == Seq::new(size as nat, |i: int| 0u8),
    {
        let bytes = vec![0u8; size];
        assert(bytes@ == Seq::new(size as nat, |i: int| 0u8));
        Memory { bytes }
    }

    pub fn len(&self) -> (r: usize)
        ensures
            r == self@.len(),
    {
        self.bytes.len()
    }

    pub fn read_u8(&self, index: usize) -> (r: u8)
        requires
            index < self@.len(),
        ensures
            r == self@[index as int],
    {
        self.bytes[index]
    }

    pub fn write_u8(&mut self, index: usize, num: u8)
        requires
            index < old(self)@.len(),
        ensures
            final(self)@ == old(self)@.update(index as int, num),
    {
        self.bytes.set(index, num);
    }

    pub fn read_u16(&self, index: usize) -> (r: u16)
        requires
            index + 2 <= self@.len(),
        ensures
            r == read16(self@, index as int),
    {
        let _n = self.bytes.len();
        (self.bytes[index] as u16) | ((self.bytes[index + 1] as u16) << 8u16)
    }

    pub fn read_u32(&self, index: usize) -> (r: u32)
        requires
            index + 4 <= self@.len(),
        ensures
            r == read32(self@, index as int),
    {
        let _n = self.bytes.len();
        (self.bytes[index] as u32) | ((self.bytes[index + 1] as u32) << 8u32) | ((self.bytes[index
            + 2] as u32) << 16u32) | ((self.bytes[index + 3] as u32) << 24u32)
    }

    /// The doubleword at `index`, which must be a multiple of 8.
    pub fn read_u64(&self, index: usize) -> (r: u64)
        requires
            index % 8 == 0,
            index + 8 <= self@.len(),
        ensures
            r == read64(self@, index as int),
    {
        (self.read_u32(index) as u64) | ((self.read_u32(index + 4) as u64) << 32u64)
    }

    pub fn write_u16(&mut self, index: usize, num: u16)
        requires
            index + 2 <= old(self)@.len(),
        ensures
            final(self)@ == write16(old(self)@, index as int, num),
    {
        let _n = self.bytes.len();
        self.bytes.set(index, #[verifier::truncate] (num as u8));
        self.bytes.set(index + 1, #[verifier::truncate] ((num >> 8u16) as u8));
    }

    pub fn write_u32(&mut self, index: usize, num: u32)
        requires
            index + 4 <= old(self)@.len(),
        ensures
            final(self)@ == write32(old(self)@, index as int, num),
    {
        let _n = self.bytes.len();
        self.bytes.set(index, #[verifier::truncate] (num as u8));
        self.bytes.set(index + 1, #[verifier::truncate] ((num >> 8u32) as u8));
        self.bytes.set(index + 2, #[verifier::truncate] ((num >> 16u32) as u8));
        self.bytes.set(index + 3, #[verifier::truncate] ((num >> 24u32) as u8));
    }

    /// Stores a doubleword at `index`, which must be a multiple of 8.
    pub fn write_u64(&mut self, index: usize, num: u64)
        requires
            index % 8 == 0,
            index + 8 <= old(self)@.len(),
        ensures
            final(self)@ == write64(old(self)@, index as int, num),
    {
        self.write_u32(index, #[verifier::truncate] (num as u32));
        self.write_u32(index + 4, #[verifier::truncate] ((num >> 32u64) as u32));
    }

    /// Reads a halfword for the machine: an odd `index` or one past the end raises a fault
    /// and reads zero.
    pub fn vm_read_u16(&self, sic: &mut Sic, index: usize) -> (r: u16)
        ensures
            (*final(sic), r as u32) == guarded_read(self@, *old(sic), index as int, 2),
    {
        if index % 2 != 0 {
            sic.gen_int(CAUSE_BAD_READ, true);
            0
        } else if index > self.bytes.len() || self.bytes.len() - index < 2 {
            sic.gen_int(CAUSE_OUT_OF_BOUNDS, true);
            0
        } else {
            self.read_u16(index)
        }
    }

    /// Reads a word for the machine: an `index` that is not a multiple of 4, or one past
    /// the end, raises a fault and reads zero.
    pub fn vm_read_u32(&self, sic: &mut Sic, index: usize) -> (r: u32)
        ensures
            (*final(sic), r) == guarded_read(self@, *old(sic), index as int, 4),
    {
        if index % 4 != 0 {
            sic.gen_int(CAUSE_BAD_READ, true);
            0
        } else if index > self.bytes.len() || self.bytes.len() - index < 4 {
            sic.gen_int(CAUSE_OUT_OF_BOUNDS, true);
            0
        } else {
            self.read_u32(index)
        }
    }

    /// Writes a halfword for the machine: an odd `index` or one past the end raises a
    /// fault and writes nothing.
    pub fn vm_write_u16(&mut self, sic: &mut Sic, index: usize, num: u16)
        ensures
            (final(self)@, *final(sic)) == guarded_write(
                old(self)@,
                *old(sic),
                index as int,
                num as u32,
                2,
            ),
    {
        if index % 2 != 0 {
            sic.gen_int(CAUSE_BAD_WRITE, true);
        } else if index > self.bytes.len() || self.bytes.len() - index < 2 {
            sic.gen_int(CAUSE_OUT_OF_BOUNDS, true);
        } else {
            assert((num as u32) as u16 == num) by (bit_vector);
            self.write_u16(index, num);
        }
    }

    /// Writes a word for the machine: an `index` that is not a multiple of 4, or one past
    /// the end, raises a fault and writes nothing.
    pub fn vm_write_u32(&mut self, sic: &mut Sic, index: usize, num: u32)
        ensures
            (final(self)@, *final(sic)) == guarded_write(
                old(self)@,
                *old(sic),
                index as int,
                num,
                4,
            ),
    {
        if index % 4 != 0 {
            sic.gen_int(CAUSE_BAD_WRITE, true);
        } else if index > self.bytes.len() || self.bytes.len() - index < 4 {
            sic.gen_int(CAUSE_OUT_OF_BOUNDS, true);
        } else {
            self.write_u32(index, num);
        }
    }
}

} // verus!
