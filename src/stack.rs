use vstd::prelude::*;

use crate::fault::Fault;
use crate::memory::{le16, le32, Memory};
use crate::status::{Status, KEEP, SHORT};

verus! {

/// Bytes in a stack's window: 128 halfword slots.
pub const STACK_BYTES: u32 = 256;

/// Bytes that one push or pop moves under `flags`: 4 with SHORT, else 2.
pub open spec fn width_of(flags: Status) -> int {
    if flags.short() {
        4
    } else {
        2
    }
}

/// The value that a pop returns after a push of `data` under `flags`: all of it with
/// SHORT, else its low 16 bits.
pub open spec fn masked(data: u32, flags: Status) -> u32 {
    if flags.short() {
        data
    } else {
        data & 0xffff
    }
}

/// Where the `k`-th value from the bottom starts when values are 4 bytes (`short`) or 2.
pub open spec fn slot_start(k: int, short: bool) -> int {
    if short {
        4 * k
    } else {
        2 * k
    }
}

/// A stack held in memory: byte `i` of the stack lives at address `location - i`, and
/// `offset` is the number of bytes in use.
#[derive(Clone, Copy, PartialEq, Eq, Structural, Debug)]
pub struct Stack {
    pub location: u32,
    pub offset: u16,
}

impl Stack {
    /// Whether the `w` stack bytes from `start` lie in the window and in a memory of
    /// `len` bytes.
    pub open spec fn fits(self, start: int, w: int, len: int) -> bool {
        &&& 0 <= start
        &&& start + w <= STACK_BYTES
        &&& start + w - 1 <= self.location
        &&& self.location - start < len
    }

    /// The value held by the stack bytes from `start`, low byte first.
    pub open spec fn value_at(self, mem: Seq<u8>, start: int, short: bool) -> u32 {
        let a = self.location - start;
        if short {
            le32(mem[a], mem[a - 1], mem[a - 2], mem[a - 3])
        } else {
            le16(mem[a], mem[a - 1]) as u32
        }
    }

    /// `mem` with `v` stored in the stack bytes from `start`, low byte first.
    pub open spec fn stored(self, mem: Seq<u8>, start: int, v: u32, short: bool) -> Seq<u8> {
        let a = self.location - start;
        let m = mem.update(a, v as u8).update(a - 1, (v >> 8u32) as u8);
        if short {
            m.update(a - 2, (v >> 16u32) as u8).update(a - 3, (v >> 24u32) as u8)
        } else {
            m
        }
    }

    /// The stack and memory after pushing `data` under `flags`, or the fault.
    pub open spec fn pushed(self, mem: Seq<u8>, data: u32, flags: Status) -> Result<
        (Stack, Seq<u8>),
        Fault,
    > {
        let w = width_of(flags);
        if self.offset + w > STACK_BYTES {
            Err(Fault::StackOverflow { location: self.location, offset: self.offset })
        } else if !self.fits(self.offset as int, w, mem.len() as int) {
            Err(Fault::StackOutOfRange { location: self.location, offset: self.offset })
        } else {
            Ok(
                (
                    Stack { offset: (self.offset + w) as u16, ..self },
                    self.stored(mem, self.offset as int, data, flags.short()),
                ),
            )
        }
    }

    /// Where a pop under `flags` reads: `width_of(flags)` below the offset, and at the
    /// bottom when fewer bytes are in use.
    pub open spec fn pop_start(self, flags: Status) -> int {
        if self.offset >= width_of(flags) {
            self.offset - width_of(flags)
        } else {
            0
        }
    }

    /// The stack and memory after a pop under `flags`, and the value popped, or the fault.
    /// Without KEEP the bytes read are zeroed; with KEEP the value stays.
    pub open spec fn popped(self, mem: Seq<u8>, flags: Status) -> Result<
        (Stack, Seq<u8>, u32),
        Fault,
    > {
        let w = width_of(flags);
        let start = self.pop_start(flags);
        let v = self.value_at(mem, start, flags.short());
        if !self.fits(start, w, mem.len() as int) {
            Err(Fault::StackOutOfRange { location: self.location, offset: self.offset })
        } else if flags.keep() {
            Ok((Stack { offset: (start + w) as u16, ..self }, mem, v))
        } else {
            Ok((Stack { offset: start as u16, ..self }, self.stored(mem, start, 0, flags.short()), v))
        }
    }

    /// The value held from stack byte `index` under `flags`, or the fault.
    pub open spec fn copied(self, mem: Seq<u8>, index: int, flags: Status) -> Result<u32, Fault> {
        if self.fits(index, width_of(flags), mem.len() as int) {
            Ok(self.value_at(mem, index, flags.short()))
        } else {
            Err(Fault::StackOutOfRange { location: self.location, offset: self.offset })
        }
    }

    /// An empty stack whose byte 0 lives at `location`.
    pub fn new(location: u32) -> (r: Stack)
        ensures
            r == (Stack { location, offset: 0 }),
    {
        Stack { location, offset: 0 }
    }

    pub fn set_pos(&mut self, location: u32)
        ensures
            *final(self) == (Stack { location, ..*old(self) }),
    {
        self.location = location;
    }

    pub fn set_offset(&mut self, offset: u16)
        ensures
            *final(self) == (Stack { offset, ..*old(self) }),
    {
        self.offset = offset;
    }

    pub fn offset(&self) -> (r: u16)
        ensures
            r == self.offset,
    {
        self.offset
    }

    pub fn location(&self) -> (r: u32)
        ensures
            r == self.location,
    {
        self.location
    }

    /// The number of bytes in use.
    pub fn top(&self) -> (r: usize)
        ensures
            r == self.offset,
    {
        self.offset as usize
    }

    /// Whether the `w` stack bytes from `start` lie in the window and in `mem`.
    fn check_fits(&self, mem: &Memory, start: u32, w: u32) -> (r: bool)
        requires
            w == 2 || w == 4,
            start <= 0x1_0000,
        ensures
            r == self.fits(start as int, w as int, mem@.len() as int),
    {
        start + w <= STACK_BYTES && start + w - 1 <= self.location && ((self.location - start)
            as usize) < mem.len()
    }

    /// Reads the value held from stack byte `start`.
    fn read_at(&self, mem: &Memory, start: u32, short: bool) -> (r: u32)
        requires
            self.fits(start as int, if short { 4 } else { 2 }, mem@.len() as int),
        ensures
            r == self.value_at(mem@, start as int, short),
    {
        let a = (self.location - start) as usize;
        let b0 = mem.read_u8(a);
        let b1 = mem.read_u8(a - 1);
        if short {
            let b2 = mem.read_u8(a - 2);
            let b3 = mem.read_u8(a - 3);
            (b0 as u32) | ((b1 as u32) << 8u32) | ((b2 as u32) << 16u32) | ((b3 as u32) << 24u32)
        } else {
            let v: u16 = (b0 as u16) | ((b1 as u16) << 8u16);
            v as u32
        }
    }

    /// Stores `v` in the stack bytes from `start`.
    fn write_at(&self, mem: &mut Memory, start: u32, v: u32, short: bool)
        requires
            self.fits(start as int, if short { 4 } else { 2 }, old(mem)@.len() as int),
        ensures
            final(mem)@ == self.stored(old(mem)@, start as int, v, short),
    {
        let a = (self.location - start) as usize;
        mem.write_u8(a, #[verifier::truncate] (v as u8));
        mem.write_u8(a - 1, #[verifier::truncate] ((v >> 8u32) as u8));
        if short {
            mem.write_u8(a - 2, #[verifier::truncate] ((v >> 16u32) as u8));
            mem.write_u8(a - 3, #[verifier::truncate] ((v >> 24u32) as u8));
        }
    }

    /// Pushes `data`: its low 16 bits, or all 32 with SHORT. A push that does not fit in
    /// the window is a stack overflow.
    pub fn push(&mut self, mem: &mut Memory, data: u32, flags: Status) -> (r: Result<(), Fault>)
        ensures
            (match old(self).pushed(old(mem)@, data, flags) {
                Ok((s, m)) => r is Ok && *final(self) == s && final(mem)@ == m,
                Err(e) => r == Err::<(), Fault>(e) && *final(self) == *old(self) && final(mem)@
                    == old(mem)@,
            }),
    {
        let short = flags.contains(SHORT);
        let w: u32 = if short {
            4
        } else {
            2
        };
        let off = self.offset as u32;
        if off + w > STACK_BYTES {
            return Err(Fault::StackOverflow { location: self.location, offset: self.offset });
        }
        if !self.check_fits(mem, off, w) {
            return Err(Fault::StackOutOfRange { location: self.location, offset: self.offset });
        }
        self.write_at(mem, off, data, short);
        self.offset = (off + w) as u16;
        Ok(())
    }

    /// Pops a value: 16 bits, or 32 with SHORT. The bytes read are zeroed, unless KEEP
    /// leaves the value on the stack. Popping below the bottom reads from the bottom.
    pub fn pop(&mut self, mem: &mut Memory, flags: Status) -> (r: Result<u32, Fault>)
        ensures
            (match old(self).popped(old(mem)@, flags) {
                Ok((s, m, v)) => r == Ok::<u32, Fault>(v) && *final(self) == s && final(mem)@ == m,
                Err(e) => r == Err::<u32, Fault>(e) && *final(self) == *old(self) && final(mem)@
                    == old(mem)@,
            }),
    {
        let short = flags.contains(SHORT);
        let w: u32 = if short {
            4
        } else {
            2
        };
        let off = self.offset as u32;
        let start: u32 = if off >= w {
            off - w
        } else {
            0
        };
        if !self.check_fits(mem, start, w) {
            return Err(Fault::StackOutOfRange { location: self.location, offset: self.offset });
        }
        let v = self.read_at(mem, start, short);
        if flags.contains(KEEP) {
            self.offset = (start + w) as u16;
        } else {
            self.write_at(mem, start, 0, short);
            self.offset = start as u16;
        }
        Ok(v)
    }

    /// The value held from stack byte `index`, read without changing the stack.
    pub fn copy(&self, mem: &Memory, index: usize, flags: Status) -> (r: Result<u32, Fault>)
        ensures
            r == self.copied(mem@, index as int, flags),
    {
        let short = flags.contains(SHORT);
        let w: u32 = if short {
            4
        } else {
            2
        };
        if index > 0x100 || !self.check_fits(mem, index as u32, w) {
            return Err(Fault::StackOutOfRange { location: self.location, offset: self.offset });
        }
        Ok(self.read_at(mem, index as u32, short))
    }

    /// The values in use from the bottom up, one every 4 bytes with SHORT and every 2
    /// without; refused when one of them lies outside the window or outside memory.
    pub fn listing(&self, mem: &Memory, flags: Status) -> (r: Result<Vec<u32>, Fault>)
        ensures
            r is Ok <==> (forall|k: int|
                0 <= k && slot_start(k, flags.short()) < self.offset ==> #[trigger] self.fits(
                    slot_start(k, flags.short()),
                    width_of(flags),
                    mem@.len() as int,
                )),
            r is Err ==> r == Err::<Vec<u32>, Fault>(
                Fault::StackOutOfRange { location: self.location, offset: self.offset },
            ),
            r is Ok ==> ({
                let v = r->Ok_0@;
                &&& slot_start(v.len() as int, flags.short()) >= self.offset
                &&& forall|k: int|
                    0 <= k < v.len() ==> slot_start(k, flags.short()) < self.offset && v[k]
                        == self.value_at(mem@, slot_start(k, flags.short()), flags.short())
            }),
    {
        let short = flags.contains(SHORT);
        let w: u32 = if short {
            4
        } else {
            2
        };
        let mut values: Vec<u32> = Vec::new();
        let mut i: u32 = 0;
        while i < self.offset as u32
            invariant
                w == width_of(flags),
                short == flags.short(),
                i == slot_start(values@.len() as int, short),
                i < 0x1_0004,
                forall|k: int|
                    #![trigger slot_start(k, short)]
                    0 <= k < values@.len() ==> slot_start(k, short) < self.offset,
                forall|k: int|
                    0 <= k < values@.len() ==> #[trigger] values@[k] == self.value_at(
                        mem@,
                        slot_start(k, short),
                        short,
                    ),
                forall|k: int|
                    0 <= k < values@.len() ==> #[trigger] self.fits(
                        slot_start(k, short),
                        width_of(flags),
                        mem@.len() as int,
                    ),
            decreases 0x1_0004 - i,
        {
            if !self.check_fits(mem, i, w) {
                return Err(Fault::StackOutOfRange { location: self.location, offset: self.offset });
            }
            let v = self.read_at(mem, i, short);
            values.push(v);
            i = i + w;
        }
        assert forall|k: int|
            0 <= k && slot_start(k, short) < self.offset implies #[trigger] self.fits(
                slot_start(k, short),
                width_of(flags),
                mem@.len() as int,
            ) by {
            assert(k < values@.len());
        }
        Ok(values)
    }
}

/// The addresses that the `w` stack bytes from `start` occupy: from `location - start - w + 1`
/// up to `location - start`.
pub open spec fn slot_span(st: Stack, start: int, w: int) -> (int, int) {
    (st.location - start - w + 1, st.location - start)
}

/// Whether two address spans share no address.
pub open spec fn disjoint(a: (int, int), b: (int, int)) -> bool {
    a.1 < b.0 || b.1 < a.0
}

/// Stored stack bytes read back as the value stored, cut to their width.
pub proof fn lemma_stored_value(st: Stack, mem: Seq<u8>, start: int, v: u32, short: bool)
    requires
        st.fits(start, if short { 4 } else { 2 }, mem.len() as int),
    ensures
        st.value_at(st.stored(mem, start, v, short), start, short) == (if short {
            v
        } else {
            v & 0xffff
        }),
        st.stored(mem, start, v, short).len() == mem.len(),
{
    if short {
        assert(le32(v as u8, (v >> 8u32) as u8, (v >> 16u32) as u8, (v >> 24u32) as u8) == v)
            by (bit_vector);
    } else {
        assert((le16(v as u8, (v >> 8u32) as u8) as u32) == v & 0xffff) by (bit_vector);
    }
}

/// A halfword read from the stack is below 2^16.
pub proof fn lemma_value_fits(st: Stack, mem: Seq<u8>, start: int)
    ensures
        st.value_at(mem, start, false) & 0xffff == st.value_at(mem, start, false),
{
    let a = st.location - start;
    let h = le16(mem[a], mem[a - 1]);
    assert((h as u32) & 0xffff == (h as u32)) by (bit_vector);
}

/// Storing stack bytes leaves every byte outside their addresses as it was.
pub proof fn lemma_stored_frame(
    st1: Stack,
    mem: Seq<u8>,
    start1: int,
    v: u32,
    short1: bool,
    st2: Stack,
    start2: int,
    short2: bool,
)
    requires
        st1.fits(start1, if short1 { 4 } else { 2 }, mem.len() as int),
        st2.fits(start2, if short2 { 4 } else { 2 }, mem.len() as int),
        disjoint(
            slot_span(st1, start1, if short1 { 4 } else { 2 }),
            slot_span(st2, start2, if short2 { 4 } else { 2 }),
        ),
    ensures
        st2.value_at(st1.stored(mem, start1, v, short1), start2, short2) == st2.value_at(
            mem,
            start2,
            short2,
        ),
{
    let m1 = st1.stored(mem, start1, v, short1);
    let a = st2.location - start2;
    assert(m1[a] == mem[a]);
    assert(m1[a - 1] == mem[a - 1]);
    if short2 {
        assert(m1[a - 2] == mem[a - 2]);
        assert(m1[a - 3] == mem[a - 3]);
    }
}

/// A push followed by a pop under the same flags returns the value pushed, cut to the
/// width that the flags give.
pub proof fn lemma_push_pop(s: Stack, mem: Seq<u8>, data: u32, flags: Status)
    requires
        s.pushed(mem, data, flags) is Ok,
    ensures
        ({
            let (s1, m1) = s.pushed(mem, data, flags)->Ok_0;
            &&& s1.popped(m1, flags) is Ok
            &&& s1.popped(m1, flags)->Ok_0.2 == masked(data, flags)
        }),
{
    let s1 = s.pushed(mem, data, flags)->Ok_0.0;
    assert(s1.pop_start(flags) == s.offset);
    lemma_stored_value(s, mem, s.offset as int, data, flags.short());
}

} // verus!
