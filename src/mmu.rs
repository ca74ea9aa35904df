use vstd::prelude::*;

use crate::machine::{Machine, MachineModel};
use crate::memory::{guarded_read, guarded_write};
use crate::stack::Stack;
use crate::sic::{Sic, CAUSE_BAD_IO_WRITE, CAUSE_BAD_READ, CAUSE_BAD_WRITE, CAUSE_OUT_OF_BOUNDS,
    CAUSE_SOFTWARE};

verus! {

/// I/O register: the primary stack's location.
pub const PRIMARY_BASE_PORT: u32 = 0x00;
/// I/O register: the return stack's location.
pub const RETURN_BASE_PORT: u32 = 0x04;
/// I/O register: the primary stack's offset (halfword), or both offsets (word: primary
/// in the high half, return in the low half).
pub const STACK_OFFSET_PORT: u32 = 0x08;
/// I/O register: the return stack's offset (halfword writes only).
pub const RETURN_OFFSET_PORT: u32 = 0x0A;
/// I/O register: a write requests a software interrupt.
pub const INTERRUPT_PORT: u32 = 0x0C;
/// I/O register: a write sends its low byte to the output device.
pub const OUTPUT_PORT: u32 = 0x100;
/// I/O register: the interrupt jump vector.
pub const JUMP_PORT: u32 = 0x300;
/// I/O register: the interrupt cause (read only).
pub const CAUSE_PORT: u32 = 0x304;
/// I/O register: the interrupt return address (read only).
pub const RETURN_ADDR_PORT: u32 = 0x308;

/// The low `width` bytes (2 or 4) of `v`.
pub open spec fn narrow(v: u32, width: int) -> u32 {
    if width == 4 {
        v
    } else {
        v & 0xffff
    }
}

/// The address map: an I/O window and a memory window, both with inclusive bounds.
#[derive(Clone, Copy, PartialEq, Eq, Structural, Debug)]
pub struct MMU {
    pub io_base: u32,
    pub io_max: u32,
    pub memory_base: u32,
    pub memory_max: u32,
}

impl MMU {
    pub open spec fn in_io(self, index: u32) -> bool {
        self.io_base <= index <= self.io_max
    }

    pub open spec fn in_memory(self, index: u32) -> bool {
        !self.in_io(index) && self.memory_base <= index <= self.memory_max
    }
}

/// `s` with an interrupt raised.
pub open spec fn with_fault(s: MachineModel, cause: u32, exception: bool) -> MachineModel {
    MachineModel { sic: s.sic.raised(cause, exception), ..s }
}

/// The machine after a read of `width` bytes (2 or 4) at `index` through `mmu`, and the
/// value read. I/O reads give the interrupt controller's registers; memory reads are
/// guarded; anything else raises a fault and reads zero.
pub open spec fn mmu_read(s: MachineModel, mmu: MMU, index: u32, width: int) -> (
    MachineModel,
    u32,
) {
    if mmu.in_io(index) {
        if index == JUMP_PORT {
            (s, narrow(s.sic.jmp, width))
        } else if index == CAUSE_PORT {
            (s, narrow(s.sic.cause, width))
        } else if index == RETURN_ADDR_PORT {
            (s, narrow(s.sic.return_addr, width))
        } else {
            (with_fault(s, CAUSE_OUT_OF_BOUNDS, true), 0)
        }
    } else if mmu.in_memory(index) {
        let (sic, v) = guarded_read(s.mem, s.sic, index - mmu.memory_base, width);
        (MachineModel { sic, ..s }, v)
    } else {
        (with_fault(s, CAUSE_BAD_READ, true), 0)
    }
}

/// The machine after a write of the low `width` bytes (2 or 4) of `v` at `index` through
/// `mmu`. I/O writes reach the stack registers, the interrupt request port, the output
/// device and the jump vector; memory writes are guarded; anything else raises a fault.
pub open spec fn mmu_write(s: MachineModel, mmu: MMU, index: u32, v: u32, width: int) -> MachineModel {
    if mmu.in_io(index) {
        if index == PRIMARY_BASE_PORT {
            MachineModel { primary: Stack { location: narrow(v, width), ..s.primary }, ..s }
        } else if index == RETURN_BASE_PORT {
            MachineModel { ret: Stack { location: narrow(v, width), ..s.ret }, ..s }
        } else if index == STACK_OFFSET_PORT && width == 4 {
            MachineModel {
                primary: Stack { offset: (v >> 16u32) as u16, ..s.primary },
                ret: Stack { offset: v as u16, ..s.ret },
                ..s
            }
        } else if index == STACK_OFFSET_PORT {
            MachineModel { primary: Stack { offset: v as u16, ..s.primary }, ..s }
        } else if index == RETURN_OFFSET_PORT && width == 2 {
            MachineModel { ret: Stack { offset: v as u16, ..s.ret }, ..s }
        } else if index == INTERRUPT_PORT {
            with_fault(s, CAUSE_SOFTWARE, false)
        } else if index == OUTPUT_PORT {
            MachineModel { output: s.output.push(v as u8), ..s }
        } else if index == JUMP_PORT {
            MachineModel { sic: Sic { jmp: narrow(v, width), ..s.sic }, ..s }
        } else {
            with_fault(s, CAUSE_BAD_IO_WRITE, true)
        }
    } else if mmu.in_memory(index) {
        let (mem, sic) = guarded_write(s.mem, s.sic, index - mmu.memory_base, v, width);
        MachineModel { mem, sic, ..s }
    } else {
        with_fault(s, CAUSE_BAD_WRITE, true)
    }
}

impl MMU {
    pub fn new(io_base: u32, io_max: u32, memory_base: u32, memory_max: u32) -> (r: MMU)
        ensures
            r == (MMU { io_base, io_max, memory_base, memory_max }),
    {
        MMU { io_base, io_max, memory_base, memory_max }
    }

    /// Reads a halfword at `index`.
    pub fn read_u16(&self, m: &mut Machine, index: u32) -> (r: u16)
        ensures
            (final(m)@, r as u32) == mmu_read(old(m)@, *self, index, 2),
    {
        let v = self.read(m, index, false);
        assert(v <= 0xffff);
        v as u16
    }

    /// Reads a word at `index`.
    pub fn read_u32(&self, m: &mut Machine, index: u32) -> (r: u32)
        ensures
            (final(m)@, r) == mmu_read(old(m)@, *self, index, 4),
    {
        self.read(m, index, true)
    }

    /// Writes a halfword at `index`.
    pub fn write_u16(&self, m: &mut Machine, index: u32, num: u16)
        ensures
            final(m)@ == mmu_write(old(m)@, *self, index, num as u32, 2),
    {
        self.write(m, index, num as u32, false)
    }

    /// Writes a word at `index`.
    pub fn write_u32(&self, m: &mut Machine, index: u32, num: u32)
        ensures
            final(m)@ == mmu_write(old(m)@, *self, index, num, 4),
    {
        self.write(m, index, num, true)
    }

    fn read(&self, m: &mut Machine, index: u32, short: bool) -> (r: u32)
        ensures
            (final(m)@, r) == mmu_read(old(m)@, *self, index, if short { 4 } else { 2 }),
            !short ==> r <= 0xffff,
    {
        let ghost width: int = if short { 4 } else { 2 };
        if self.io_base <= index && index <= self.io_max {
            let v = if index == JUMP_PORT {
                m.sic.jmp
            } else if index == CAUSE_PORT {
                m.sic.cause
            } else if index == RETURN_ADDR_PORT {
                m.sic.return_addr
            } else {
                m.sic.gen_int(CAUSE_OUT_OF_BOUNDS, true);
                return 0;
            };
            if short {
                v
            } else {
                assert(v & 0xffff <= 0xffff) by (bit_vector);
                v & 0xffff
            }
        } else if self.memory_base <= index && index <= self.memory_max {
            let a = (index - self.memory_base) as usize;
            if short {
                m.mem.vm_read_u32(&mut m.sic, a)
            } else {
                m.mem.vm_read_u16(&mut m.sic, a) as u32
            }
        } else {
            m.sic.gen_int(CAUSE_BAD_READ, true);
            0
        }
    }

    fn write(&self, m: &mut Machine, index: u32, num: u32, short: bool)
        requires
            !short ==> num <= 0xffff,
        ensures
            final(m)@ == mmu_write(old(m)@, *self, index, num, if short { 4 } else { 2 }),
    {
        let ghost width: int = if short { 4 } else { 2 };
        if self.io_base <= index && index <= self.io_max {
            if !short {
                assert(num & 0xffff == num) by (bit_vector)
                    requires
                        num <= 0xffff,
                ;
            }
            if index == PRIMARY_BASE_PORT {
                m.primary.set_pos(num);
            } else if index == RETURN_BASE_PORT {
                m.ret.set_pos(num);
            } else if index == STACK_OFFSET_PORT && short {
                m.primary.set_offset(#[verifier::truncate] ((num >> 16u32) as u16));
                m.ret.set_offset(#[verifier::truncate] (num as u16));
            } else if index == STACK_OFFSET_PORT {
                m.primary.set_offset(#[verifier::truncate] (num as u16));
            } else if index == RETURN_OFFSET_PORT && !short {
                m.ret.set_offset(#[verifier::truncate] (num as u16));
            } else if index == INTERRUPT_PORT {
                m.sic.gen_int(CAUSE_SOFTWARE, false);
            } else if index == OUTPUT_PORT {
                m.output.push(#[verifier::truncate] (num as u8));
            } else if index == JUMP_PORT {
                m.sic.jmp = num;
            } else {
                m.sic.gen_int(CAUSE_BAD_IO_WRITE, true);
            }
        } else if self.memory_base <= index && index <= self.memory_max {
            let a = (index - self.memory_base) as usize;
            if short {
                m.mem.vm_write_u32(&mut m.sic, a, num);
            } else {
                m.mem.vm_write_u16(&mut m.sic, a, num as u16);
                assert(((num as u16) as u32) == num) by (bit_vector)
                    requires
                        num <= 0xffff,
                ;
            }
        } else {
            m.sic.gen_int(CAUSE_BAD_WRITE, true);
        }
    }
}

} // verus!
