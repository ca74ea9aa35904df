use vstd::prelude::*;

use crate::fault::Fault;
use crate::instructions::dispatched;
use crate::memory::Memory;
use crate::mmu::MMU;
use crate::sic::Sic;
use crate::stack::Stack;
use crate::status::ConditionRegister;
use crate::{fetched, instr, int_jmp, store_ret};

verus! {

/// The smallest memory a machine boots with.
pub const MIN_MEMORY: u32 = 0x204;
/// Where in memory the program is loaded.
pub const PROGRAM_BASE: usize = 0x600;
/// The instruction pointer at boot: the program's first word, seen through the memory
/// window.
pub const START_IP: u32 = 0x1600;
/// Where the primary stack lives at boot.
pub const PRIMARY_STACK_LOCATION: u32 = 0x10ff;
/// Where the return stack lives at boot.
pub const RETURN_STACK_LOCATION: u32 = 0x11ff;
/// First address of the I/O window at boot.
pub const IO_BASE: u32 = 0;
/// Last address of the I/O window at boot.
pub const IO_MAX: u32 = 0xfff;
/// First address of the memory window at boot: it maps to memory byte 0.
pub const MEMORY_BASE: u32 = 0x1000;
/// Last address of the memory window at boot.
pub const MEMORY_MAX: u32 = 0xffff_ffff;

/// Why a machine could not boot.
#[derive(Clone, Copy, PartialEq, Eq, Structural, Debug)]
pub enum BootError {
    /// Less memory than [`MIN_MEMORY`].
    MemoryTooSmall,
    /// A program of odd length.
    OddProgramLength,
    /// A program whose bytes do not all fit in memory from [`PROGRAM_BASE`].
    ProgramTooLarge,
}

/// Memory at boot: `size` bytes, zero but for `program` from [`PROGRAM_BASE`].
pub open spec fn booted_memory(size: nat, program: Seq<u8>) -> Seq<u8> {
    Seq::new(
        size,
        |i: int|
            if PROGRAM_BASE <= i < PROGRAM_BASE + program.len() {
                program[i - PROGRAM_BASE]
            } else {
                0u8
            },
    )
}

/// The machine at boot with `size` bytes of memory and `program` loaded.
pub open spec fn booted(size: nat, program: Seq<u8>) -> MachineModel {
    MachineModel {
        mem: booted_memory(size, program),
        mmu: MMU { io_base: IO_BASE, io_max: IO_MAX, memory_base: MEMORY_BASE, memory_max: MEMORY_MAX },
        primary: Stack { location: PRIMARY_STACK_LOCATION, offset: 0 },
        ret: Stack { location: RETURN_STACK_LOCATION, offset: 0 },
        sic: Sic { jmp: 0, cause: 0, return_addr: 0, pending: false },
        ip: START_IP,
        cond: ConditionRegister { bits: 0 },
        output: Seq::empty(),
        halted: false,
    }
}

/// The machine after a pending interrupt is taken: the instruction pointer saved as the
/// return address and replaced by the jump vector. Nothing happens when none is pending.
pub open spec fn interrupt_taken(s: MachineModel) -> Result<MachineModel, Fault> {
    if !s.sic.pending {
        Ok(s)
    } else if s.sic.jmp % 2 != 0 {
        Err(Fault::MisalignedJump { target: s.sic.jmp })
    } else {
        Ok(
            MachineModel {
                ip: s.sic.jmp,
                sic: Sic { return_addr: s.ip, pending: false, ..s.sic },
                ..s
            },
        )
    }
}

/// The machine after one cycle: a pending interrupt taken, then the instruction at the
/// instruction pointer fetched and dispatched; or the fault.
pub open spec fn stepped(s: MachineModel) -> Result<MachineModel, Fault> {
    match interrupt_taken(s) {
        Ok(s1) => match fetched(s1) {
            (s2, Ok(ins)) => dispatched(s2, ins),
            (_, Err(e)) => Err(e),
        },
        Err(e) => Err(e),
    }
}

/// What a [`Machine`] holds, as mathematical values.
pub struct MachineModel {
    pub mem: Seq<u8>,
    pub mmu: MMU,
    pub primary: Stack,
    pub ret: Stack,
    pub sic: Sic,
    pub ip: u32,
    pub cond: ConditionRegister,
    pub output: Seq<u8>,
    pub halted: bool,
}

/// The whole machine: memory, address map, both stacks, interrupt controller,
/// instruction pointer, condition register, the bytes waiting for the output device, and
/// whether it has halted.
pub struct Machine {
    pub(crate) mem: Memory,
    pub(crate) mmu: MMU,
    pub(crate) primary: Stack,
    pub(crate) ret: Stack,
    pub(crate) sic: Sic,
    pub(crate) ip: u32,
    pub(crate) cond: ConditionRegister,
    pub(crate) output: Vec<u8>,
    pub(crate) halted: bool,
}

impl MachineModel {
    /// The return stack (`ret`) or the primary stack.
    pub open spec fn stack(self, ret: bool) -> Stack {
        if ret {
            self.ret
        } else {
            self.primary
        }
    }

    /// The machine with `st` as the return stack (`ret`) or the primary stack, and `mem`
    /// as memory.
    pub open spec fn with_stack(self, ret: bool, st: Stack, mem: Seq<u8>) -> MachineModel {
        if ret {
            MachineModel { ret: st, mem, ..self }
        } else {
            MachineModel { primary: st, mem, ..self }
        }
    }
}

impl View for Machine {
    type V = MachineModel;

    open(crate) spec fn view(&self) -> MachineModel {
        MachineModel {
            mem: self.mem@,
            mmu: self.mmu,
            primary: self.primary,
            ret: self.ret,
            sic: self.sic,
            ip: self.ip,
            cond: self.cond,
            output: self.output@,
            halted: self.halted,
        }
    }
}

impl Machine {
    /// A machine with `memory_size` bytes of memory and `program` loaded at
    /// [`PROGRAM_BASE`].
    pub fn boot(memory_size: u32, program: &Vec<u8>) -> (r: Result<Machine, BootError>)
        ensures
            memory_size < MIN_MEMORY ==> r == Err::<Machine, BootError>(BootError::MemoryTooSmall),
            memory_size >= MIN_MEMORY && program.len() % 2 != 0 ==> r == Err::<Machine, BootError>(
                BootError::OddProgramLength,
            ),
            memory_size >= MIN_MEMORY && program.len() % 2 == 0 && program.len() > 0
                && PROGRAM_BASE + program.len() > memory_size ==> r == Err::<Machine, BootError>(
                BootError::ProgramTooLarge,
            ),
            memory_size >= MIN_MEMORY && program.len() % 2 == 0 && (program.len() == 0
                || PROGRAM_BASE + program.len() <= memory_size) ==> r is Ok && r->Ok_0@ == booted(
                memory_size as nat,
                program@,
            ),
    {
        if memory_size < MIN_MEMORY {
            return Err(BootError::MemoryTooSmall);
        }
        if program.len() % 2 != 0 {
            return Err(BootError::OddProgramLength);
        }
        let size = memory_size as usize;
        if program.len() > 0 && (size < PROGRAM_BASE || program.len() > size - PROGRAM_BASE) {
            return Err(BootError::ProgramTooLarge);
        }
        let mut mem = Memory::new(size);
        let mut i: usize = 0;
        while i < program.len()
            invariant
                i <= program.len(),
                program.len() == 0 || PROGRAM_BASE + program.len() <= size,
                mem@ == booted_memory(size as nat, program@.subrange(0, i as int)),
            decreases program.len() - i,
        {
            mem.write_u8(PROGRAM_BASE + i, program[i]);
            i = i + 1;
            assert(mem@ =~= booted_memory(size as nat, program@.subrange(0, i as int)));
        }
        assert(program@.subrange(0, i as int) =~= program@);
        Ok(
            Machine {
                mem,
                mmu: MMU::new(IO_BASE, IO_MAX, MEMORY_BASE, MEMORY_MAX),
                primary: Stack::new(PRIMARY_STACK_LOCATION),
                ret: Stack::new(RETURN_STACK_LOCATION),
                sic: Sic::new(),
                ip: START_IP,
                cond: ConditionRegister::empty(),
                output: Vec::new(),
                halted: false,
            },
        )
    }

    /// Runs one cycle: takes a pending interrupt, then fetches and dispatches the
    /// instruction at the instruction pointer.
    pub fn step(&mut self) -> (r: Result<(), Fault>)
        ensures
            (match stepped(old(self)@) {
                Ok(s) => r is Ok && final(self)@ == s,
                Err(e) => r == Err::<(), Fault>(e),
            }),
    {
        if self.sic.pending {
            store_ret(self);
            int_jmp(self)?;
            self.sic.pending = false;
        }
        let ins = instr(self)?;
        ins.execute(self)
    }

    pub fn halted(&self) -> (r: bool)
        ensures
            r == self@.halted,
    {
        self.halted
    }

    pub fn memory(&self) -> (r: &Memory)
        ensures
            r@ == self@.mem,
    {
        &self.mem
    }

    pub fn mmu(&self) -> (r: MMU)
        ensures
            r == self@.mmu,
    {
        self.mmu
    }

    pub fn primary_stack(&self) -> (r: Stack)
        ensures
            r == self@.primary,
    {
        self.primary
    }

    pub fn return_stack(&self) -> (r: Stack)
        ensures
            r == self@.ret,
    {
        self.ret
    }

    pub fn sic(&self) -> (r: Sic)
        ensures
            r == self@.sic,
    {
        self.sic
    }

    /// The bytes sent to the output device and not yet taken.
    pub fn output(&self) -> (r: &Vec<u8>)
        ensures
            r@ == self@.output,
    {
        &self.output
    }

    /// Takes the bytes sent to the output device, oldest first.
    pub fn take_output(&mut self) -> (r: Vec<u8>)
        ensures
            r@ == old(self)@.output,
            final(self)@ == (MachineModel { output: Seq::empty(), ..old(self)@ }),
    {
        let mut out = Vec::new();
        std::mem::swap(&mut out, &mut self.output);
        out
    }
}

impl ConditionRegister {
    /// The condition register of `m`.
    pub fn read(m: &Machine) -> (r: ConditionRegister)
        ensures
            r == m@.cond,
    {
        m.cond
    }

    /// Sets this register's bits in the condition register of `m`.
    pub fn add(&self, m: &mut Machine)
        ensures
            final(m)@ == (MachineModel {
                cond: ConditionRegister { bits: old(m)@.cond.bits | self.bits },
                ..old(m)@
            }),
    {
        m.cond = ConditionRegister { bits: m.cond.bits | self.bits };
    }

    /// Clears this register's bits in the condition register of `m`.
    pub fn clear(&self, m: &mut Machine)
        ensures
            final(m)@ == (MachineModel {
                cond: ConditionRegister { bits: old(m)@.cond.bits & !self.bits },
                ..old(m)@
            }),
    {
        m.cond = ConditionRegister { bits: m.cond.bits & !self.bits };
    }

    /// Clears every bit of the condition register of `m`.
    pub fn reset(m: &mut Machine)
        ensures
            final(m)@ == (MachineModel { cond: ConditionRegister { bits: 0 }, ..old(m)@ }),
    {
        m.cond = ConditionRegister { bits: 0 };
    }

    /// Makes this register the condition register of `m`.
    pub fn write(&self, m: &mut Machine)
        ensures
            final(m)@ == (MachineModel { cond: *self, ..old(m)@ }),
    {
        m.cond = *self;
    }
}

} // verus!
