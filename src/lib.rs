//! An emulator for a small stack machine: memory, two stacks held in memory, an address
//! map with an I/O window, an interrupt controller and the instruction set that runs
//! over them.
use vstd::prelude::*;

pub mod fault;
pub mod instructions;
pub mod lemmas;
pub mod machine;
pub mod memory;
pub mod mmu;
pub mod sic;
pub mod stack;
pub mod status;

use crate::fault::Fault;
use crate::instructions::{opcode_of, Instr, Instruction};
use crate::machine::{Machine, MachineModel};
use crate::mmu::mmu_read;
use crate::sic::Sic;
use crate::status::{Status, RETURN};

verus! {

/// The machine after pushing `data` on the stack that `flags` selects, or the fault.
pub open spec fn machine_push(s: MachineModel, data: u32, flags: Status) -> Result<
    MachineModel,
    Fault,
> {
    match s.stack(flags.ret()).pushed(s.mem, data, flags) {
        Ok((st, mem)) => Ok(s.with_stack(flags.ret(), st, mem)),
        Err(e) => Err(e),
    }
}

/// The machine after a pop from the stack that `flags` selects, and the value, or the
/// fault.
pub open spec fn machine_pop(s: MachineModel, flags: Status) -> Result<(MachineModel, u32), Fault> {
    match s.stack(flags.ret()).popped(s.mem, flags) {
        Ok((st, mem, v)) => Ok((s.with_stack(flags.ret(), st, mem), v)),
        Err(e) => Err(e),
    }
}

/// `ip` moved by `offset` bytes, modulo 2^32.
pub open spec fn ip_offset(ip: u32, offset: int) -> u32 {
    ((ip + offset) % 0x1_0000_0000) as u32
}

/// Pushes `data` on the primary stack, or on the return stack with RETURN.
pub fn push(m: &mut Machine, data: u32, flags: Status) -> (r: Result<(), Fault>)
    ensures
        (match machine_push(old(m)@, data, flags) {
            Ok(s) => r is Ok && final(m)@ == s,
            Err(e) => r == Err::<(), Fault>(e) && final(m)@ == old(m)@,
        }),
{
    if flags.contains(RETURN) {
        m.ret.push(&mut m.mem, data, flags)
    } else {
        m.primary.push(&mut m.mem, data, flags)
    }
}

/// Pops from the primary stack, or from the return stack with RETURN.
pub fn pop(m: &mut Machine, flags: Status) -> (r: Result<u32, Fault>)
    ensures
        (match machine_pop(old(m)@, flags) {
            Ok((s, v)) => r == Ok::<u32, Fault>(v) && final(m)@ == s,
            Err(e) => r == Err::<u32, Fault>(e) && final(m)@ == old(m)@,
        }),
{
    if flags.contains(RETURN) {
        m.ret.pop(&mut m.mem, flags)
    } else {
        m.primary.pop(&mut m.mem, flags)
    }
}

/// The value held from byte `index` of the stack that `flags` selects.
pub fn copy(m: &Machine, index: usize, flags: Status) -> (r: Result<u32, Fault>)
    ensures
        r == m@.stack(flags.ret()).copied(m@.mem, index as int, flags),
{
    if flags.contains(RETURN) {
        m.ret.copy(&m.mem, index, flags)
    } else {
        m.primary.copy(&m.mem, index, flags)
    }
}

/// The bytes in use on the return stack (`ret_stack`) or on the primary stack.
pub fn top(m: &Machine, ret_stack: bool) -> (r: usize)
    ensures
        r == m@.stack(ret_stack).offset,
{
    if ret_stack {
        m.ret.top()
    } else {
        m.primary.top()
    }
}

pub fn instr_ptr(m: &Machine) -> (r: u32)
    ensures
        r == m@.ip,
{
    m.ip
}

/// Sets the instruction pointer, which must be even.
pub fn set_instr_ptr(m: &mut Machine, ip: u32)
    requires
        ip % 2 == 0,
    ensures
        final(m)@ == (MachineModel { ip, ..old(m)@ }),
{
    m.ip = ip;
}

/// Moves the instruction pointer by an even `offset`, modulo 2^32.
pub fn offset_instr_ptr(m: &mut Machine, offset: i32)
    requires
        offset % 2 == 0,
    ensures
        final(m)@ == (MachineModel { ip: ip_offset(old(m)@.ip, offset as int), ..old(m)@ }),
{
    m.ip = m.ip.wrapping_add_signed(offset);
}

/// Records the instruction pointer as the interrupt's return address.
pub fn store_ret(m: &mut Machine)
    ensures
        final(m)@ == (MachineModel {
            sic: Sic { return_addr: old(m)@.ip, ..old(m)@.sic },
            ..old(m)@
        }),
{
    let ip = m.ip;
    m.sic.store_ret(ip);
}

/// Jumps to the interrupt vector; an odd vector is refused.
pub fn int_jmp(m: &mut Machine) -> (r: Result<(), Fault>)
    ensures
        old(m)@.sic.jmp % 2 == 0 ==> r is Ok && final(m)@ == (MachineModel {
            ip: old(m)@.sic.jmp,
            ..old(m)@
        }),
        old(m)@.sic.jmp % 2 != 0 ==> r == Err::<(), Fault>(
            Fault::MisalignedJump { target: old(m)@.sic.jmp },
        ) && final(m)@ == old(m)@,
{
    m.sic.jmp(&mut m.ip)
}

/// The machine after the instruction word at the instruction pointer is read, and the
/// instruction it encodes: opcode in the low byte, status flags in the high byte.
pub open spec fn fetched(s: MachineModel) -> (MachineModel, Result<Instruction, Fault>) {
    let (s1, word) = mmu_read(s, s.mmu, s.ip, 2);
    let opcode = (word as u16) as u8;
    let flags = Status { bits: ((word as u16) >> 8u16) as u8 };
    match opcode_of(opcode) {
        Some(i) => (s1, Ok(Instruction(i, flags))),
        None => (s1, Err(Fault::InvalidOpcode { opcode, address: s.ip })),
    }
}

/// Reads and decodes the instruction at the instruction pointer. The read is guarded like
/// any other: a faulting read yields the word zero, a Nop.
pub fn instr(m: &mut Machine) -> (r: Result<Instruction, Fault>)
    ensures
        (final(m)@, r) == fetched(old(m)@),
{
    let ip = m.ip;
    let mmu = m.mmu;
    let word = mmu.read_u16(m, ip);
    assert(((word as u32) as u16) == word) by (bit_vector);
    let opcode = #[verifier::truncate] (word as u8);
    let flags = Status::from_bits(#[verifier::truncate] ((word >> 8u16) as u8));
    match Instr::from_byte(opcode) {
        Some(i) => Ok(Instruction::new(i, flags)),
        None => Err(Fault::InvalidOpcode { opcode, address: ip }),
    }
}

} // verus!
