use vstd::prelude::*;

use crate::fault::Fault;
use crate::machine::{Machine, MachineModel};
use crate::mmu::{mmu_read, mmu_write, narrow};
use crate::stack::width_of;
use crate::status::{
    compared, ConditionRegister, Status, EQUAL, GREATER, IF_EQUAL, IF_GREATER, IF_LESS, KEEP,
    LESS, RETURN, SHORT,
};
use crate::{ip_offset, machine_pop, machine_push, offset_instr_ptr, pop, push};

verus! {

/// The opcodes of the machine.
#[derive(Clone, Copy, PartialEq, Eq, Structural, Debug)]
pub enum Instr {
    Nop,
    Lit,
    Dup,
    Over,
    Str,
    Load,
    Push,
    Drop,
    Jsr,
    Cmp,
    Halt,
}

/// The opcode that `byte` encodes: 0 to 9 in the order of [`Instr`], and 0xff for Halt.
pub open spec fn opcode_of(byte: u8) -> Option<Instr> {
    match byte {
        0 => Some(Instr::Nop),
        1 => Some(Instr::Lit),
        2 => Some(Instr::Dup),
        3 => Some(Instr::Over),
        4 => Some(Instr::Str),
        5 => Some(Instr::Load),
        6 => Some(Instr::Push),
        7 => Some(Instr::Drop),
        8 => Some(Instr::Jsr),
        9 => Some(Instr::Cmp),
        0xff => Some(Instr::Halt),
        _ => None,
    }
}

/// An opcode with the status flags it runs under.
#[derive(Clone, Copy, PartialEq, Eq, Structural, Debug)]
pub struct Instruction(pub Instr, pub Status);

/// Pops three values and pushes them back in the opposite order: the deepest of the three
/// ends on top and the former top at the bottom.
pub open spec fn over_executed(s: MachineModel, f: Status) -> Result<MachineModel, Fault> {
    match machine_pop(s, f) {
        Ok((s1, v0)) => match machine_pop(s1, f) {
            Ok((s2, v1)) => match machine_pop(s2, f) {
                Ok((s3, v2)) => match machine_push(s3, v0, f) {
                    Ok(s4) => match machine_push(s4, v1, f) {
                        Ok(s5) => machine_push(s5, v2, f),
                        Err(e) => Err(e),
                    },
                    Err(e) => Err(e),
                },
                Err(e) => Err(e),
            },
            Err(e) => Err(e),
        },
        Err(e) => Err(e),
    }
}

/// The flags of the two stack operations of Jsr: where the return address goes, and
/// where the new instruction pointer comes from.
pub open spec fn jsr_flags(flags: Status) -> (Status, Status) {
    if flags.ret() {
        (Status { bits: SHORT }, Status { bits: SHORT | RETURN })
    } else {
        (Status { bits: SHORT | RETURN }, Status { bits: SHORT })
    }
}

/// Call (without RETURN): the address after the instruction goes on the return stack and
/// the target comes off the primary stack. Return (with RETURN): the address after the
/// instruction goes on the primary stack and the target comes off the return stack.
/// Both move 32-bit values; an odd target is refused.
pub open spec fn jsr_executed(s: MachineModel, flags: Status) -> Result<MachineModel, Fault> {
    let (push_flags, pop_flags) = jsr_flags(flags);
    match machine_push(s, ip_offset(s.ip, 2), push_flags) {
        Ok(s1) => match machine_pop(s1, pop_flags) {
            Ok((s2, target)) => if target % 2 == 0 {
                Ok(MachineModel { ip: target, ..s2 })
            } else {
                Err(Fault::MisalignedJump { target })
            },
            Err(e) => Err(e),
        },
        Err(e) => Err(e),
    }
}

/// The machine after `instr` runs under `flags`, before the instruction pointer moves
/// past it, or the fault.
#[verifier::opaque]
pub open spec fn executed(s: MachineModel, instr: Instr, flags: Status) -> Result<
    MachineModel,
    Fault,
> {
    match instr {
        Instr::Nop => Ok(s),
        Instr::Lit => {
            let (s1, v) = mmu_read(s, s.mmu, ip_offset(s.ip, 2), width_of(flags));
            machine_push(s1, v, flags)
        },
        Instr::Dup => {
            let f = flags.set_to(KEEP, true);
            match machine_pop(s, f) {
                Ok((s1, v)) => machine_push(s1, v, f.flipped(RETURN)),
                Err(e) => Err(e),
            }
        },
        Instr::Over => over_executed(s, flags.set_to(KEEP, false)),
        Instr::Str => match machine_pop(s, flags.set_to(SHORT, true)) {
            Ok((s1, addr)) => match machine_pop(s1, flags) {
                Ok((s2, data)) => Ok(
                    mmu_write(s2, s2.mmu, addr, narrow(data, width_of(flags)), width_of(flags)),
                ),
                Err(e) => Err(e),
            },
            Err(e) => Err(e),
        },
        Instr::Load => match machine_pop(s, flags.set_to(SHORT, true)) {
            Ok((s1, addr)) => {
                let (s2, v) = mmu_read(s1, s1.mmu, addr, width_of(flags));
                machine_push(s2, v, flags)
            },
            Err(e) => Err(e),
        },
        Instr::Push => match machine_pop(s, flags) {
            Ok((s1, v)) => machine_push(s1, v, flags),
            Err(e) => Err(e),
        },
        Instr::Drop => match machine_pop(s, flags.set_to(KEEP, false)) {
            Ok((s1, _)) => Ok(s1),
            Err(e) => Err(e),
        },
        Instr::Jsr => jsr_executed(s, flags),
        Instr::Cmp => match machine_pop(s, flags) {
            Ok((s1, val1)) => match machine_pop(s1, flags) {
                Ok((s2, val2)) => Ok(MachineModel { cond: compared(val1, val2), ..s2 }),
                Err(e) => Err(e),
            },
            Err(e) => Err(e),
        },
        Instr::Halt => Ok(MachineModel { halted: true, ..s }),
    }
}

/// Whether an instruction with `flags` runs under the condition bits `cond`: it runs when
/// it names no condition, or when one condition it names is set.
pub open spec fn gate_open(flags: Status, cond: ConditionRegister) -> bool {
    ||| flags.if_equal() && cond.equal()
    ||| flags.if_greater() && cond.greater()
    ||| flags.if_less() && cond.less()
    ||| !(flags.if_equal() || flags.if_greater() || flags.if_less())
}

/// How far the instruction pointer moves after `ins`, run or skipped: not at all for
/// Jsr, past the operand for Lit, else one instruction word.
pub open spec fn ip_advance(ins: Instruction) -> int {
    match ins.0 {
        Instr::Jsr => 0,
        Instr::Lit => 2 + width_of(ins.1),
        _ => 2,
    }
}

/// The machine after `ins` is dispatched: run if its conditions allow, then the
/// instruction pointer moved past it; or the fault.
pub open spec fn dispatched(s: MachineModel, ins: Instruction) -> Result<MachineModel, Fault> {
    let r = if gate_open(ins.1, s.cond) {
        executed(s, ins.0, ins.1)
    } else {
        Ok(s)
    };
    match r {
        Ok(s1) => Ok(MachineModel { ip: ip_offset(s1.ip, ip_advance(ins)), ..s1 }),
        Err(e) => Err(e),
    }
}

/// Moving the instruction pointer twice moves it by the sum.
pub proof fn lemma_ip_offset_twice(ip: u32, a: int, b: int)
    requires
        0 <= a < 0x1_0000_0000,
        0 <= b < 0x1_0000_0000,
    ensures
        ip_offset(ip_offset(ip, a), b) == ip_offset(ip, a + b),
{
    vstd::arithmetic::div_mod::lemma_add_mod_noop(ip + a, b, 0x1_0000_0000);
    vstd::arithmetic::div_mod::lemma_small_mod(b as nat, 0x1_0000_0000);
    vstd::arithmetic::div_mod::lemma_mod_bound(ip + a, 0x1_0000_0000);
    vstd::arithmetic::div_mod::lemma_mod_twice(ip + a, 0x1_0000_0000);
}

impl Instr {
    /// The opcode that `byte` encodes, if any.
    pub fn from_byte(byte: u8) -> (r: Option<Instr>)
        ensures
            r == opcode_of(byte),
    {
        match byte {
            0 => Some(Instr::Nop),
            1 => Some(Instr::Lit),
            2 => Some(Instr::Dup),
            3 => Some(Instr::Over),
            4 => Some(Instr::Str),
            5 => Some(Instr::Load),
            6 => Some(Instr::Push),
            7 => Some(Instr::Drop),
            8 => Some(Instr::Jsr),
            9 => Some(Instr::Cmp),
            0xff => Some(Instr::Halt),
            _ => None,
        }
    }

    /// Runs the opcode under `flags`. The instruction pointer moves only for Jsr.
    pub fn execute(&self, m: &mut Machine, flags: Status) -> (r: Result<(), Fault>)
        ensures
            (match executed(old(m)@, *self, flags) {
                Ok(s) => r is Ok && final(m)@ == s,
                Err(e) => r == Err::<(), Fault>(e),
            }),
    {
        reveal(executed);
        match self {
            Instr::Nop => Ok(()),
            Instr::Lit => {
                let mmu = m.mmu;
                let at = m.ip.wrapping_add(2);
                assert(at == ip_offset(old(m)@.ip, 2));
                let data = if flags.contains(SHORT) {
                    mmu.read_u32(m, at)
                } else {
                    mmu.read_u16(m, at) as u32
                };
                push(m, data, flags)
            },
            Instr::Dup => {
                let f = flags.with(KEEP, true);
                let data = pop(m, f)?;
                push(m, data, f.toggled(RETURN))
            },
            Instr::Over => {
                let f = flags.with(KEEP, false);
                let v0 = pop(m, f)?;
                let v1 = pop(m, f)?;
                let v2 = pop(m, f)?;
                push(m, v0, f)?;
                push(m, v1, f)?;
                push(m, v2, f)
            },
            Instr::Str => {
                let addr = pop(m, flags.with(SHORT, true))?;
                let data = pop(m, flags)?;
                let mmu = m.mmu;
                if flags.contains(SHORT) {
                    mmu.write_u32(m, addr, data);
                } else {
                    assert((data as u16) as u32 == data & 0xffff) by (bit_vector);
                    mmu.write_u16(m, addr, #[verifier::truncate] (data as u16));
                }
                Ok(())
            },
            Instr::Load => {
                let addr = pop(m, flags.with(SHORT, true))?;
                let mmu = m.mmu;
                let data = if flags.contains(SHORT) {
                    mmu.read_u32(m, addr)
                } else {
                    mmu.read_u16(m, addr) as u32
                };
                push(m, data, flags)
            },
            Instr::Push => {
                let data = pop(m, flags)?;
                push(m, data, flags)
            },
            Instr::Drop => {
                pop(m, flags.with(KEEP, false))?;
                Ok(())
            },
            Instr::Jsr => {
                let back = m.ip.wrapping_add(2);
                assert(back == ip_offset(old(m)@.ip, 2));
                let (push_flags, pop_flags) = if flags.contains(RETURN) {
                    (Status::from_bits(SHORT), Status::from_bits(SHORT | RETURN))
                } else {
                    (Status::from_bits(SHORT | RETURN), Status::from_bits(SHORT))
                };
                push(m, back, push_flags)?;
                let target = pop(m, pop_flags)?;
                if target % 2 != 0 {
                    return Err(Fault::MisalignedJump { target });
                }
                crate::set_instr_ptr(m, target);
                Ok(())
            },
            Instr::Cmp => {
                let val1 = pop(m, flags)?;
                let val2 = pop(m, flags)?;
                m.cond = ConditionRegister::compare(val1, val2);
                Ok(())
            },
            Instr::Halt => {
                m.halted = true;
                Ok(())
            },
        }
    }
}

impl Instruction {
    pub fn new(instr: Instr, status: Status) -> (r: Instruction)
        ensures
            r == Instruction(instr, status),
    {
        Instruction(instr, status)
    }

    /// Runs the instruction if the condition register allows it, then moves the
    /// instruction pointer past it (Jsr excepted: it sets the pointer itself).
    pub fn execute(&self, m: &mut Machine) -> (r: Result<(), Fault>)
        ensures
            (match dispatched(old(m)@, *self) {
                Ok(s) => r is Ok && final(m)@ == s,
                Err(e) => r == Err::<(), Fault>(e),
            }),
    {
        let cond = m.cond;
        let flags = self.1;
        let run = (flags.contains(IF_EQUAL) && cond.contains(EQUAL)) || (flags.contains(IF_GREATER)
            && cond.contains(GREATER)) || (flags.contains(IF_LESS) && cond.contains(LESS)) || !(
        flags.contains(IF_EQUAL) || flags.contains(IF_GREATER) || flags.contains(IF_LESS));
        if run {
            self.0.execute(m, flags)?;
        }
        let ghost ip1 = m@.ip;
        if self.0 != Instr::Jsr {
            offset_instr_ptr(m, 2);
        }
        if self.0 == Instr::Lit {
            if flags.contains(SHORT) {
                offset_instr_ptr(m, 4);
            } else {
                offset_instr_ptr(m, 2);
            }
            proof {
                lemma_ip_offset_twice(ip1, 2, width_of(flags));
            }
        }
        Ok(())
    }
}

} // verus!
