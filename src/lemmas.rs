use vstd::prelude::*;

use crate::fault::Fault;
use crate::instructions::{dispatched, executed, gate_open, ip_advance, Instr, Instruction};
use crate::machine::{interrupt_taken, stepped, MachineModel};
use crate::memory::{aligned, lemma_read_write16, lemma_read_write32};
use crate::mmu::{mmu_read, mmu_write, narrow, MMU};
use crate::sic::CAUSE_BAD_WRITE;
use crate::stack::{
    disjoint, lemma_push_pop, lemma_stored_frame, lemma_stored_value, lemma_value_fits, masked,
    slot_span, width_of, STACK_BYTES,
};
use crate::status::{
    compared, lemma_compare_exclusive, lemma_flag_update, Status, KEEP, RETURN, SHORT,
};
use crate::{fetched, ip_offset, machine_pop, machine_push};

verus! {

/// A push followed by a pop under the same flags returns the value pushed, cut to the
/// operand width that the flags give.
pub proof fn lemma_push_then_pop(s: MachineModel, data: u32, flags: Status)
    requires
        machine_push(s, data, flags) is Ok,
    ensures
        machine_pop(machine_push(s, data, flags)->Ok_0, flags) is Ok,
        machine_pop(machine_push(s, data, flags)->Ok_0, flags)->Ok_0.1 == masked(data, flags),
{
    lemma_push_pop(s.stack(flags.ret()), s.mem, data, flags);
}

/// A push onto a stack that has no room left for the operand is a stack overflow, and
/// leaves the machine as it was.
pub proof fn lemma_push_overflow(s: MachineModel, data: u32, flags: Status)
    requires
        s.stack(flags.ret()).offset + width_of(flags) > STACK_BYTES,
    ensures
        machine_push(s, data, flags) == Err::<MachineModel, Fault>(
            Fault::StackOverflow {
                location: s.stack(flags.ret()).location,
                offset: s.stack(flags.ret()).offset,
            },
        ),
{
}

/// A write through the MMU to an aligned memory address, read back at the same address
/// and width, gives the value written, cut to that width.
pub proof fn lemma_store_load(s: MachineModel, mmu: MMU, addr: u32, v: u32, width: int)
    requires
        width == 2 || width == 4,
        mmu.in_memory(addr),
        aligned(addr - mmu.memory_base, width),
        addr - mmu.memory_base + width <= s.mem.len(),
    ensures
        mmu_read(mmu_write(s, mmu, addr, v, width), mmu, addr, width).1 == narrow(v, width),
{
    let i = addr - mmu.memory_base;
    if width == 4 {
        lemma_read_write32(s.mem, i, v);
    } else {
        lemma_read_write16(s.mem, i, v as u16);
        assert((v as u16) as u32 == v & 0xffff) by (bit_vector);
    }
}

/// A misaligned write through the MMU to a memory address leaves memory as it was and
/// raises a write fault.
pub proof fn lemma_misaligned_store(s: MachineModel, mmu: MMU, addr: u32, v: u32, width: int)
    requires
        width == 2 || width == 4,
        mmu.in_memory(addr),
        !aligned(addr - mmu.memory_base, width),
    ensures
        mmu_write(s, mmu, addr, v, width).mem == s.mem,
        mmu_write(s, mmu, addr, v, width).sic == s.sic.raised(CAUSE_BAD_WRITE, true),
{
}

/// Dup leaves the source stack's top where it was, grows the other stack by one operand,
/// and the value pushed there is the source stack's top value.
pub proof fn lemma_dup_crosses(s: MachineModel, flags: Status)
    requires
        executed(s, Instr::Dup, flags) is Ok,
        s.stack(flags.ret()).offset >= width_of(flags),
    ensures
        ({
            let s2 = executed(s, Instr::Dup, flags)->Ok_0;
            let src = s.stack(flags.ret());
            let dst = s.stack(!flags.ret());
            &&& s2.stack(flags.ret()).offset == src.offset
            &&& s2.stack(!flags.ret()).offset == dst.offset + width_of(flags)
            &&& s2.stack(!flags.ret()).value_at(s2.mem, dst.offset as int, flags.short())
                == src.value_at(s.mem, src.offset - width_of(flags), flags.short())
        }),
{
    reveal(executed);
    let f = flags.set_to(KEEP, true);
    lemma_flag_update(flags, KEEP, RETURN);
    lemma_flag_update(flags, KEEP, SHORT);
    lemma_flag_update(f, RETURN, SHORT);
    let src = s.stack(flags.ret());
    let dst = s.stack(!flags.ret());
    let (s1, v) = machine_pop(s, f)->Ok_0;
    assert(s1.mem == s.mem);
    assert(s1.stack(!flags.ret()) == dst);
    lemma_stored_value(dst, s1.mem, dst.offset as int, v, flags.short());
    if !flags.short() {
        lemma_value_fits(src, s.mem, src.offset - width_of(flags));
    }
}

/// Over reverses the three values on top of the stack that the flags select: the deepest
/// of them ends on top and the former top at the bottom, and the depth is unchanged.
#[verifier::rlimit(50)]
pub proof fn lemma_over_reverses(s: MachineModel, flags: Status)
    requires
        executed(s, Instr::Over, flags) is Ok,
        s.stack(flags.ret()).offset >= 3 * width_of(flags),
    ensures
        ({
            let s2 = executed(s, Instr::Over, flags)->Ok_0;
            let st = s.stack(flags.ret());
            let w = width_of(flags);
            let o = st.offset as int;
            let short = flags.short();
            &&& s2.stack(flags.ret()).offset == o
            &&& s2.stack(flags.ret()).value_at(s2.mem, o - w, short) == st.value_at(
                s.mem,
                o - 3 * w,
                short,
            )
            &&& s2.stack(flags.ret()).value_at(s2.mem, o - 2 * w, short) == st.value_at(
                s.mem,
                o - 2 * w,
                short,
            )
            &&& s2.stack(flags.ret()).value_at(s2.mem, o - 3 * w, short) == st.value_at(
                s.mem,
                o - w,
                short,
            )
        }),
{
    reveal(executed);
    let f = flags.set_to(KEEP, false);
    lemma_flag_update(flags, KEEP, RETURN);
    lemma_flag_update(flags, KEEP, SHORT);
    let r = flags.ret();
    let short = flags.short();
    let st = s.stack(r);
    let w = width_of(flags);
    let o = st.offset as int;
    let a0 = o - w;
    let a1 = o - 2 * w;
    let a2 = o - 3 * w;
    let v0 = st.value_at(s.mem, a0, short);
    let (s1, p0) = machine_pop(s, f)->Ok_0;
    assert(p0 == v0);
    assert(s1.mem == st.stored(s.mem, a0, 0, short));
    lemma_stored_frame(st, s.mem, a0, 0, short, st, a1, short);
    let v1 = st.value_at(s.mem, a1, short);
    let (s2, p1) = machine_pop(s1, f)->Ok_0;
    assert(p1 == v1);
    lemma_stored_frame(st, s1.mem, a1, 0, short, st, a2, short);
    lemma_stored_frame(st, s.mem, a0, 0, short, st, a2, short);
    let v2 = st.value_at(s.mem, a2, short);
    let (s3, p2) = machine_pop(s2, f)->Ok_0;
    assert(p2 == v2);
    assert(s3.stack(r).offset == a2);
    let s4 = machine_push(s3, v0, f)->Ok_0;
    let s5 = machine_push(s4, v1, f)->Ok_0;
    let s6 = machine_push(s5, v2, f)->Ok_0;
    assert(s6 == executed(s, Instr::Over, flags)->Ok_0);
    if !short {
        lemma_value_fits(st, s.mem, a0);
        lemma_value_fits(st, s.mem, a1);
        lemma_value_fits(st, s.mem, a2);
    }
    lemma_stored_value(st, s3.mem, a2, v0, short);
    lemma_stored_frame(st, s4.mem, a1, v1, short, st, a2, short);
    lemma_stored_frame(st, s5.mem, a0, v2, short, st, a2, short);
    lemma_stored_value(st, s4.mem, a1, v1, short);
    lemma_stored_frame(st, s5.mem, a0, v2, short, st, a1, short);
    lemma_stored_value(st, s5.mem, a0, v2, short);
}

/// Cmp sets exactly one condition bit, which records how the first value popped compares
/// with the second.
pub proof fn lemma_cmp_one_condition(s: MachineModel, flags: Status)
    requires
        executed(s, Instr::Cmp, flags) is Ok,
    ensures
        ({
            let (s1, val1) = machine_pop(s, flags)->Ok_0;
            let val2 = machine_pop(s1, flags)->Ok_0.1;
            let c = executed(s, Instr::Cmp, flags)->Ok_0.cond;
            &&& c == compared(val1, val2)
            &&& c.equal() <==> val1 == val2
            &&& c.less() <==> val1 < val2
            &&& c.greater() <==> val1 > val2
            &&& c.equal() ==> !c.less() && !c.greater()
            &&& !(c.less() && c.greater())
        }),
{
    reveal(executed);
    let (s1, val1) = machine_pop(s, flags)->Ok_0;
    let val2 = machine_pop(s1, flags)->Ok_0.1;
    lemma_compare_exclusive(val1, val2);
}

/// Every instruction but Cmp, run or skipped, leaves the condition register as it was.
pub proof fn lemma_cond_kept(s: MachineModel, ins: Instruction)
    requires
        ins.0 != Instr::Cmp,
        dispatched(s, ins) is Ok,
    ensures
        dispatched(s, ins)->Ok_0.cond == s.cond,
{
    reveal(executed);
}

/// A call (Jsr without RETURN) from `s.ip` followed by a return (Jsr with RETURN) comes
/// back to the instruction after the call, provided the two stacks' windows do not share
/// an address.
pub proof fn lemma_call_return(s: MachineModel, call: Status, back: Status)
    requires
        !call.ret(),
        back.ret(),
        disjoint(slot_span(s.primary, 0, 256), slot_span(s.ret, 0, 256)),
        executed(s, Instr::Jsr, call) is Ok,
        executed(executed(s, Instr::Jsr, call)->Ok_0, Instr::Jsr, back) is Ok,
    ensures
        executed(executed(s, Instr::Jsr, call)->Ok_0, Instr::Jsr, back)->Ok_0.ip == ip_offset(
            s.ip,
            2,
        ),
{
    reveal(executed);
    assert(SHORT & SHORT == SHORT && SHORT & RETURN != RETURN && SHORT & KEEP != KEEP && (SHORT
        | RETURN) & RETURN == RETURN && (SHORT | RETURN) & SHORT == SHORT && (SHORT | RETURN)
        & KEEP != KEEP) by (bit_vector);
    let x2 = ip_offset(s.ip, 2);
    let rs = s.ret;
    let ps = s.primary;
    // the call: the return address goes on the return stack, the target comes off the
    // primary stack
    let s1 = machine_push(s, x2, Status { bits: SHORT | RETURN })->Ok_0;
    lemma_stored_value(rs, s.mem, rs.offset as int, x2, true);
    let (s2, target) = machine_pop(s1, Status { bits: SHORT })->Ok_0;
    let pstart = ps.pop_start(Status { bits: SHORT });
    lemma_stored_frame(ps, s1.mem, pstart, 0, true, rs, rs.offset as int, true);
    let t = executed(s, Instr::Jsr, call)->Ok_0;
    assert(t == (MachineModel { ip: target, ..s2 }));
    assert(t.ret.value_at(t.mem, rs.offset as int, true) == x2);
    // the return: the next address goes on the primary stack, the target comes off the
    // return stack
    let t2 = ip_offset(target, 2);
    let u1 = machine_push(t, t2, Status { bits: SHORT })->Ok_0;
    lemma_stored_frame(t.primary, t.mem, t.primary.offset as int, t2, true, rs, rs.offset as int, true);
    assert(u1.ret == t.ret);
    assert(t.ret.offset == rs.offset + 4);
    assert(u1.ret.pop_start(Status { bits: SHORT | RETURN }) == rs.offset);
}

/// Moving an even instruction pointer by an even amount keeps it even.
proof fn lemma_ip_offset_even(ip: u32, adv: int)
    requires
        ip % 2 == 0,
        adv % 2 == 0,
        0 <= adv,
    ensures
        ip_offset(ip, adv) % 2 == 0,
{
    vstd::arithmetic::div_mod::lemma_mod_mod(ip + adv, 2, 0x8000_0000);
}

/// Running an opcode keeps the instruction pointer, except Jsr, which sets an even one.
proof fn lemma_executed_ip(s: MachineModel, instr: Instr, flags: Status)
    requires
        executed(s, instr, flags) is Ok,
    ensures
        executed(s, instr, flags)->Ok_0.ip == s.ip || (instr == Instr::Jsr
            && executed(s, instr, flags)->Ok_0.ip % 2 == 0),
{
    reveal(executed);
    match instr {
        Instr::Over => {
            let f = flags.set_to(KEEP, false);
            let (s1, v0) = machine_pop(s, f)->Ok_0;
            let (s2, v1) = machine_pop(s1, f)->Ok_0;
            let (s3, v2) = machine_pop(s2, f)->Ok_0;
            let s4 = machine_push(s3, v0, f)->Ok_0;
            let s5 = machine_push(s4, v1, f)->Ok_0;
            assert(s5.ip == s.ip);
        },
        Instr::Str => {
            let (s1, addr) = machine_pop(s, flags.set_to(SHORT, true))->Ok_0;
            let (s2, data) = machine_pop(s1, flags)->Ok_0;
            assert(s2.ip == s.ip);
        },
        Instr::Load => {
            let (s1, addr) = machine_pop(s, flags.set_to(SHORT, true))->Ok_0;
            assert(s1.ip == s.ip);
        },
        _ => {},
    }
}

/// One cycle of the machine keeps the instruction pointer even.
pub proof fn lemma_step_keeps_ip_even(s: MachineModel)
    requires
        s.ip % 2 == 0,
        stepped(s) is Ok,
    ensures
        stepped(s)->Ok_0.ip % 2 == 0,
{
    let s1 = interrupt_taken(s)->Ok_0;
    let (s2, ins) = fetched(s1);
    let ins = ins->Ok_0;
    assert(s2.ip == s1.ip);
    let r = if gate_open(ins.1, s2.cond) {
        executed(s2, ins.0, ins.1)
    } else {
        Ok(s2)
    };
    if gate_open(ins.1, s2.cond) {
        lemma_executed_ip(s2, ins.0, ins.1);
    }
    let s3 = r->Ok_0;
    assert(s3.ip % 2 == 0);
    lemma_ip_offset_even(s3.ip, ip_advance(ins));
}

} // verus!
