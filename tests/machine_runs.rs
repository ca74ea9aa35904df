use cute_vm::fault::Fault;
use cute_vm::instructions::{Instr, Instruction};
use cute_vm::machine::{BootError, Machine, PROGRAM_BASE, START_IP};
use cute_vm::mmu::MMU;
use cute_vm::status::{
    ConditionRegister, Status, EQUAL, IF_EQUAL, IF_GREATER, IF_LESS, KEEP, LESS, RETURN, SHORT,
};
use cute_vm::{copy, instr, instr_ptr, int_jmp, offset_instr_ptr, pop, push, set_instr_ptr, store_ret, top};

fn boot(program: &[u8]) -> Machine {
    Machine::boot(0xFFFF, &program.to_vec()).unwrap()
}

#[test]
fn boot_loads_program() {
    let m = boot(&[1, 2, 3, 4]);
    assert_eq!(instr_ptr(&m), START_IP);
    assert_eq!(m.memory().len(), 0xFFFF);
    assert_eq!(m.memory().read_u32(PROGRAM_BASE), 0x0403_0201);
    assert_eq!(m.primary_stack().location(), 0x10ff);
    assert_eq!(m.return_stack().location(), 0x11ff);
    assert!(!m.halted());
    assert!(!m.sic().pending);
}

#[test]
fn boot_refuses_bad_setups() {
    assert_eq!(Machine::boot(0x203, &Vec::new()).err(), Some(BootError::MemoryTooSmall));
    assert_eq!(Machine::boot(0xFFFF, &vec![0u8; 3]).err(), Some(BootError::OddProgramLength));
    assert_eq!(Machine::boot(0x604, &vec![0u8; 6]).err(), Some(BootError::ProgramTooLarge));
    assert!(Machine::boot(0x604, &vec![0u8; 4]).is_ok());
    assert!(Machine::boot(0x204, &Vec::new()).is_ok());
}

#[test]
fn decode_opcodes() {
    assert_eq!(Instr::from_byte(0), Some(Instr::Nop));
    assert_eq!(Instr::from_byte(1), Some(Instr::Lit));
    assert_eq!(Instr::from_byte(5), Some(Instr::Load));
    assert_eq!(Instr::from_byte(9), Some(Instr::Cmp));
    assert_eq!(Instr::from_byte(0xff), Some(Instr::Halt));
    assert_eq!(Instr::from_byte(10), None);
    assert_eq!(Instr::from_byte(0xfe), None);
}

#[test]
fn fetch_splits_opcode_and_flags() {
    let mut m = boot(&[0x01, 0x06, 0, 0]);
    let ins = instr(&mut m).unwrap();
    assert_eq!(ins, Instruction::new(Instr::Lit, Status::from_bits(SHORT | RETURN)));
}

#[test]
fn invalid_opcode_is_fatal() {
    let mut m = boot(&[0x0A, 0x00]);
    assert_eq!(m.step(), Err(Fault::InvalidOpcode { opcode: 0x0A, address: 0x1600 }));
}

#[test]
fn instruction_pointer_moves_modulo() {
    let mut m = boot(&[]);
    set_instr_ptr(&mut m, 0xFFFF_FFFE);
    offset_instr_ptr(&mut m, 2);
    assert_eq!(instr_ptr(&m), 0);
    offset_instr_ptr(&mut m, -4);
    assert_eq!(instr_ptr(&m), 0xFFFF_FFFC);
}

#[test]
fn lit_pushes_immediate_and_skips_operand() {
    // Nop; Lit SHORT 0xAABBCCDD; Lit 0x1234
    let mut m = boot(&[0, 0, 0x01, 0x04, 0xDD, 0xCC, 0xBB, 0xAA, 0x01, 0x00, 0x34, 0x12]);
    m.step().unwrap();
    m.step().unwrap();
    assert_eq!(instr_ptr(&m), 0x1608);
    m.step().unwrap();
    assert_eq!(instr_ptr(&m), 0x160C);
    assert_eq!(pop(&mut m, Status::empty()), Ok(0x1234));
    assert_eq!(pop(&mut m, Status::from_bits(SHORT)), Ok(0xAABB_CCDD));
}

#[test]
fn lit_word_at_misaligned_operand_faults() {
    // the operand of a Lit at a multiple of 4 is not 4-aligned
    let mut m = boot(&[0x01, 0x04, 0xDD, 0xCC, 0xBB, 0xAA]);
    m.step().unwrap();
    assert!(m.sic().pending);
    assert_eq!(m.sic().cause, 0x8000_0000);
    assert_eq!(pop(&mut m, Status::from_bits(SHORT)), Ok(0));
    assert_eq!(instr_ptr(&m), 0x1606);
}

#[test]
fn dup_copies_across_stacks() {
    let mut m = boot(&[]);
    push(&mut m, 0xCAFE, Status::empty()).unwrap();
    Instr::Dup.execute(&mut m, Status::empty()).unwrap();
    assert_eq!(top(&m, false), 2);
    assert_eq!(top(&m, true), 2);
    assert_eq!(pop(&mut m, Status::from_bits(RETURN)), Ok(0xCAFE));
    assert_eq!(pop(&mut m, Status::empty()), Ok(0xCAFE));

    push(&mut m, 0x1234_5678, Status::from_bits(SHORT | RETURN)).unwrap();
    Instr::Dup.execute(&mut m, Status::from_bits(SHORT | RETURN)).unwrap();
    assert_eq!(top(&m, true), 4);
    assert_eq!(top(&m, false), 4);
    assert_eq!(copy(&m, 0, Status::from_bits(SHORT)), Ok(0x1234_5678));
}

#[test]
fn over_reverses_top_three() {
    let mut m = boot(&[]);
    let f = Status::empty();
    push(&mut m, 0xfffd, f).unwrap();
    push(&mut m, 0xfffe, f).unwrap();
    push(&mut m, 0xffff, f).unwrap();
    Instr::Over.execute(&mut m, Status::from_bits(KEEP)).unwrap();
    assert_eq!(top(&m, false), 6);
    assert_eq!(pop(&mut m, f), Ok(0xfffd));
    assert_eq!(pop(&mut m, f), Ok(0xfffe));
    assert_eq!(pop(&mut m, f), Ok(0xffff));
}

#[test]
fn str_then_load_round_trip() {
    let mut m = boot(&[]);
    let word = Status::from_bits(SHORT);
    push(&mut m, 0x1357_9BDF, word).unwrap();
    push(&mut m, 0x3000, word).unwrap();
    Instr::Str.execute(&mut m, word).unwrap();
    assert_eq!(top(&m, false), 0);
    assert_eq!(m.memory().read_u32(0x2000), 0x1357_9BDF);
    push(&mut m, 0x3000, word).unwrap();
    Instr::Load.execute(&mut m, word).unwrap();
    assert_eq!(pop(&mut m, word), Ok(0x1357_9BDF));

    push(&mut m, 0xABCD, Status::empty()).unwrap();
    push(&mut m, 0x3010, word).unwrap();
    Instr::Str.execute(&mut m, Status::empty()).unwrap();
    assert_eq!(m.memory().read_u16(0x2010), 0xABCD);
    assert_eq!(m.memory().read_u16(0x2012), 0);
}

#[test]
fn str_misaligned_leaves_memory() {
    let mut m = boot(&[]);
    let word = Status::from_bits(SHORT);
    push(&mut m, 0xFFFF_FFFF, word).unwrap();
    push(&mut m, 0x3001, word).unwrap();
    Instr::Str.execute(&mut m, word).unwrap();
    assert_eq!(m.memory().read_u32(0x2000), 0);
    assert_eq!(m.memory().read_u32(0x2004), 0);
    assert!(m.sic().pending);
    assert_eq!(m.sic().cause, 0x8000_0001);
}

#[test]
fn push_and_drop() {
    let mut m = boot(&[]);
    push(&mut m, 5, Status::empty()).unwrap();
    Instr::Push.execute(&mut m, Status::empty()).unwrap();
    assert_eq!(top(&m, false), 2);
    Instr::Drop.execute(&mut m, Status::from_bits(KEEP)).unwrap();
    assert_eq!(top(&m, false), 0);
}

#[test]
fn cmp_and_conditional_execution() {
    let mut m = boot(&[]);
    push(&mut m, 9, Status::empty()).unwrap();
    push(&mut m, 4, Status::empty()).unwrap();
    Instr::Cmp.execute(&mut m, Status::empty()).unwrap();
    assert_eq!(ConditionRegister::read(&m).bits(), LESS);
    assert_eq!(top(&m, false), 0);
    // skipped: the condition asks for equality
    let lit_eq = Instruction::new(Instr::Lit, Status::from_bits(IF_EQUAL));
    set_instr_ptr(&mut m, 0x1600);
    lit_eq.execute(&mut m).unwrap();
    assert_eq!(top(&m, false), 0);
    assert_eq!(instr_ptr(&m), 0x1604);
    // run: one of the conditions holds
    let lit_lt = Instruction::new(Instr::Lit, Status::from_bits(IF_GREATER | IF_LESS));
    lit_lt.execute(&mut m).unwrap();
    assert_eq!(top(&m, false), 2);
    assert_eq!(instr_ptr(&m), 0x1608);
    // the register stays until the next compare
    Instruction::new(Instr::Nop, Status::empty()).execute(&mut m).unwrap();
    assert_eq!(ConditionRegister::read(&m).bits(), LESS);
}

#[test]
fn condition_register_operations() {
    let mut m = boot(&[]);
    ConditionRegister::compare(3, 3).write(&mut m);
    assert_eq!(ConditionRegister::read(&m).bits(), EQUAL);
    ConditionRegister::compare(1, 2).add(&mut m);
    assert_eq!(ConditionRegister::read(&m).bits(), EQUAL | LESS);
    ConditionRegister::compare(3, 3).clear(&mut m);
    assert_eq!(ConditionRegister::read(&m).bits(), LESS);
    ConditionRegister::reset(&mut m);
    assert_eq!(ConditionRegister::read(&m).bits(), 0);
}

#[test]
fn jsr_call_then_return() {
    let mut m = boot(&[]);
    set_instr_ptr(&mut m, 0x1700);
    push(&mut m, 0x1900, Status::from_bits(SHORT)).unwrap();
    Instruction::new(Instr::Jsr, Status::empty()).execute(&mut m).unwrap();
    assert_eq!(instr_ptr(&m), 0x1900);
    assert_eq!(top(&m, true), 4);
    Instruction::new(Instr::Jsr, Status::from_bits(RETURN)).execute(&mut m).unwrap();
    assert_eq!(instr_ptr(&m), 0x1702);
    assert_eq!(top(&m, true), 0);
    assert_eq!(pop(&mut m, Status::from_bits(SHORT)), Ok(0x1902));
}

#[test]
fn jsr_to_odd_target_is_fatal() {
    let mut m = boot(&[]);
    push(&mut m, 0x1901, Status::from_bits(SHORT)).unwrap();
    assert_eq!(
        Instr::Jsr.execute(&mut m, Status::empty()),
        Err(Fault::MisalignedJump { target: 0x1901 })
    );
}

#[test]
fn halt_stops_the_machine() {
    let mut m = boot(&[0xff, 0x00]);
    m.step().unwrap();
    assert!(m.halted());
}

#[test]
fn stack_overflow_in_a_program_is_fatal() {
    let mut m = boot(&[0x01, 0x00, 0x11, 0x00]);
    for _ in 0..128 {
        push(&mut m, 0, Status::empty()).unwrap();
    }
    assert_eq!(m.step(), Err(Fault::StackOverflow { location: 0x10ff, offset: 256 }));
}

#[test]
fn lit_str_halt_scenario() {
    // Nop; Lit SHORT|RETURN 0xAABBCCDD; Dup SHORT; Str SHORT|RETURN; Halt
    let program = [
        0x00, 0x00, 0x01, 0x06, 0xDD, 0xCC, 0xBB, 0xAA, 0x02, 0x04, 0x04, 0x06, 0xff, 0x00,
    ];
    let mut m = boot(&program);
    push(&mut m, 0x3000, Status::from_bits(SHORT)).unwrap();
    let mut cycles = 0;
    while !m.halted() {
        m.step().unwrap();
        cycles += 1;
        assert!(cycles < 10);
    }
    assert_eq!(cycles, 5);
    assert_eq!(m.memory().read_u8(0x2000), 0xDD);
    assert_eq!(m.memory().read_u8(0x2001), 0xCC);
    assert_eq!(m.memory().read_u8(0x2002), 0xBB);
    assert_eq!(m.memory().read_u8(0x2003), 0xAA);
    assert!(!m.sic().pending);
}

#[test]
fn interrupt_jumps_to_vector_and_saves_return() {
    // Nop at 0x1600; the vector points at 0x1608
    let mut m = boot(&[0, 0, 0, 0, 0, 0, 0, 0, 0xff, 0x00]);
    let mmu = m.mmu();
    mmu.write_u32(&mut m, 0x300, 0x1608);
    mmu.write_u16(&mut m, 0x0C, 1);
    assert!(m.sic().pending);
    assert_eq!(m.sic().cause, 0);
    m.step().unwrap();
    assert!(!m.sic().pending);
    assert_eq!(m.sic().return_addr, 0x1600);
    assert!(m.halted());
}

#[test]
fn store_ret_and_int_jmp() {
    let mut m = boot(&[]);
    let mmu = m.mmu();
    mmu.write_u32(&mut m, 0x300, 0x2001);
    assert_eq!(int_jmp(&mut m), Err(Fault::MisalignedJump { target: 0x2001 }));
    mmu.write_u16(&mut m, 0x300, 0x2000);
    store_ret(&mut m);
    assert_eq!(m.sic().return_addr, START_IP);
    assert_eq!(int_jmp(&mut m), Ok(()));
    assert_eq!(instr_ptr(&m), 0x2000);
}

#[test]
fn mmu_store_load_round_trip() {
    let mut m = boot(&[]);
    let mmu = m.mmu();
    mmu.write_u32(&mut m, 0x4000, 0x0BAD_F00D);
    assert_eq!(mmu.read_u32(&mut m, 0x4000), 0x0BAD_F00D);
    mmu.write_u16(&mut m, 0x4006, 0x7777);
    assert_eq!(mmu.read_u16(&mut m, 0x4006), 0x7777);
    assert!(!m.sic().pending);
    mmu.write_u32(&mut m, 0x4002, 0xFFFF_FFFF);
    assert!(m.sic().pending);
    assert_eq!(mmu.read_u32(&mut m, 0x4000), 0x0BAD_F00D);
}

#[test]
fn mmu_io_registers() {
    let mut m = boot(&[]);
    let mmu = m.mmu();
    mmu.write_u32(&mut m, 0x300, 0x0001_2344);
    assert_eq!(mmu.read_u32(&mut m, 0x300), 0x0001_2344);
    assert_eq!(mmu.read_u16(&mut m, 0x300), 0x2344);
    mmu.write_u32(&mut m, 0x00, 0x1500);
    assert_eq!(m.primary_stack().location(), 0x1500);
    mmu.write_u16(&mut m, 0x04, 0x1600);
    assert_eq!(m.return_stack().location(), 0x1600);
    mmu.write_u32(&mut m, 0x08, 0x0004_0008);
    assert_eq!(m.primary_stack().offset(), 4);
    assert_eq!(m.return_stack().offset(), 8);
    mmu.write_u16(&mut m, 0x0A, 2);
    assert_eq!(m.return_stack().offset(), 2);
    mmu.write_u16(&mut m, 0x100, 0x0141);
    mmu.write_u32(&mut m, 0x100, 0x42);
    assert_eq!(m.output(), &vec![0x41, 0x42]);
    assert_eq!(m.take_output(), vec![0x41, 0x42]);
    assert!(m.output().is_empty());
    assert!(!m.sic().pending);
    assert_eq!(mmu.read_u32(&mut m, 0x304), 0);
    assert_eq!(mmu.read_u32(&mut m, 0x308), 0);
}

#[test]
fn mmu_unknown_io_faults() {
    let mut m = boot(&[]);
    let mmu = m.mmu();
    assert_eq!(mmu.read_u32(&mut m, 0x0C), 0);
    assert_eq!(m.sic().cause, 0x8000_0002);
    mmu.write_u32(&mut m, 0x304, 1);
    assert_eq!(m.sic().cause, 0x8000_0003);
    mmu.write_u32(&mut m, 0x0A, 1);
    assert_eq!(m.sic().cause, 0x8000_0003);
    assert_eq!(mmu.read_u32(&mut m, 0x304), 0x8000_0003);
}

#[test]
fn mmu_window_bounds_are_inclusive() {
    let mut m = boot(&[]);
    let mmu = m.mmu();
    // 0xfff is the last I/O address: an unknown register
    assert_eq!(mmu.read_u16(&mut m, 0xfff), 0);
    assert_eq!(m.sic().cause, 0x8000_0002);
    // 0x1000 is the first memory address
    mmu.write_u16(&mut m, 0x1000, 0x5555);
    assert_eq!(m.memory().read_u16(0), 0x5555);
    assert_eq!(mmu.read_u16(&mut m, 0x1000), 0x5555);
}

#[test]
fn mmu_unmapped_address_faults() {
    let mut m = boot(&[]);
    let mmu = MMU::new(0, 0xff, 0x1000, 0x1fff);
    assert_eq!(mmu.read_u32(&mut m, 0x500), 0);
    assert_eq!(m.sic().cause, 0x8000_0000);
    mmu.write_u32(&mut m, 0x500, 1);
    assert_eq!(m.sic().cause, 0x8000_0001);
    mmu.write_u32(&mut m, 0x2000, 1);
    assert_eq!(m.sic().cause, 0x8000_0001);
    // past the end of memory
    assert_eq!(mmu.read_u32(&mut m, 0x1_0000 + 0x1000), 0);
    assert_eq!(m.sic().cause, 0x8000_0000);
    let wide = MMU::new(0, 0xfff, 0x1000, 0xffff_ffff);
    assert_eq!(wide.read_u32(&mut m, 0x2_0000), 0);
    assert_eq!(m.sic().cause, 0x8000_0002);
}
