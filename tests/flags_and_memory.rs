use cute_vm::memory::Memory;
use cute_vm::sic::Sic;
use cute_vm::status::{
    ConditionRegister, Status, EQUAL, GREATER, IF_EQUAL, KEEP, LESS, RETURN, SHORT,
};

#[test]
fn status_contains_and_updates() {
    let s = Status::from_bits(SHORT | KEEP);
    assert!(s.contains(SHORT));
    assert!(s.contains(KEEP));
    assert!(!s.contains(RETURN));
    assert_eq!(s.with(KEEP, false).bits(), SHORT);
    assert_eq!(s.with(RETURN, true).bits(), SHORT | KEEP | RETURN);
    assert_eq!(s.toggled(RETURN).bits(), SHORT | KEEP | RETURN);
    assert_eq!(s.toggled(SHORT).bits(), KEEP);
    assert_eq!(Status::empty().bits(), 0);
    assert!(Status::from_bits(IF_EQUAL).contains(IF_EQUAL));
}

#[test]
fn condition_register_from_bits() {
    assert_eq!(ConditionRegister::from_bits(0x8), None);
    assert_eq!(ConditionRegister::from_bits(0x5).map(|c| c.bits()), Some(0x5));
    assert_eq!(ConditionRegister::empty().bits(), 0);
}

#[test]
fn compare_sets_exactly_one_bit() {
    let less = ConditionRegister::compare(1, 2);
    assert_eq!(less.bits(), LESS);
    assert!(less.contains(LESS) && !less.contains(EQUAL) && !less.contains(GREATER));
    let greater = ConditionRegister::compare(0xffff_ffff, 0);
    assert_eq!(greater.bits(), GREATER);
    let equal = ConditionRegister::compare(7, 7);
    assert_eq!(equal.bits(), EQUAL);
    assert!(!equal.contains(LESS) && !equal.contains(GREATER));
}

#[test]
fn memory_starts_zeroed() {
    let m = Memory::new(16);
    assert_eq!(m.len(), 16);
    for i in 0..16 {
        assert_eq!(m.read_u8(i), 0);
    }
    assert_eq!(Memory::null().len(), 0);
}

#[test]
fn memory_is_little_endian() {
    let mut m = Memory::new(32);
    m.write_u32(4, 0xAABB_CCDD);
    assert_eq!(m.read_u8(4), 0xDD);
    assert_eq!(m.read_u8(5), 0xCC);
    assert_eq!(m.read_u8(6), 0xBB);
    assert_eq!(m.read_u8(7), 0xAA);
    assert_eq!(m.read_u32(4), 0xAABB_CCDD);
    assert_eq!(m.read_u16(4), 0xCCDD);
    assert_eq!(m.read_u16(5), 0xBBCC);
    m.write_u16(9, 0x1234);
    assert_eq!(m.read_u8(9), 0x34);
    assert_eq!(m.read_u8(10), 0x12);
    m.write_u64(16, 0x0102_0304_0506_0708);
    assert_eq!(m.read_u8(16), 0x08);
    assert_eq!(m.read_u8(23), 0x01);
    assert_eq!(m.read_u64(16), 0x0102_0304_0506_0708);
    m.write_u8(31, 0x5A);
    assert_eq!(m.read_u8(31), 0x5A);
}

#[test]
fn guarded_read_misaligned_faults() {
    let mut m = Memory::new(16);
    m.write_u32(4, 0xFFFF_FFFF);
    let mut sic = Sic::new();
    assert_eq!(m.vm_read_u16(&mut sic, 5), 0);
    assert!(sic.pending);
    assert_eq!(sic.cause, 0x8000_0000);
    let mut sic = Sic::new();
    assert_eq!(m.vm_read_u32(&mut sic, 6), 0);
    assert_eq!(sic.cause, 0x8000_0000);
    let mut sic = Sic::new();
    assert_eq!(m.vm_read_u32(&mut sic, 4), 0xFFFF_FFFF);
    assert!(!sic.pending);
}

#[test]
fn guarded_read_past_end_faults() {
    let m = Memory::new(16);
    let mut sic = Sic::new();
    assert_eq!(m.vm_read_u32(&mut sic, 16), 0);
    assert!(sic.pending);
    assert_eq!(sic.cause, 0x8000_0002);
    let mut sic = Sic::new();
    assert_eq!(m.vm_read_u16(&mut sic, 14), 0);
    assert!(!sic.pending);
}

#[test]
fn guarded_write_misaligned_leaves_memory() {
    let mut m = Memory::new(16);
    let mut sic = Sic::new();
    m.vm_write_u16(&mut sic, 3, 0xBEEF);
    assert!(sic.pending);
    assert_eq!(sic.cause, 0x8000_0001);
    for i in 0..16 {
        assert_eq!(m.read_u8(i), 0);
    }
    let mut sic = Sic::new();
    m.vm_write_u32(&mut sic, 2, 0xBEEF_BEEF);
    assert_eq!(sic.cause, 0x8000_0001);
    assert_eq!(m.read_u32(0), 0);
    let mut sic = Sic::new();
    m.vm_write_u32(&mut sic, 16, 1);
    assert_eq!(sic.cause, 0x8000_0002);
    let mut sic = Sic::new();
    m.vm_write_u32(&mut sic, 12, 0xBEEF_BEEF);
    assert!(!sic.pending);
    assert_eq!(m.read_u32(12), 0xBEEF_BEEF);
}

#[test]
fn gen_int_packs_cause() {
    let mut sic = Sic::new();
    sic.gen_int(0xFFFF_FFFF, false);
    assert_eq!(sic.cause, 0x7FFF_FFFF);
    assert!(sic.pending);
    sic.gen_int(3, true);
    assert_eq!(sic.cause, 0x8000_0003);
    sic.store_ret(0x1234);
    assert_eq!(sic.return_addr, 0x1234);
}

#[test]
fn sic_jump_refuses_odd_vector() {
    let mut sic = Sic::new();
    let mut ip: u32 = 0x1600;
    sic.jmp = 0x2001;
    assert!(sic.jmp(&mut ip).is_err());
    assert_eq!(ip, 0x1600);
    sic.jmp = 0x2000;
    assert!(sic.jmp(&mut ip).is_ok());
    assert_eq!(ip, 0x2000);
}
