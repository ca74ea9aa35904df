use vstd::prelude::*;

verus! {

/// A fault after which the machine cannot go on. Recoverable faults do not appear here:
/// they raise an interrupt through the [`crate::sic::Sic`] instead.
#[derive(Clone, Copy, PartialEq, Eq, Structural, Debug)]
pub enum Fault {
    /// A push that does not fit in the stack's 256-byte window.
    StackOverflow { location: u32, offset: u16 },
    /// A stack access outside the stack's window or outside memory.
    StackOutOfRange { location: u32, offset: u16 },
    /// The instruction word at `address` holds no known opcode.
    InvalidOpcode { opcode: u8, address: u32 },
    /// A jump to an odd address.
    MisalignedJump { target: u32 },
}

} // verus!
