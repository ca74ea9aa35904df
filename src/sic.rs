use vstd::prelude::*;

use crate::fault::Fault;

verus! {

/// Cause code of a misaligned read, or of a read of an address in neither window.
pub const CAUSE_BAD_READ: u32 = 0;
/// Cause code of a misaligned write, or of a write to an address in neither window.
pub const CAUSE_BAD_WRITE: u32 = 1;
/// Cause code of a memory access past the end of memory, or of a read of an unknown
/// I/O register.
pub const CAUSE_OUT_OF_BOUNDS: u32 = 2;
/// Cause code of a write to an unknown I/O register.
pub const CAUSE_BAD_IO_WRITE: u32 = 3;
/// Cause code of an interrupt that the program requests through its I/O port.
pub const CAUSE_SOFTWARE: u32 = 0;

/// The interrupt controller: where to jump, why, where to come back to, and whether an
/// interrupt waits to be taken.
#[derive(Clone, Copy, PartialEq, Eq, Structural, Debug)]
pub struct Sic {
    pub jmp: u32,
    pub cause: u32,
    pub return_addr: u32,
    pub pending: bool,
}

/// The cause register's value: the low 31 bits of `cause`, with the exception flag in
/// the top bit.
pub open spec fn cause_word(cause: u32, exception: bool) -> u32 {
    (cause % 0x8000_0000 + if exception {
        0x8000_0000int
    } else {
        0
    }) as u32
}

impl Sic {
    /// The controller after an interrupt with `cause` was raised.
    pub open spec fn raised(self, cause: u32, exception: bool) -> Sic {
        Sic { cause: cause_word(cause, exception), pending: true, ..self }
    }

    pub fn new() -> (r: Sic)
        ensures
            r == (Sic { jmp: 0, cause: 0, return_addr: 0, pending: false }),
    {
        Sic { jmp: 0, cause: 0, return_addr: 0, pending: false }
    }

    /// Records the instruction pointer to come back to.
    pub fn store_ret(&mut self, ip: u32)
        ensures
            *final(self) == (Sic { return_addr: ip, ..*old(self) }),
    {
        self.return_addr = ip;
    }

    /// Raises an interrupt: stores the cause and marks an interrupt as pending.
    pub fn gen_int(&mut self, cause: u32, exception: bool)
        ensures
            *final(self) == old(self).raised(cause, exception),
    {
        let flag: u32 = if exception {
            0x8000_0000
        } else {
            0
        };
        let store = (cause & 0x7FFF_FFFF) | flag;
        assert(store == cause_word(cause, exception)) by {
            assert(flag == 0 ==> (cause & 0x7FFF_FFFF) | flag == cause % 0x8000_0000)
                by (bit_vector);
            assert(flag == 0x8000_0000 ==> (cause & 0x7FFF_FFFF) | flag == cause % 0x8000_0000
                + 0x8000_0000) by (bit_vector);
        }
        self.cause = store;
        self.pending = true;
    }

    /// Loads the jump vector into `ip`. A vector that is odd is refused: the instruction
    /// pointer stays even.
    pub fn jmp(&self, ip: &mut u32) -> (r: Result<(), Fault>)
        ensures
            self.jmp % 2 == 0 ==> r is Ok && *final(ip) == self.jmp,
            self.jmp % 2 != 0 ==> r == Err::<(), Fault>(Fault::MisalignedJump { target: self.jmp })
                && *final(ip) == *old(ip),
    {
        if self.jmp % 2 == 0 {
            *ip = self.jmp;
            Ok(())
        } else {
            Err(Fault::MisalignedJump { target: self.jmp })
        }
    }
}

} // verus!
