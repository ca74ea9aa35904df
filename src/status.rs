use vstd::prelude::*;

verus! {

/// Bit of [`Status`]: a pop leaves the value on the stack.
pub const KEEP: u8 = 0x01;
/// Bit of [`Status`]: act on the return stack instead of the primary stack.
pub const RETURN: u8 = 0x02;
/// Bit of [`Status`]: 32-bit operands instead of 16-bit ones.
pub const SHORT: u8 = 0x04;
/// Bit of [`Status`]: execute only if the last compare found the values equal.
pub const IF_EQUAL: u8 = 0x08;
/// Bit of [`Status`]: execute only if the last compare found the first value greater.
pub const IF_GREATER: u8 = 0x10;
/// Bit of [`Status`]: execute only if the last compare found the first value less.
pub const IF_LESS: u8 = 0x20;
/// Reserved bit of [`Status`].
pub const RESERVED1: u8 = 0x40;
/// Reserved bit of [`Status`].
pub const RESERVED2: u8 = 0x80;

/// Bit of [`ConditionRegister`]: the compared values were equal.
pub const EQUAL: u16 = 0x1;
/// Bit of [`ConditionRegister`]: the first value was greater.
pub const GREATER: u16 = 0x2;
/// Bit of [`ConditionRegister`]: the first value was less.
pub const LESS: u16 = 0x4;

/// Whether `bit` is one of the eight single bits of a status byte.
pub open spec fn is_flag(bit: u8) -> bool {
    bit == KEEP || bit == RETURN || bit == SHORT || bit == IF_EQUAL || bit == IF_GREATER
        || bit == IF_LESS || bit == RESERVED1 || bit == RESERVED2
}

/// The status byte of an instruction: a set of eight flag bits.
#[derive(Clone, Copy, PartialEq, Eq, Structural, Debug)]
pub struct Status {
    pub bits: u8,
}

impl Status {
    /// Whether every bit of `bit` is set.
    pub open spec fn has(self, bit: u8) -> bool {
        self.bits & bit == bit
    }

    pub open spec fn keep(self) -> bool {
        self.has(KEEP)
    }

    pub open spec fn ret(self) -> bool {
        self.has(RETURN)
    }

    pub open spec fn short(self) -> bool {
        self.has(SHORT)
    }

    pub open spec fn if_equal(self) -> bool {
        self.has(IF_EQUAL)
    }

    pub open spec fn if_greater(self) -> bool {
        self.has(IF_GREATER)
    }

    pub open spec fn if_less(self) -> bool {
        self.has(IF_LESS)
    }

    /// The set with the bits of `bit` set (`on`) or cleared (`!on`).
    pub open spec fn set_to(self, bit: u8, on: bool) -> Status {
        Status { bits: if on { self.bits | bit } else { self.bits & !bit } }
    }

    /// The set with the bits of `bit` flipped.
    pub open spec fn flipped(self, bit: u8) -> Status {
        Status { bits: self.bits ^ bit }
    }

    pub fn from_bits(bits: u8) -> (r: Status)
        ensures
            r.bits == bits,
    {
        Status { bits }
    }

    pub fn empty() -> (r: Status)
        ensures
            r.bits == 0,
    {
        Status { bits: 0 }
    }

    pub fn bits(&self) -> (r: u8)
        ensures
            r == self.bits,
    {
        self.bits
    }

    /// Whether every bit of `bit` is set.
    pub fn contains(&self, bit: u8) -> (r: bool)
        ensures
            r == self.has(bit),
    {
        self.bits & bit == bit
    }

    /// Sets (`on`) or clears (`!on`) the bits of `bit`.
    pub fn with(self, bit: u8, on: bool) -> (r: Status)
        ensures
            r == self.set_to(bit, on),
    {
        if on {
            Status { bits: self.bits | bit }
        } else {
            Status { bits: self.bits & !bit }
        }
    }

    /// Flips the bits of `bit`.
    pub fn toggled(self, bit: u8) -> (r: Status)
        ensures
            r == self.flipped(bit),
    {
        Status { bits: self.bits ^ bit }
    }
}

/// Setting, clearing or flipping one flag bit decides that bit and keeps every other one.
pub proof fn lemma_flag_update(s: Status, x: u8, y: u8)
    requires
        is_flag(x),
        is_flag(y),
        x != y,
    ensures
        s.set_to(x, true).has(x),
        !s.set_to(x, false).has(x),
        s.flipped(x).has(x) == !s.has(x),
        s.set_to(x, true).has(y) == s.has(y),
        s.set_to(x, false).has(y) == s.has(y),
        s.flipped(x).has(y) == s.has(y),
{
    let b = s.bits;
    assert((b | x) & x == x) by (bit_vector)
        requires
            is_flag(x),
    ;
    assert((b & !x) & x != x) by (bit_vector)
        requires
            is_flag(x),
    ;
    assert(((b ^ x) & x == x) == !(b & x == x)) by (bit_vector)
        requires
            is_flag(x),
    ;
    assert(((b | x) & y == y) == (b & y == y)) by (bit_vector)
        requires
            is_flag(x),
            is_flag(y),
            x != y,
    ;
    assert(((b & !x) & y == y) == (b & y == y)) by (bit_vector)
        requires
            is_flag(x),
            is_flag(y),
            x != y,
    ;
    assert(((b ^ x) & y == y) == (b & y == y)) by (bit_vector)
        requires
            is_flag(x),
            is_flag(y),
            x != y,
    ;
}

/// The three condition bits written by a compare.
#[derive(Clone, Copy, PartialEq, Eq, Structural, Debug)]
pub struct ConditionRegister {
    pub bits: u16,
}

/// The condition bits that comparing `val1` with `val2` yields.
pub open spec fn compared(val1: u32, val2: u32) -> ConditionRegister {
    ConditionRegister {
        bits: if val1 == val2 {
            EQUAL
        } else if val1 < val2 {
            LESS
        } else {
            GREATER
        },
    }
}

impl ConditionRegister {
    pub open spec fn has(self, bit: u16) -> bool {
        self.bits & bit == bit
    }

    pub open spec fn equal(self) -> bool {
        self.has(EQUAL)
    }

    pub open spec fn greater(self) -> bool {
        self.has(GREATER)
    }

    pub open spec fn less(self) -> bool {
        self.has(LESS)
    }

    pub fn empty() -> (r: ConditionRegister)
        ensures
            r.bits == 0,
    {
        ConditionRegister { bits: 0 }
    }

    /// The register with exactly the bits of `bits` that name a condition, or `None`
    /// when `bits` holds any other bit.
    pub fn from_bits(bits: u16) -> (r: Option<ConditionRegister>)
        ensures
            r == (if bits & !(EQUAL | GREATER | LESS) == 0 {
                Some((ConditionRegister { bits }))
            } else {
                None
            }),
    {
        if bits & !(EQUAL | GREATER | LESS) == 0 {
            Some(ConditionRegister { bits })
        } else {
            None
        }
    }

    pub fn bits(&self) -> (r: u16)
        ensures
            r == self.bits,
    {
        self.bits
    }

    pub fn contains(&self, bit: u16) -> (r: bool)
        ensures
            r == self.has(bit),
    {
        self.bits & bit == bit
    }

    /// The result of comparing `val1` with `val2`.
    pub fn compare(val1: u32, val2: u32) -> (r: ConditionRegister)
        ensures
            r == compared(val1, val2),
    {
        if val1 == val2 {
            ConditionRegister { bits: EQUAL }
        } else if val1 < val2 {
            ConditionRegister { bits: LESS }
        } else {
            ConditionRegister { bits: GREATER }
        }
    }
}

/// A compare sets exactly one condition bit: EQUAL when the values are equal, LESS when
/// the first is smaller, GREATER when it is larger.
pub proof fn lemma_compare_exclusive(val1: u32, val2: u32)
    ensures
        compared(val1, val2).equal() <==> val1 == val2,
        compared(val1, val2).less() <==> val1 < val2,
        compared(val1, val2).greater() <==> val1 > val2,
        compared(val1, val2).equal() ==> !compared(val1, val2).less()
            && !compared(val1, val2).greater(),
        !(compared(val1, val2).less() && compared(val1, val2).greater()),
{
    let b = compared(val1, val2).bits;
    assert(b == EQUAL ==> (b & EQUAL == EQUAL && b & LESS != LESS && b & GREATER != GREATER))
        by (bit_vector);
    assert(b == LESS ==> (b & EQUAL != EQUAL && b & LESS == LESS && b & GREATER != GREATER))
        by (bit_vector);
    assert(b == GREATER ==> (b & EQUAL != EQUAL && b & LESS != LESS && b & GREATER == GREATER))
        by (bit_vector);
}

} // verus!
