use vstd::prelude::*;
use crate::flags::{has_flag, with_flag};

verus! {

/// Whether `flag` is one of the eight named flags, a single bit each.
pub open spec fn is_status_flag(flag: u8) -> bool {
    flag == 0x01 || flag == 0x02 || flag == 0x04 || flag == 0x08 || flag == 0x10 || flag == 0x20
        || flag == 0x40 || flag == 0x80
}

/// Two different flags share no bit, and no flag is empty.
pub proof fn lemma_status_flags_disjoint()
    ensures
        forall|a: u8, b: u8| is_status_flag(a) && is_status_flag(b) && a != b ==> #[trigger] (a & b) == 0,
        forall|a: u8| is_status_flag(a) ==> a != 0,
{
    assert(forall|a: u8, b: u8|
        is_status_flag(a) && is_status_flag(b) && a != b ==> #[trigger] (a & b) == 0)
        by (bit_vector);
}

/// The processor's flag register.
#[derive(Clone, Copy, Debug, PartialEq, Eq, Structural)]
pub struct Status {
    pub bits: u8,
}

impl Status {
    pub const CARRY: u8 = 0x01;

    pub const ZERO: u8 = 0x02;

    pub const INTERRUPT_DISABLE: u8 = 0x04;

    pub const DECIMAL: u8 = 0x08;

    pub const BREAK: u8 = 0x10;

    pub const UNUSED: u8 = 0x20;

    pub const OVERFLOW: u8 = 0x40;

    pub const NEGATIVE: u8 = 0x80;

    /// Whether `flag` is set.
    pub open spec fn has(self, flag: u8) -> bool {
        has_flag(self.bits, flag)
    }

    /// The register with `flag` set to `value` and the rest unchanged.
    pub open spec fn with(self, flag: u8, value: bool) -> Status {
        Status { bits: with_flag(self.bits, flag, value) }
    }

    /// The register as the processor has it at power-on: the unused bit and
    /// the interrupt-disable bit set.
    pub fn new() -> (s: Status)
        ensures
            s.bits == 0x24,
    {
        Status { bits: 0x24 }
    }

    /// All eight bits are flags, so nothing is cut off.
    pub fn from_bits_truncate(bits: u8) -> (s: Status)
        ensures
            s.bits == bits,
    {
        Status { bits }
    }

    pub fn bits(&self) -> (b: u8)
        ensures
            b == self.bits,
    {
        self.bits
    }

    pub fn contains(&self, flag: u8) -> (b: bool)
        ensures
            b == self.has(flag),
    {
        self.bits & flag == flag
    }

    pub fn set(&mut self, flag: u8, value: bool)
        ensures
            *final(self) == old(self).with(flag, value),
    {
        if value {
            self.bits = self.bits | flag;
        } else {
            self.bits = self.bits & !flag;
        }
    }

    pub fn insert(&mut self, flag: u8)
        ensures
            *final(self) == old(self).with(flag, true),
    {
        self.bits = self.bits | flag;
    }

    pub fn remove(&mut self, flag: u8)
        ensures
            *final(self) == old(self).with(flag, false),
    {
        self.bits = self.bits & !flag;
    }
}

} // verus!
