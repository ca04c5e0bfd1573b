use vstd::prelude::*;
use crate::flags::{has_flag, with_flag};

verus! {

/// The picture unit's mask register: what is drawn, and how.
#[derive(Clone, Copy, Debug, PartialEq, Eq, Structural)]
pub struct Mask {
    pub bits: u8,
}

impl Mask {
    pub const GREYSCALE: u8 = 0x01;

    pub const SHOW_LEFT_BACKGROUND: u8 = 0x02;

    pub const SHOW_LEFT_SPRITES: u8 = 0x04;

    pub const SHOW_BACKGROUND: u8 = 0x08;

    pub const SHOW_SPRITES: u8 = 0x10;

    pub const EMPHASIZE_RED: u8 = 0x20;

    pub const EMPHASIZE_GREEN: u8 = 0x40;

    pub const EMPHASIZE_BLUE: u8 = 0x80;

    /// Whether `flag` is set.
    pub open spec fn has(self, flag: u8) -> bool {
        has_flag(self.bits, flag)
    }

    /// The register with `flag` set to `value` and the rest unchanged.
    pub open spec fn with(self, flag: u8, value: bool) -> Mask {
        Mask { bits: with_flag(self.bits, flag, value) }
    }

    /// The register with nothing set.
    pub fn new() -> (m: Mask)
        ensures
            m.bits == 0,
    {
        Mask::default()
    }

    /// All eight bits are flags, so nothing is cut off.
    pub fn from_bits_truncate(bits: u8) -> (m: Mask)
        ensures
            m.bits == bits,
    {
        Mask { bits }
    }

    pub fn bits(&self) -> (b: u8)
        ensures
            b == self.bits,
    {
        self.bits
    }

    pub fn contains(&self, flag: u8) -> (b: bool)
        ensures
            b == self.has(flag),
    {
        self.bits & flag == flag
    }

    pub fn set(&mut self, flag: u8, value: bool)
        ensures
            *final(self) == old(self).with(flag, value),
    {
        if value {
            self.bits = self.bits | flag;
        } else {
            self.bits = self.bits & !flag;
        }
    }
}

impl Default for Mask {
    fn default() -> (m: Mask)
        ensures
            m.bits == 0,
    {
        Mask::from_bits_truncate(0)
    }
}

} // verus!
