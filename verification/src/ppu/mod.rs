use vstd::prelude::*;
use vstd::arithmetic::div_mod::{
    lemma_breakdown,
    lemma_div_pos_is_pos,
    lemma_fundamental_div_mod,
    lemma_mod_multiples_vanish,
    lemma_mod_pos_bound,
};
use crate::ppu::mask::Mask;

pub mod mask;

verus! {

/// Dots in one scanline.
pub const DOTS_PER_SCANLINE: u16 = 341;

/// Scanlines in one frame.
pub const SCANLINES_PER_FRAME: u16 = 262;

/// Dots that pass in one processor cycle.
pub const DOTS_PER_CPU_CYCLE: u16 = 3;

/// The picture unit as the processor sees it: where its beam stands, and its
/// mask register. Drawing is not done here.
#[derive(Clone, Copy, Debug)]
pub struct PPU {
    pub scanline: u16,
    pub cycle: u16,
    pub mask: Mask,
}

/// A count of dots, split into scanline and dot within the frame: the two
/// parts are in range and together give the count modulo the dots of a frame.
proof fn lemma_frame_position(dots: int)
    requires
        0 <= dots,
    ensures
        0 <= (dots / 341) % 262 < 262,
        0 <= dots % 341 < 341,
        341 * ((dots / 341) % 262) + dots % 341 == dots % 89342,
{
    lemma_breakdown(dots, 341, 262);
    lemma_mod_pos_bound(dots, 341);
    lemma_div_pos_is_pos(dots, 341);
    lemma_mod_pos_bound(dots / 341, 262);
}

impl PPU {
    /// Dots since the start of the frame.
    pub open spec fn dot_index(self) -> int {
        self.scanline * 341 + self.cycle
    }

    /// The unit after `cpu_cycles` processor cycles: three dots each, a new
    /// scanline after 341 dots, and scanline 0 again after 262 of them. No
    /// cycle, no change.
    #[verifier::opaque]
    pub open spec fn advanced(self, cpu_cycles: nat) -> PPU {
        let dots = self.dot_index() + 3 * cpu_cycles;
        if cpu_cycles == 0 {
            self
        } else {
            PPU {
                scanline: ((dots / 341) % 262) as u16,
                cycle: (dots % 341) as u16,
                mask: self.mask,
            }
        }
    }

    /// The unit after `cpu_cycles` processor cycles.
    pub open spec fn ticked(self, cpu_cycles: u8) -> PPU {
        self.advanced(cpu_cycles as nat)
    }

    /// While no cycle passes, the unit stays as it is.
    pub proof fn lemma_advanced_by_nothing(self)
        ensures
            self.advanced(0) == self,
    {
        reveal(PPU::advanced);
    }

    /// Letting cycles pass in two parts is the same as letting them pass at
    /// once, and leaves the beam within the frame.
    pub proof fn lemma_advanced(self, first: nat, second: nat)
        ensures
            self.advanced(first).advanced(second) == self.advanced(first + second),
            first > 0 ==> self.advanced(first).scanline < 262 && self.advanced(first).cycle < 341,
    {
        reveal(PPU::advanced);
        if first > 0 {
            let dots = self.dot_index() + 3 * first;
            lemma_frame_position(dots);
            if second > 0 {
                let late = self.advanced(first).dot_index() + 3 * second;
                let total = dots + 3 * second;
                lemma_frame_position(late);
                lemma_frame_position(total);
                assert(total % 89342 == late % 89342) by {
                    lemma_fundamental_div_mod(dots, 89342);
                    lemma_mod_multiples_vanish(dots / 89342, late, 89342);
                }
            }
        }
    }

    pub fn new() -> (p: PPU)
        ensures
            p.scanline == 0,
            p.cycle == 0,
            p.mask.bits == 0,
    {
        PPU { scanline: 0, cycle: 0, mask: Mask::new() }
    }

    pub fn tick(&mut self, cpu_cycles: u8)
        ensures
            *final(self) == old(self).ticked(cpu_cycles),
    {
        proof {
            reveal(PPU::advanced);
        }
        if cpu_cycles > 0 {
            let dots: u32 = self.scanline as u32 * 341 + self.cycle as u32 + 3 * (cpu_cycles as u32);
            self.scanline = ((dots / 341) % 262) as u16;
            self.cycle = (dots % 341) as u16;
        }
    }
}

} // verus!
