use vstd::prelude::*;
use vstd::array::spec_array_update;
use crate::ppu::PPU;

verus! {

/// Bytes that the processor can address.
pub const MEMORY_SIZE: usize = 65536;

/// What the processor is wired to: 64 KiB of memory, every address readable
/// and writable, and the picture unit's clock.
#[derive(Clone, Copy, Debug)]
pub struct Bus {
    pub memory: [u8; 65536],
    pub ppu: PPU,
}

impl Bus {
    /// The bus after `cycles` processor cycles have passed.
    pub open spec fn ticked(self, cycles: u8) -> Bus {
        Bus { memory: self.memory, ppu: self.ppu.ticked(cycles) }
    }

    /// The bus with `value` stored at `addr`.
    pub open spec fn written(self, addr: u16, value: u8) -> Bus {
        Bus { memory: spec_array_update(self.memory, addr as int, value), ppu: self.ppu }
    }

    /// A bus whose memory is all zero.
    pub fn new() -> (bus: Bus)
        ensures
            forall|a: int| 0 <= a < 65536 ==> bus.memory[a] == 0,
            bus.ppu.scanline == 0,
            bus.ppu.cycle == 0,
            bus.ppu.mask.bits == 0,
    {
        Bus { memory: [0; 65536], ppu: PPU::new() }
    }

    /// The byte at `addr`. Reading changes nothing, so the same call serves
    /// while tracing.
    pub fn read(&self, addr: u16) -> (value: u8)
        ensures
            value == self.memory[addr as int],
    {
        self.memory[addr as usize]
    }

    pub fn write(&mut self, addr: u16, value: u8)
        ensures
            *final(self) == old(self).written(addr, value),
            final(self).memory@ == old(self).memory@.update(addr as int, value),
            final(self).ppu == old(self).ppu,
    {
        self.memory[addr as usize] = value;
        assert(self.memory =~= spec_array_update(old(self).memory, addr as int, value));
    }

    /// Lets `cycles` processor cycles pass for everything on the bus.
    pub fn tick(&mut self, cycles: u8)
        ensures
            *final(self) == old(self).ticked(cycles),
    {
        self.ppu.tick(cycles);
    }

    /// Copies `bytes` into memory from `start` on, as far as memory reaches.
    pub fn load(&mut self, start: u16, bytes: &[u8])
        ensures
            final(self).ppu == old(self).ppu,
            forall|a: int|
                0 <= a < 65536 ==> final(self).memory[a] == (if start <= a < start + bytes@.len() {
                    bytes@[a - start]
                } else {
                    old(self).memory[a]
                }),
    {
        let mut i: usize = 0;
        while i < bytes.len() && i < 65536 - start as usize
            invariant
                i <= bytes@.len(),
                i <= 65536 - start,
                self.ppu == old(self).ppu,
                forall|a: int|
                    0 <= a < 65536 ==> self.memory[a] == (if start <= a < start + i {
                        bytes@[a - start]
                    } else {
                        old(self).memory[a]
                    }),
            decreases bytes@.len() - i,
        {
            self.memory[start as usize + i] = bytes[i];
            i += 1;
        }
    }
}

} // verus!
