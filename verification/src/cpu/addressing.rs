use vstd::prelude::*;

verus! {

/// How an instruction finds its operand.
///
/// The variants ending in `W` are the forms used by instructions that store:
/// they compute the same address as their plain counterparts but always cost
/// the extra cycle, whether or not a page boundary is crossed.
#[derive(Clone, Copy, Debug, PartialEq, Eq, Structural)]
pub enum AddressingMode {
    Implicit,
    Accumulator,
    Immediate,
    ZeroPage,
    ZeroPageX,
    ZeroPageY,
    Relative,
    Absolute,
    AbsoluteX,
    AbsoluteY,
    Indirect,
    IndexedIndirect,
    IndirectIndexed,
    AbsoluteXW,
    AbsoluteYW,
    IndirectIndexedW,
}

impl AddressingMode {
    /// Bytes that an instruction in this mode occupies, opcode included:
    /// one where there is no operand, two where the operand is one byte
    /// (immediate, zero-page, relative and the two zero-page pointer forms),
    /// three where it is a full address.
    pub open spec fn instruction_length(self) -> int {
        match self {
            AddressingMode::Implicit | AddressingMode::Accumulator => 1,
            AddressingMode::Immediate
            | AddressingMode::ZeroPage
            | AddressingMode::ZeroPageX
            | AddressingMode::ZeroPageY
            | AddressingMode::Relative
            | AddressingMode::IndexedIndirect
            | AddressingMode::IndirectIndexed
            | AddressingMode::IndirectIndexedW => 2,
            AddressingMode::Absolute
            | AddressingMode::AbsoluteX
            | AddressingMode::AbsoluteY
            | AddressingMode::Indirect
            | AddressingMode::AbsoluteXW
            | AddressingMode::AbsoluteYW => 3,
        }
    }

    /// Whether this is one of the store forms, which never skip the extra cycle.
    pub open spec fn is_write_variant(self) -> bool {
        self == AddressingMode::AbsoluteXW || self == AddressingMode::AbsoluteYW || self
            == AddressingMode::IndirectIndexedW
    }

    /// Whether the mode names a place in memory. The three that do not are
    /// `Implicit`, `Accumulator` and `Immediate`.
    pub open spec fn has_memory_operand(self) -> bool {
        self != AddressingMode::Implicit && self != AddressingMode::Accumulator && self
            != AddressingMode::Immediate
    }

    pub fn length(self) -> (n: u16)
        ensures
            n == self.instruction_length(),
    {
        match self {
            AddressingMode::Implicit | AddressingMode::Accumulator => 1,
            AddressingMode::Immediate
            | AddressingMode::ZeroPage
            | AddressingMode::ZeroPageX
            | AddressingMode::ZeroPageY
            | AddressingMode::Relative
            | AddressingMode::IndexedIndirect
            | AddressingMode::IndirectIndexed
            | AddressingMode::IndirectIndexedW => 2,
            AddressingMode::Absolute
            | AddressingMode::AbsoluteX
            | AddressingMode::AbsoluteY
            | AddressingMode::Indirect
            | AddressingMode::AbsoluteXW
            | AddressingMode::AbsoluteYW => 3,
        }
    }

    pub fn is_write(self) -> (b: bool)
        ensures
            b == self.is_write_variant(),
    {
        match self {
            AddressingMode::AbsoluteXW
            | AddressingMode::AbsoluteYW
            | AddressingMode::IndirectIndexedW => true,
            _ => false,
        }
    }
}

/// The 16-bit value with low byte `lo` and high byte `hi`.
pub open spec fn word(lo: u8, hi: u8) -> u16 {
    (hi * 256 + lo) as u16
}

/// Whether `a` and `b` lie in different 256-byte pages.
pub open spec fn page_crossed(a: u16, b: u16) -> bool {
    a / 256 != b / 256
}

/// The word stored at `addr` and the address after it, which is address 0
/// after the last one.
pub open spec fn word_at(mem: Seq<u8>, addr: u16) -> u16 {
    word(mem[addr as int], mem[addr.wrapping_add(1) as int])
}

/// The word stored in the zero page at `zp` and the byte after it; after
/// `0xFF` comes `0x00`, so the pointer never leaves the page.
pub open spec fn zero_page_word_at(mem: Seq<u8>, zp: u8) -> u16 {
    word(mem[zp as int], mem[zp.wrapping_add(1) as int])
}

/// The word that an indirect jump reads through `pointer`. The processor
/// does not carry into the pointer's high byte: where the low byte is `0xFF`,
/// the target's high byte comes from the start of the pointer's own page.
pub open spec fn jump_word_at(mem: Seq<u8>, pointer: u16) -> u16 {
    if pointer % 256 == 255 {
        word(mem[pointer as int], mem[pointer - 255])
    } else {
        word(mem[pointer as int], mem[pointer + 1])
    }
}

/// Where the operand of an instruction lies, and whether finding it costs a
/// cycle more.
///
/// `addr` is the address of the first operand byte, `mem` the 64 KiB of
/// memory, `x` and `y` the index registers. `Implicit` and `Accumulator` have no
/// operand in memory. For `Immediate` and `Relative` the operand is the byte at
/// `addr` itself (a branch reads its displacement there). The extra cycle is
/// owed where adding the index leaves the page of the base address, and
/// always in the store forms.
#[verifier::opaque]
pub open spec fn resolve(mode: AddressingMode, mem: Seq<u8>, x: u8, y: u8, addr: u16) -> Option<
    (u16, bool),
> {
    match mode {
        AddressingMode::Implicit | AddressingMode::Accumulator => None,
        AddressingMode::Immediate | AddressingMode::Relative => Some((addr, false)),
        AddressingMode::ZeroPage => Some((mem[addr as int] as u16, false)),
        AddressingMode::ZeroPageX => Some((mem[addr as int].wrapping_add(x) as u16, false)),
        AddressingMode::ZeroPageY => Some((mem[addr as int].wrapping_add(y) as u16, false)),
        AddressingMode::Absolute => Some((word_at(mem, addr), false)),
        AddressingMode::AbsoluteX => {
            let base = word_at(mem, addr);
            let target = base.wrapping_add(x as u16);
            Some((target, page_crossed(base, target)))
        },
        AddressingMode::AbsoluteXW => Some((word_at(mem, addr).wrapping_add(x as u16), true)),
        AddressingMode::AbsoluteY => {
            let base = word_at(mem, addr);
            let target = base.wrapping_add(y as u16);
            Some((target, page_crossed(base, target)))
        },
        AddressingMode::AbsoluteYW => Some((word_at(mem, addr).wrapping_add(y as u16), true)),
        AddressingMode::Indirect => Some((jump_word_at(mem, word_at(mem, addr)), false)),
        AddressingMode::IndexedIndirect => Some(
            (zero_page_word_at(mem, mem[addr as int].wrapping_add(x)), false),
        ),
        AddressingMode::IndirectIndexed => {
            let base = zero_page_word_at(mem, mem[addr as int]);
            let target = base.wrapping_add(y as u16);
            Some((target, page_crossed(base, target)))
        },
        AddressingMode::IndirectIndexedW => Some(
            (zero_page_word_at(mem, mem[addr as int]).wrapping_add(y as u16), true),
        ),
    }
}

/// The address that `resolve` gives, where it gives one.
pub open spec fn resolved_addr(mode: AddressingMode, mem: Seq<u8>, x: u8, y: u8, addr: u16) -> u16 {
    match resolve(mode, mem, x, y, addr) {
        Some((target, _)) => target,
        None => 0,
    }
}

/// Whether `resolve` asks for the extra cycle.
pub open spec fn resolved_penalty(
    mode: AddressingMode,
    mem: Seq<u8>,
    x: u8,
    y: u8,
    addr: u16,
) -> bool {
    match resolve(mode, mem, x, y, addr) {
        Some((_, penalty)) => penalty,
        None => false,
    }
}

/// The zero-page modes never leave the zero page and never owe the extra cycle.
pub proof fn lemma_zero_page_stays(mode: AddressingMode, mem: Seq<u8>, x: u8, y: u8, addr: u16)
    requires
        mode == AddressingMode::ZeroPage || mode == AddressingMode::ZeroPageX || mode
            == AddressingMode::ZeroPageY,
    ensures
        resolve(mode, mem, x, y, addr) is Some,
        resolved_addr(mode, mem, x, y, addr) < 256,
        !resolved_penalty(mode, mem, x, y, addr),
{
    reveal(resolve);
}

/// A store form resolves to the address of its plain counterpart and always
/// owes the extra cycle; the plain form owes it exactly where the index
/// carries the address into another page.
pub proof fn lemma_write_variant_penalty(mem: Seq<u8>, x: u8, y: u8, addr: u16)
    ensures
        resolve(AddressingMode::AbsoluteXW, mem, x, y, addr) == Some(
            (resolved_addr(AddressingMode::AbsoluteX, mem, x, y, addr), true),
        ),
        resolve(AddressingMode::AbsoluteYW, mem, x, y, addr) == Some(
            (resolved_addr(AddressingMode::AbsoluteY, mem, x, y, addr), true),
        ),
        resolve(AddressingMode::IndirectIndexedW, mem, x, y, addr) == Some(
            (resolved_addr(AddressingMode::IndirectIndexed, mem, x, y, addr), true),
        ),
        resolved_penalty(AddressingMode::AbsoluteX, mem, x, y, addr) == page_crossed(
            word_at(mem, addr),
            word_at(mem, addr).wrapping_add(x as u16),
        ),
        resolved_penalty(AddressingMode::AbsoluteY, mem, x, y, addr) == page_crossed(
            word_at(mem, addr),
            word_at(mem, addr).wrapping_add(y as u16),
        ),
        resolved_penalty(AddressingMode::IndirectIndexed, mem, x, y, addr) == page_crossed(
            zero_page_word_at(mem, mem[addr as int]),
            zero_page_word_at(mem, mem[addr as int]).wrapping_add(y as u16),
        ),
{
    reveal(resolve);
}

/// Joining two bytes by shift and or gives `word`.
pub proof fn lemma_word_bits(lo: u8, hi: u8)
    ensures
        ((hi as u16) << 8) | (lo as u16) == word(lo, hi),
{
    assert(((hi as u16) << 8) | (lo as u16) == (hi as u16) * 256 + (lo as u16)) by (bit_vector);
}

/// Two addresses share a page exactly where their high bytes agree.
pub proof fn lemma_page_bits(a: u16, b: u16)
    ensures
        ((a & 0xFF00) != (b & 0xFF00)) == page_crossed(a, b),
        a & 0x00FF == a % 256,
        a & 0xFF00 == a - a % 256,
{
    assert(((a & 0xFF00) != (b & 0xFF00)) == (a / 256 != b / 256)) by (bit_vector);
    assert(a & 0x00FF == a % 256) by (bit_vector);
    assert(a & 0xFF00 == a - a % 256) by (bit_vector);
}

} // verus!
