//! Cartridge-board address translation. Each board type redefines how the
//! CPU-visible PRG address space and the PPU-visible CHR address space are
//! translated into offsets of the underlying ROM/RAM stores. Boards form a
//! closed enumeration dispatched through `Mapper`; new boards are new
//! variants.

use vstd::prelude::*;

verus! {

/// PRG offset produced by the fixed (non-bank-switching) board: with a single
/// 16KB bank, both halves of `0x8000..=0xffff` mirror that bank; with two or
/// more banks the mapping is linear from the base of the window.
pub open spec fn spec_map_prg(has_one_bank: bool, address: u16) -> int {
    if has_one_bank {
        (address & 0xbfff) - 0x8000
    } else {
        address - 0x8000
    }
}

/// CHR mapping of the fixed board: identity (CHR is not bank-switched).
pub open spec fn spec_map_chr(address: u16) -> int {
    address as int
}

/// The fixed board: no bank-select state beyond knowing whether a single
/// 16KB PRG bank must be mirrored across the whole window.
pub struct Mapper0 {
    pub has_one_bank: bool,
}

impl Mapper0 {
    /// Translate a CPU-visible PRG-ROM address into an offset into PRG ROM.
    pub fn map(&self, address: u16) -> (offset: u16)
        requires
            0x8000 <= address,
        ensures
            offset == spec_map_prg(self.has_one_bank, address),
            self.has_one_bank ==> offset < 0x4000,
            !self.has_one_bank ==> offset < 0x8000,
    {
        if self.has_one_bank {
            assert(0x8000 <= (address & 0xbfff) <= 0xbfff) by (bit_vector)
                requires
                    0x8000 <= address,
            ;
            (address & 0xbfff) - 0x8000
        } else {
            address - 0x8000
        }
    }
}

/// Closed enumeration of cartridge board types. Address translation is total
/// over each method's declared domain; the `Cartridge` guarantees the
/// preconditions before delegating.
pub enum Mapper {
    Mapper0(Mapper0),
}

impl Mapper {
    /// Whether this board mirrors a single PRG bank over the whole window.
    pub open spec fn spec_has_one_bank(self) -> bool {
        match self {
            Mapper::Mapper0(m) => m.has_one_bank,
        }
    }

    /// Translate a CPU-visible PRG-ROM address (`0x8000..=0xffff`) into an
    /// offset into PRG ROM.
    pub fn map_prg(&self, address: u16) -> (offset: u16)
        requires
            0x8000 <= address,
        ensures
            offset == spec_map_prg(self.spec_has_one_bank(), address),
            self.spec_has_one_bank() ==> offset < 0x4000,
            !self.spec_has_one_bank() ==> offset < 0x8000,
    {
        match self {
            Mapper::Mapper0(m) => m.map(address),
        }
    }

    /// Translate a PPU-visible CHR address (`0x0000..=0x1fff`) into an offset
    /// into CHR ROM.
    pub fn map_chr(&self, address: u16) -> (offset: u16)
        requires
            address <= 0x1fff,
        ensures
            offset == spec_map_chr(address),
            offset <= 0x1fff,
    {
        match self {
            Mapper::Mapper0(_) => address,
        }
    }

    /// Bank-switching boards intercept some writes into ROM-space addresses
    /// as control-register writes; the cartridge consults this hook before
    /// its read-only rejection. The fixed board intercepts nothing.
    pub fn intercept_write(&mut self, address: u16, data: u8) -> (intercepted: bool)
        ensures
            *final(self) == *old(self),
            !intercepted,
    {
        match self {
            Mapper::Mapper0(_) => false,
        }
    }
}

/// With a single PRG bank the two 16KB halves of the PRG window translate to
/// the same offset: addresses that differ only in bit 14 map alike.
pub proof fn lemma_single_bank_prg_mirroring(address: u16)
    requires
        0x8000 <= address,
    ensures
        spec_map_prg(true, address) == spec_map_prg(true, address ^ 0x4000),
{
    assert((address & 0xbfff) == ((address ^ 0x4000) & 0xbfff)) by (bit_vector);
}

} // verus!
