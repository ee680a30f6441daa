//! The cartridge: owns the PRG-ROM, CHR-ROM and PRG-RAM byte stores, parses
//! the 16-byte iNES header at load time, and delegates address translation
//! to its board's `Mapper`.
//!
//! Header layout: bytes 0-3 magic `4E 45 53 1A`; byte 4 PRG-ROM bank count
//! (16KB units, zero is rejected as no program is addressable); byte 5
//! CHR-ROM bank count (8KB units); byte 6 low nibble mapper-number low bits
//! and bit 0 the nametable mirroring mode; byte 7 high nibble mapper-number
//! high bits; byte 8 PRG-RAM bank count (8KB units, zero meaning one). The
//! header is followed by the PRG-ROM bytes, then the CHR-ROM bytes.

use vstd::prelude::*;

use crate::mapper::Mapper;
use crate::mapper::Mapper0;
use crate::mapper::spec_map_chr;
use crate::mapper::spec_map_prg;

verus! {

/// How the two physical nametables are arranged in the PPU address space.
#[derive(Clone, Copy, Debug, PartialEq, Eq)]
pub enum Mirroring {
    Horizontal,
    Vertical,
}

/// Load-time failures are fatal and reported to the caller; a write into
/// ROM space is non-fatal and discarded by the bus as real hardware does.
#[derive(Clone, Copy, Debug, PartialEq, Eq)]
pub enum CartridgeError {
    InvalidHeader,
    UnsupportedMapper,
    TruncatedRom,
    ReadOnlyViolation,
}

/// The header is well formed: long enough, carries the magic preamble, and
/// declares at least one PRG-ROM bank.
pub open spec fn spec_header_ok(rom: Seq<u8>) -> bool {
    &&& rom.len() >= 16
    &&& rom[0] == 0x4e
    &&& rom[1] == 0x45
    &&& rom[2] == 0x53
    &&& rom[3] == 0x1a
    &&& rom[4] != 0
}

/// Mapper number: high nibble of byte 7 joined with the high nibble of
/// byte 6.
pub open spec fn spec_mapper_number(rom: Seq<u8>) -> u8 {
    (rom[7] & 0xf0) | (rom[6] >> 4)
}

pub open spec fn spec_prg_size(rom: Seq<u8>) -> int {
    rom[4] * 0x4000
}

pub open spec fn spec_chr_size(rom: Seq<u8>) -> int {
    rom[5] * 0x2000
}

/// PRG-RAM size: one 8KB bank when the header declares zero.
pub open spec fn spec_ram_size(rom: Seq<u8>) -> int {
    if rom[8] == 0 {
        0x2000
    } else {
        rom[8] * 0x2000
    }
}

pub open spec fn spec_mirroring(rom: Seq<u8>) -> Mirroring {
    if rom[6] & 1 == 1 {
        Mirroring::Vertical
    } else {
        Mirroring::Horizontal
    }
}

/// The buffer loads: well-formed header, a supported mapper, and enough
/// bytes behind the header to fill the declared PRG and CHR banks.
pub open spec fn spec_load_ok(rom: Seq<u8>) -> bool {
    &&& spec_header_ok(rom)
    &&& spec_mapper_number(rom) == 0
    &&& rom.len() >= 16 + spec_prg_size(rom) + spec_chr_size(rom)
}

pub struct NromCartridge {
    pub prg_ram: Vec<u8>,
    pub prg_rom: Vec<u8>,
    pub chr_rom: Vec<u8>,
    pub mirroring: Mirroring,
    pub mapper: Mapper,
}

/// `c` is exactly the cartridge that loading `rom` produces.
pub open spec fn spec_loaded(rom: Seq<u8>, c: NromCartridge) -> bool {
    &&& c.prg_rom@ == rom.subrange(16, 16 + spec_prg_size(rom))
    &&& c.chr_rom@ == rom.subrange(
        16 + spec_prg_size(rom),
        16 + spec_prg_size(rom) + spec_chr_size(rom),
    )
    &&& c.prg_ram@ == Seq::new(spec_ram_size(rom) as nat, |i: int| 0u8)
    &&& c.mirroring == spec_mirroring(rom)
    &&& c.mapper == Mapper::Mapper0(Mapper0 { has_one_bank: rom[4] == 1 })
}

/// The byte that a PRG-space read returns: PRG-RAM in the `0x6000..=0x7fff`
/// window, PRG-ROM through the mapper from `0x8000` up, and a defined open
/// value for the unmapped remainder of the cartridge space.
pub open spec fn spec_read_prg(c: NromCartridge, address: u16) -> u8 {
    if 0x6000 <= address <= 0x7fff {
        c.prg_ram@[(address - 0x6000) % (c.prg_ram@.len() as int)]
    } else if 0x8000 <= address {
        c.prg_rom@[spec_map_prg(c.mapper.spec_has_one_bank(), address)]
    } else {
        0
    }
}

/// The byte that a CHR-space read returns: CHR-ROM through the mapper, or a
/// defined open value where the board has no CHR behind the offset.
pub open spec fn spec_read_chr(c: NromCartridge, address: u16) -> u8 {
    if spec_map_chr(address) < c.chr_rom@.len() {
        c.chr_rom@[spec_map_chr(address)]
    } else {
        0
    }
}

impl NromCartridge {
    /// Storage invariant: the PRG-RAM window is fully backed, and the PRG-ROM
    /// store covers every offset the board's mapper can produce.
    pub open spec fn wf(self) -> bool {
        &&& self.prg_ram@.len() >= 0x2000
        &&& (self.mapper.spec_has_one_bank() ==> self.prg_rom@.len() == 0x4000)
        &&& (!self.mapper.spec_has_one_bank() ==> self.prg_rom@.len() >= 0x8000)
    }

    /// Parse an iNES image. Fails with `InvalidHeader` when the buffer is
    /// shorter than a header, lacks the magic preamble or declares no PRG
    /// bank; with `UnsupportedMapper` when no board implements the declared
    /// mapper number; and with `TruncatedRom` when the declared bank counts
    /// imply a file larger than the bytes supplied.
    pub fn new(rom: &[u8]) -> (r: Result<NromCartridge, CartridgeError>)
        ensures
            r is Ok <==> spec_load_ok(rom@),
            r == Err::<NromCartridge, CartridgeError>(CartridgeError::InvalidHeader)
                <==> !spec_header_ok(rom@),
            r == Err::<NromCartridge, CartridgeError>(CartridgeError::UnsupportedMapper)
                <==> spec_header_ok(rom@) && spec_mapper_number(rom@) != 0,
            r == Err::<NromCartridge, CartridgeError>(CartridgeError::TruncatedRom)
                <==> spec_header_ok(rom@) && spec_mapper_number(rom@) == 0
                    && rom@.len() < 16 + spec_prg_size(rom@) + spec_chr_size(rom@),
            r matches Ok(c) ==> c.wf() && spec_loaded(rom@, c),
    {
        if rom.len() < 16 {
            return Err(CartridgeError::InvalidHeader);
        }
        if !(rom[0] == 0x4e && rom[1] == 0x45 && rom[2] == 0x53 && rom[3] == 0x1a) {
            return Err(CartridgeError::InvalidHeader);
        }
        let num_prg_rom_banks = rom[4];
        if num_prg_rom_banks == 0 {
            return Err(CartridgeError::InvalidHeader);
        }

        let mapper_number = (rom[7] & 0xf0) | (rom[6] >> 4);
        if mapper_number != 0 {
            return Err(CartridgeError::UnsupportedMapper);
        }

        let prg_rom_size: usize = (num_prg_rom_banks as usize) * 0x4000;
        let chr_rom_size: usize = (rom[5] as usize) * 0x2000;
        if rom.len() < 16 + prg_rom_size + chr_rom_size {
            return Err(CartridgeError::TruncatedRom);
        }

        let num_prg_ram_banks: usize = if rom[8] == 0 {
            1
        } else {
            rom[8] as usize
        };

        let mirroring = if rom[6] & 1 == 1 {
            Mirroring::Vertical
        } else {
            Mirroring::Horizontal
        };

        Ok(NromCartridge {
            prg_ram: crate::zero_vec(num_prg_ram_banks * 0x2000),
            prg_rom: copy_range(rom, 16, 16 + prg_rom_size),
            chr_rom: copy_range(rom, 16 + prg_rom_size, 16 + prg_rom_size + chr_rom_size),
            mirroring,
            mapper: Mapper::Mapper0(Mapper0 { has_one_bank: num_prg_rom_banks == 1 }),
        })
    }

    /// Serve a CPU read anywhere in the cartridge space `0x4020..=0xffff`.
    pub fn read_prg(&mut self, address: u16) -> (data: u8)
        requires
            old(self).wf(),
            0x4020 <= address,
        ensures
            *final(self) == *old(self),
            data == spec_read_prg(*old(self), address),
    {
        if 0x6000 <= address && address <= 0x7fff {
            let index = (address - 0x6000) as usize % self.prg_ram.len();
            self.prg_ram[index]
        } else if 0x8000 <= address {
            let offset = self.mapper.map_prg(address);
            self.prg_rom[offset as usize]
        } else {
            0
        }
    }

    /// Serve a CPU write anywhere in the cartridge space `0x4020..=0xffff`.
    /// PRG-RAM writes land; a write the mapper maps into ROM (and does not
    /// intercept as a bank-select write) is signalled as a
    /// `ReadOnlyViolation` for the bus to discard, as hardware silently
    /// ignores it; writes to the unmapped remainder are discarded.
    pub fn write_prg(&mut self, address: u16, data: u8) -> (r: Result<(), CartridgeError>)
        requires
            old(self).wf(),
            0x4020 <= address,
        ensures
            final(self).wf(),
            final(self).prg_rom == old(self).prg_rom,
            final(self).chr_rom == old(self).chr_rom,
            final(self).mirroring == old(self).mirroring,
            final(self).mapper == old(self).mapper,
            0x6000 <= address <= 0x7fff ==> {
                &&& final(self).prg_ram@ == old(self).prg_ram@.update(
                    (address - 0x6000) % (old(self).prg_ram@.len() as int),
                    data,
                )
                &&& r is Ok
            },
            address >= 0x8000 ==> {
                &&& final(self).prg_ram == old(self).prg_ram
                &&& r == Err::<(), CartridgeError>(CartridgeError::ReadOnlyViolation)
            },
            address < 0x6000 ==> final(self).prg_ram == old(self).prg_ram && r is Ok,
    {
        if 0x6000 <= address && address <= 0x7fff {
            let index = (address - 0x6000) as usize % self.prg_ram.len();
            self.prg_ram.set(index, data);
            Ok(())
        } else if 0x8000 <= address {
            if self.mapper.intercept_write(address, data) {
                Ok(())
            } else {
                Err(CartridgeError::ReadOnlyViolation)
            }
        } else {
            Ok(())
        }
    }

    /// Serve a PPU read in the pattern-table space `0x0000..=0x1fff`.
    pub fn read_chr(&self, address: u16) -> (data: u8)
        requires
            address <= 0x1fff,
        ensures
            data == spec_read_chr(*self, address),
    {
        let offset = self.mapper.map_chr(address) as usize;
        if offset < self.chr_rom.len() {
            self.chr_rom[offset]
        } else {
            0
        }
    }

    /// Serve a PPU write in the pattern-table space `0x0000..=0x1fff`. This
    /// board carries CHR ROM only, so every CHR write is rejected.
    pub fn write_chr(&mut self, address: u16, data: u8) -> (r: Result<(), CartridgeError>)
        requires
            address <= 0x1fff,
        ensures
            *final(self) == *old(self),
            r == Err::<(), CartridgeError>(CartridgeError::ReadOnlyViolation),
    {
        Err(CartridgeError::ReadOnlyViolation)
    }
}

/// Loading a valid image and reading a PRG-ROM byte back through the
/// CPU-visible window returns the exact source byte: for every byte offset
/// `n` of the image's PRG segment that the 32KB window reaches, a PRG read
/// at `0x8000 + n` yields `rom[16 + n]`.
pub proof fn lemma_prg_round_trip(rom: Seq<u8>, c: NromCartridge, n: u16)
    requires
        spec_load_ok(rom),
        spec_loaded(rom, c),
        n < spec_prg_size(rom),
        n < 0x8000,
    ensures
        spec_read_prg(c, (0x8000 + n) as u16) == rom[16 + n],
{
    let address = (0x8000 + n) as u16;
    assert(address == 0x8000 + n);
    if rom[4] == 1 {
        assert(spec_prg_size(rom) == 0x4000);
        assert(((0x8000 + n) as u16) & 0xbfff == 0x8000 + n) by (bit_vector)
            requires
                n < 0x4000,
        ;
        assert(spec_map_prg(true, address) == n);
    } else {
        assert(spec_map_prg(false, address) == n);
    }
    assert(c.prg_rom@[n as int] == rom.subrange(16, 16 + spec_prg_size(rom))[n as int]);
}

fn copy_range(src: &[u8], start: usize, end: usize) -> (v: Vec<u8>)
    requires
        start <= end <= src@.len(),
    ensures
        v@ == src@.subrange(start as int, end as int),
{
    let mut v: Vec<u8> = Vec::new();
    let mut i: usize = start;
    while i < end
        invariant
            start <= i <= end,
            end <= src@.len(),
            v@ == src@.subrange(start as int, i as int),
        decreases end - i,
    {
        v.push(src[i]);
        i += 1;
        proof {
            assert(v@ =~= src@.subrange(start as int, i as int));
        }
    }
    v
}

} // verus!
