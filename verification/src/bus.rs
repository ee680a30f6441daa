//! The bus: the single component the external CPU core talks to. Once per
//! cycle the CPU presents an address/data/read-or-write pin transaction; the
//! bus decodes the 16-bit address into a region — internal RAM (2KB,
//! mirrored four times), the PPU register window (eight registers mirrored
//! through `0x2000..=0x3fff`), the APU/IO region, or cartridge space — and
//! serves it. No access ever fails: every address yields a defined byte,
//! and undefined sub-regions degrade to open-bus behaviour.

use vstd::prelude::*;

use crate::cartridge::NromCartridge;
use crate::cartridge::spec_read_prg;
use crate::ppu::Ppu;
use crate::ppu::spec_init;
use crate::ppu::spec_read_result;
use crate::ppu::spec_read_state;
use crate::ppu::spec_write;

verus! {

/// One CPU pin transaction: a read fills `data`, a write consumes it.
/// `rw` is high for a read, low for a write.
#[derive(Clone, Copy, Debug)]
pub struct Pins {
    pub address: u16,
    pub data: u8,
    pub rw: bool,
}

/// Physical RAM offset behind an internal-RAM address: 2KB backed, mirrored
/// every `0x0800` through `0x0000..=0x1fff`.
pub open spec fn spec_ram_index(address: u16) -> int {
    (address & 0x07ff) as int
}

pub struct NesBus {
    pub ram: Vec<u8>,
    pub cartridge: NromCartridge,
    pub ppu: Ppu,
}

/// What serving a read transaction does: the pins keep their address and
/// direction, `data` is filled from the decoded region, and nothing but the
/// region's own state moves (only a PPU register read has side effects; the
/// APU/IO region reads as open bus, leaving `data` as the last value driven
/// on it).
pub open spec fn spec_read_outcome(
    pre: NesBus,
    pre_pins: Pins,
    post: NesBus,
    post_pins: Pins,
) -> bool {
    &&& post_pins.address == pre_pins.address
    &&& post_pins.rw == pre_pins.rw
    &&& pre_pins.address < 0x2000 ==> {
        &&& post_pins.data == pre.ram@[spec_ram_index(pre_pins.address)]
        &&& post == pre
    }
    &&& (0x2000 <= pre_pins.address <= 0x3fff) ==> {
        &&& post_pins.data == spec_read_result(pre.ppu@, pre.cartridge.chr_rom@, pre_pins.address)
        &&& post.ppu@ == spec_read_state(pre.ppu@, pre.cartridge.chr_rom@, pre_pins.address)
        &&& post.ram == pre.ram
        &&& post.cartridge == pre.cartridge
    }
    &&& (0x4000 <= pre_pins.address <= 0x401f) ==> {
        &&& post_pins.data == pre_pins.data
        &&& post == pre
    }
    &&& 0x4020 <= pre_pins.address ==> {
        &&& post_pins.data == spec_read_prg(pre.cartridge, pre_pins.address)
        &&& post == pre
    }
}

/// What serving a write transaction does: the pins are untouched, and the
/// decoded region absorbs `data` — RAM through its mirror, a PPU register
/// through the register-write transition, the APU/IO region by discarding
/// (no collaborator is attached), and cartridge space through the
/// cartridge, which lands PRG-RAM writes and discards ROM-space writes as
/// hardware does.
pub open spec fn spec_write_outcome(
    pre: NesBus,
    pre_pins: Pins,
    post: NesBus,
    post_pins: Pins,
) -> bool {
    &&& post_pins == pre_pins
    &&& pre_pins.address < 0x2000 ==> {
        &&& post.ram@ == pre.ram@.update(spec_ram_index(pre_pins.address), pre_pins.data)
        &&& post.cartridge == pre.cartridge
        &&& post.ppu == pre.ppu
    }
    &&& (0x2000 <= pre_pins.address <= 0x3fff) ==> {
        &&& post.ppu@ == spec_write(pre.ppu@, pre_pins.address, pre_pins.data)
        &&& post.ram == pre.ram
        &&& post.cartridge == pre.cartridge
    }
    &&& (0x4000 <= pre_pins.address <= 0x401f) ==> post == pre
    &&& 0x4020 <= pre_pins.address ==> {
        &&& post.ram == pre.ram
        &&& post.ppu == pre.ppu
        &&& post.cartridge.prg_rom == pre.cartridge.prg_rom
        &&& post.cartridge.chr_rom == pre.cartridge.chr_rom
        &&& post.cartridge.mirroring == pre.cartridge.mirroring
        &&& post.cartridge.mapper == pre.cartridge.mapper
        &&& (0x6000 <= pre_pins.address <= 0x7fff) ==> post.cartridge.prg_ram@
            == pre.cartridge.prg_ram@.update(
            (pre_pins.address - 0x6000) % (pre.cartridge.prg_ram@.len() as int),
            pre_pins.data,
        )
        &&& !(0x6000 <= pre_pins.address <= 0x7fff) ==> post.cartridge.prg_ram
            == pre.cartridge.prg_ram
    }
}

impl NesBus {
    pub open spec fn wf(self) -> bool {
        &&& self.ram@.len() == 0x0800
        &&& self.cartridge.wf()
        &&& self.ppu@.wf()
    }

    /// Assemble the console around a loaded cartridge: zeroed RAM and a
    /// power-on PPU whose nametable mirroring is the cartridge's.
    pub fn new(cartridge: NromCartridge) -> (bus: NesBus)
        requires
            cartridge.wf(),
        ensures
            bus.wf(),
            bus.ram@ == Seq::new(0x0800, |i: int| 0u8),
            bus.cartridge == cartridge,
            bus.ppu@ == spec_init(cartridge.mirroring),
    {
        let ppu = Ppu::new(cartridge.mirroring);
        NesBus { ram: crate::zero_vec(0x0800), cartridge, ppu }
    }

    /// Serve a read transaction.
    pub fn read(&mut self, pins: &mut Pins)
        requires
            old(self).wf(),
        ensures
            final(self).wf(),
            spec_read_outcome(*old(self), *old(pins), *final(self), *final(pins)),
    {
        if pins.address < 0x2000 {
            proof {
                let a = pins.address;
                assert((a & 0x07ff) < 0x0800) by (bit_vector);
            }
            pins.data = self.ram[(pins.address & 0x07ff) as usize];
        } else if pins.address < 0x4000 {
            pins.data = self.ppu.read(&self.cartridge, pins.address);
        } else if pins.address < 0x4020 {
            // APU/IO region with no collaborator attached: an open-bus
            // read leaves the last driven value on the data pins.
        } else {
            pins.data = self.cartridge.read_prg(pins.address);
        }
    }

    /// Serve a write transaction. A rejected ROM-space write is discarded
    /// here, as hardware silently ignores it.
    pub fn write(&mut self, pins: &mut Pins)
        requires
            old(self).wf(),
        ensures
            final(self).wf(),
            spec_write_outcome(*old(self), *old(pins), *final(self), *final(pins)),
    {
        if pins.address < 0x2000 {
            proof {
                let a = pins.address;
                assert((a & 0x07ff) < 0x0800) by (bit_vector);
            }
            self.ram.set((pins.address & 0x07ff) as usize, pins.data);
        } else if pins.address < 0x4000 {
            self.ppu.write(pins.address, pins.data);
        } else if pins.address < 0x4020 {
            // APU/IO region with no collaborator attached: accepted and
            // discarded.
        } else {
            let _ = self.cartridge.write_prg(pins.address, pins.data);
        }
    }

    /// Serve one CPU cycle's pin transaction: `rw` high reads, low writes.
    pub fn tick(&mut self, pins: &mut Pins)
        requires
            old(self).wf(),
        ensures
            final(self).wf(),
            old(pins).rw ==> spec_read_outcome(*old(self), *old(pins), *final(self), *final(pins)),
            !old(pins).rw ==> spec_write_outcome(
                *old(self),
                *old(pins),
                *final(self),
                *final(pins),
            ),
    {
        if pins.rw {
            self.read(pins)
        } else {
            self.write(pins)
        }
    }
}

/// RAM mirroring: an internal-RAM address and any of its mirrors (the same
/// address with bit 11 or 12 flipped) reach the same backing byte.
pub proof fn lemma_ram_mirroring(address: u16)
    requires
        address < 0x2000,
    ensures
        address ^ 0x0800 < 0x2000,
        spec_ram_index(address) == spec_ram_index(address ^ 0x0800),
        address ^ 0x1000 < 0x2000,
        spec_ram_index(address) == spec_ram_index(address ^ 0x1000),
{
    assert(address < 0x2000 ==> (address ^ 0x0800 < 0x2000) && ((address ^ 0x0800) & 0x07ff)
        == (address & 0x07ff)) by (bit_vector);
    assert(address < 0x2000 ==> (address ^ 0x1000 < 0x2000) && ((address ^ 0x1000) & 0x07ff)
        == (address & 0x07ff)) by (bit_vector);
}

} // verus!
