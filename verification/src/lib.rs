//! Emulation of the non-CPU hardware of the NES console: the address-decoding
//! bus, the cartridge/mapper abstraction over PRG/CHR ROM banking, and the
//! picture processing unit (PPU) as a register-addressable, timing-sensitive
//! state machine. An external CPU core drives the bus with one
//! address/data/read-write transaction per cycle.

pub mod apu;
pub mod bus;
pub mod cartridge;
pub mod mapper;
pub mod ppu;
pub mod ppu_address;

pub use apu::Apu;
pub use bus::NesBus;
pub use bus::Pins;
pub use cartridge::CartridgeError;
pub use cartridge::Mirroring;
pub use cartridge::NromCartridge;
pub use mapper::Mapper;
pub use mapper::Mapper0;
pub use ppu::Control;
pub use ppu::Ppu;
pub use ppu_address::Address;

use vstd::prelude::*;

verus! {

/// A zero-filled byte store of the given size.
pub(crate) fn zero_vec(n: usize) -> (v: Vec<u8>)
    ensures
        v@ == Seq::new(n as nat, |i: int| 0u8),
{
    let mut v: Vec<u8> = Vec::new();
    while v.len() < n
        invariant
            v@.len() <= n,
            v@ == Seq::new(v@.len(), |i: int| 0u8),
        decreases n - v@.len(),
    {
        v.push(0);
        proof {
            assert(v@ =~= Seq::new(v@.len(), |i: int| 0u8));
        }
    }
    v
}

} // verus!
