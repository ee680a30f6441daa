//! The PPU's 15-bit composite VRAM address register: coarse-X (bits 0-4),
//! coarse-Y (bits 5-9), nametable select (bits 10-11) and fine-Y (bits
//! 12-14). The same layout serves both the active VRAM address and the
//! temporary address staged by scroll/address register writes. Only the low
//! 15 bits are ever significant; anything above is masked off.

use vstd::prelude::*;

verus! {

pub open spec fn spec_set_coarse_x(bits: u16, b: u8) -> u16 {
    (bits & 0xffe0) | ((b as u16) & 0x001f)
}

pub open spec fn spec_set_coarse_y(bits: u16, b: u8) -> u16 {
    (bits & 0xfc1f) | ((((b as u16) & 0x001f)) << 5)
}

pub open spec fn spec_set_nametable(bits: u16, b: u8) -> u16 {
    (bits & 0xf3ff) | ((((b as u16) & 0x0003)) << 10)
}

pub open spec fn spec_set_fine_y(bits: u16, b: u8) -> u16 {
    (bits & 0x8fff) | ((((b as u16) & 0x0007)) << 12)
}

/// The high byte of an address-register write pair is masked to 14 bits: the
/// topmost address bit (fine-Y's high bit) is discarded by the hardware.
pub open spec fn spec_set_high_byte(bits: u16, b: u8) -> u16 {
    (bits & 0x00ff) | (((b as u16) << 8) & 0x3fff)
}

pub open spec fn spec_set_low_byte(bits: u16, b: u8) -> u16 {
    (bits & 0xff00) | (b as u16)
}

#[derive(Clone, Copy)]
pub struct Address {
    pub bits: u16,
}

impl Address {
    pub fn from_bits(bits: u16) -> (a: Address)
        ensures
            a.bits == bits & 0x7fff,
            a.bits < 0x8000,
    {
        proof {
            let b = bits;
            assert(b & 0x7fff < 0x8000) by (bit_vector);
        }
        Address { bits: bits & 0x7fff }
    }

    pub fn bits(&self) -> (bits: u16)
        ensures
            bits == self.bits,
    {
        self.bits
    }

    pub fn coarse_x_scroll(&self) -> (b: u8)
        ensures
            b == self.bits & 0x001f,
    {
        proof {
            let b = self.bits;
            assert(b & 0x001f < 0x20) by (bit_vector);
        }
        (self.bits & 0x001f) as u8
    }

    pub fn set_coarse_x_scroll(&mut self, bits: u8)
        ensures
            final(self).bits == spec_set_coarse_x(old(self).bits, bits),
            old(self).bits < 0x8000 ==> final(self).bits < 0x8000,
    {
        proof {
            let b = self.bits;
            let d = bits;
            assert(b < 0x8000 ==> ((b & 0xffe0) | ((d as u16) & 0x001f)) < 0x8000)
                by (bit_vector);
        }
        self.bits = (self.bits & 0xffe0) | ((bits as u16) & 0x001f);
    }

    pub fn coarse_y_scroll(&self) -> (b: u8)
        ensures
            b == (self.bits >> 5) & 0x001f,
    {
        proof {
            let b = self.bits;
            assert((b >> 5) & 0x001f < 0x20) by (bit_vector);
        }
        ((self.bits >> 5) & 0x001f) as u8
    }

    pub fn set_coarse_y_scroll(&mut self, bits: u8)
        ensures
            final(self).bits == spec_set_coarse_y(old(self).bits, bits),
            old(self).bits < 0x8000 ==> final(self).bits < 0x8000,
    {
        proof {
            let b = self.bits;
            let d = bits;
            assert(b < 0x8000 ==> ((b & 0xfc1f) | (((d as u16) & 0x001f) << 5)) < 0x8000)
                by (bit_vector);
        }
        self.bits = (self.bits & 0xfc1f) | (((bits as u16) & 0x001f) << 5);
    }

    pub fn base_nametable_address(&self) -> (b: u8)
        ensures
            b == (self.bits >> 10) & 0x0003,
    {
        proof {
            let b = self.bits;
            assert((b >> 10) & 0x0003 < 4) by (bit_vector);
        }
        ((self.bits >> 10) & 0x0003) as u8
    }

    pub fn set_base_nametable_address(&mut self, bits: u8)
        ensures
            final(self).bits == spec_set_nametable(old(self).bits, bits),
            old(self).bits < 0x8000 ==> final(self).bits < 0x8000,
    {
        proof {
            let b = self.bits;
            let d = bits;
            assert(b < 0x8000 ==> ((b & 0xf3ff) | (((d as u16) & 0x0003) << 10)) < 0x8000)
                by (bit_vector);
        }
        self.bits = (self.bits & 0xf3ff) | (((bits as u16) & 0x0003) << 10);
    }

    pub fn fine_y_scroll(&self) -> (b: u8)
        ensures
            b == (self.bits >> 12) & 0x0007,
    {
        proof {
            let b = self.bits;
            assert((b >> 12) & 0x0007 < 8) by (bit_vector);
        }
        ((self.bits >> 12) & 0x0007) as u8
    }

    pub fn set_fine_y_scroll(&mut self, bits: u8)
        ensures
            final(self).bits == spec_set_fine_y(old(self).bits, bits),
            old(self).bits < 0x8000 ==> final(self).bits < 0x8000,
    {
        proof {
            let b = self.bits;
            let d = bits;
            assert(b < 0x8000 ==> ((b & 0x8fff) | (((d as u16) & 0x0007) << 12)) < 0x8000)
                by (bit_vector);
        }
        self.bits = (self.bits & 0x8fff) | (((bits as u16) & 0x0007) << 12);
    }

    pub fn set_high_byte(&mut self, byte: u8)
        ensures
            final(self).bits == spec_set_high_byte(old(self).bits, byte),
            final(self).bits < 0x4000,
    {
        proof {
            let b = self.bits;
            let d = byte;
            assert(((b & 0x00ff) | (((d as u16) << 8) & 0x3fff)) < 0x4000) by (bit_vector);
        }
        self.bits = (self.bits & 0x00ff) | (((byte as u16) << 8) & 0x3fff);
    }

    pub fn set_low_byte(&mut self, byte: u8)
        ensures
            final(self).bits == spec_set_low_byte(old(self).bits, byte),
            old(self).bits < 0x8000 ==> final(self).bits < 0x8000,
    {
        proof {
            let b = self.bits;
            let d = byte;
            assert(b < 0x8000 ==> ((b & 0xff00) | (d as u16)) < 0x8000) by (bit_vector);
        }
        self.bits = (self.bits & 0xff00) | (byte as u16);
    }
}

} // verus!
