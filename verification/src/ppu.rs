//! The picture processing unit: the eight CPU-addressable registers
//! (control, mask, status, OAM address, OAM data, scroll, address, data),
//! the shared I/O-bus latch that backs open-bus reads, the internal
//! temporary/active VRAM address pair with its shared two-write toggle, the
//! nametable and palette memories, OAM, and the scanline/dot counter that
//! drives vblank entry and NMI generation.
//!
//! Every register access and every clock tick is specified as a transition
//! of the ghost `PpuModel`; the executable state machine is proved to follow
//! those transitions exactly.

use vstd::prelude::*;

use crate::cartridge::Mirroring;
use crate::cartridge::NromCartridge;
use crate::ppu_address::Address;
use crate::ppu_address::spec_set_coarse_x;
use crate::ppu_address::spec_set_coarse_y;
use crate::ppu_address::spec_set_fine_y;
use crate::ppu_address::spec_set_high_byte;
use crate::ppu_address::spec_set_low_byte;
use crate::ppu_address::spec_set_nametable;

verus! {

pub const STATUS_SPRITE_OVERFLOW: u8 = 0x20;
pub const STATUS_SPRITE_0_HIT: u8 = 0x40;
pub const STATUS_VBLANK: u8 = 0x80;

pub const CONTROL_GENERATE_NMI: u8 = 0x80;
pub const CONTROL_SPRITE_SIZE: u8 = 0x20;

pub const MASK_SHOW_BACKGROUND: u8 = 0x08;
pub const MASK_SHOW_SPRITES: u8 = 0x10;

/// The control register's VRAM-address increment: 1 (across a nametable
/// row) when bit 2 is clear, 32 (down a column) when it is set.
pub open spec fn spec_vram_increment(control: u8) -> u16 {
    if control & 0x04 == 0 {
        1
    } else {
        32
    }
}

/// The CPU-visible control register.
#[derive(Clone, Copy)]
pub struct Control {
    pub bits: u8,
}

impl Control {
    pub fn from_bits(bits: u8) -> (c: Control)
        ensures
            c.bits == bits,
    {
        Control { bits }
    }

    /// Bits 0-1: which nametable quadrant the temporary VRAM address bases.
    pub fn base_nametable_address(&self) -> (b: u8)
        ensures
            b == self.bits & 0x03,
    {
        self.bits & 0x03
    }

    /// Bit 2, raw: the VRAM-address increment select.
    pub fn vram_address_increment(&self) -> (b: u8)
        ensures
            b == self.bits & 0x04,
    {
        self.bits & 0x04
    }

    pub fn get_vram_address_increment(&self) -> (inc: u16)
        ensures
            inc == spec_vram_increment(self.bits),
    {
        if self.vram_address_increment() == 0 {
            1
        } else {
            32
        }
    }

    /// Bit 7, raw: NMI generation at vblank entry.
    pub fn generate_nmi(&self) -> (b: u8)
        ensures
            b == self.bits & CONTROL_GENERATE_NMI,
    {
        self.bits & CONTROL_GENERATE_NMI
    }

    pub fn will_generate_nmi(&self) -> (b: bool)
        ensures
            b == (self.bits & CONTROL_GENERATE_NMI != 0),
    {
        self.generate_nmi() != 0
    }
}

/// Mathematical model of the full PPU state.
#[verifier::ext_equal]
pub ghost struct PpuModel {
    pub control: u8,
    pub mask: u8,
    pub status: u8,
    pub oam_address: u8,
    pub t_addr: u16,
    pub v_addr: u16,
    pub fine_x: u8,
    pub latch: bool,
    pub io_bus: u8,
    pub buffer: u8,
    pub scanline: u16,
    pub dot: u16,
    pub in_vblank: bool,
    pub nmi: bool,
    pub mirroring: Mirroring,
    pub vram: Seq<u8>,
    pub palette: Seq<u8>,
    pub oam: Seq<u8>,
    pub secondary_oam: Seq<u8>,
    pub sprite_count: u8,
}

impl PpuModel {
    /// Well-formed state: the memories have their hardware sizes, the two
    /// VRAM address registers carry 15 significant bits, the clock position
    /// is inside the frame, and the vblank span tracks the clock.
    pub open spec fn wf(self) -> bool {
        &&& self.vram.len() == 2048
        &&& self.palette.len() == 32
        &&& self.oam.len() == 256
        &&& self.secondary_oam.len() == 32
        &&& self.sprite_count <= 8
        &&& self.t_addr < 0x8000
        &&& self.v_addr < 0x8000
        &&& self.scanline <= 261
        &&& self.dot <= 340
        &&& self.in_vblank == ((self.scanline == 241 && self.dot >= 1) || (241 < self.scanline
            < 261) || (self.scanline == 261 && self.dot == 0))
    }
}

/// Physical index into the 2KB nametable memory for a PPU-space address in
/// `0x2000..=0x3eff`: the third nametable kilobyte-page mirrors the first
/// pair, and the four logical nametables fold onto the two physical ones
/// according to the cartridge's mirroring mode.
pub open spec fn spec_nt_index(m: Mirroring, addr: u16) -> int {
    let a = (addr - 0x2000) % 0x1000;
    let nt = a / 0x400;
    let off = a % 0x400;
    let phys = match m {
        Mirroring::Horizontal => nt / 2,
        Mirroring::Vertical => nt % 2,
    };
    phys * 0x400 + off
}

/// Index into the 32-byte palette memory for a PPU-space address in
/// `0x3f00..=0x3fff`: the low five bits select the slot, and the four
/// sprite-backdrop slots alias their background counterparts.
pub open spec fn spec_palette_index(addr: u16) -> int {
    let i = addr % 0x20;
    if i == 0x10 || i == 0x14 || i == 0x18 || i == 0x1c {
        i - 0x10
    } else {
        i as int
    }
}

/// The byte behind a non-palette PPU-space address (`0x0000..=0x3eff`):
/// pattern tables come from the cartridge's CHR store (a defined open value
/// where no CHR backs the offset), nametables from the PPU's own memory.
pub open spec fn spec_fetch(m: PpuModel, chr: Seq<u8>, a: u16) -> u8 {
    if a < 0x2000 {
        if a < chr.len() {
            chr[a as int]
        } else {
            0
        }
    } else {
        m.vram[spec_nt_index(m.mirroring, a)]
    }
}

/// The active VRAM address after a data-register access: advanced by the
/// control register's increment, kept to 15 significant bits.
pub open spec fn spec_increment(v: u16, control: u8) -> u16 {
    (((v + spec_vram_increment(control)) as u16) & 0x7fff)
}

/// The byte a register read returns, keyed by the 3-bit register index.
/// Status yields the flag bits over the stale low bits of the I/O bus; OAM
/// data yields the OAM byte under the cursor; data yields the buffered
/// previous VRAM byte, except for palette addresses which are served
/// directly; every other index is an open-bus read of the I/O latch.
pub open spec fn spec_read_result(m: PpuModel, chr: Seq<u8>, address: u16) -> u8 {
    let idx = address & 7;
    if idx == 2 {
        (m.status & 0xe0) | (m.io_bus & 0x1f)
    } else if idx == 4 {
        m.oam[m.oam_address as int]
    } else if idx == 7 {
        let a = m.v_addr & 0x3fff;
        if a < 0x3f00 {
            m.buffer
        } else {
            m.palette[spec_palette_index(a)]
        }
    } else {
        m.io_bus
    }
}

/// The state after a register read. A status read clears the vblank flag
/// and resets the write toggle; an OAM-data read does not advance the
/// cursor; a data read refills the one-read-delay buffer (for palette
/// addresses, from the nametable byte underneath) and auto-increments the
/// VRAM address. Every readable register drives its value onto the I/O bus.
pub open spec fn spec_read_state(m: PpuModel, chr: Seq<u8>, address: u16) -> PpuModel {
    let idx = address & 7;
    if idx == 2 {
        PpuModel {
            status: m.status & 0x7f,
            latch: false,
            io_bus: (m.status & 0xe0) | (m.io_bus & 0x1f),
            ..m
        }
    } else if idx == 4 {
        PpuModel { io_bus: m.oam[m.oam_address as int], ..m }
    } else if idx == 7 {
        let a = m.v_addr & 0x3fff;
        if a < 0x3f00 {
            PpuModel {
                io_bus: m.buffer,
                buffer: spec_fetch(m, chr, a),
                v_addr: spec_increment(m.v_addr, m.control),
                ..m
            }
        } else {
            PpuModel {
                io_bus: m.palette[spec_palette_index(a)],
                buffer: spec_fetch(m, chr, a & 0x2fff),
                v_addr: spec_increment(m.v_addr, m.control),
                ..m
            }
        }
    } else {
        m
    }
}

/// The state after a register write, keyed by the 3-bit register index.
/// Every write loads the I/O bus. Control latches its byte, redirects the
/// temporary address's nametable select, and re-arms the NMI edge when it
/// turns NMI generation on inside a vblank whose status flag still stands.
/// Scroll and address share the two-write toggle over the temporary
/// address; a scroll byte is a pixel coordinate, split into a coarse tile
/// field (its top five bits) and a fine offset (its low three); the second
/// address write commits the temporary address to the active address. A
/// data write lands in nametable or palette memory (pattern-table space is
/// read-only on this board) and auto-increments the VRAM address. Status is
/// read-only.
pub open spec fn spec_write(m: PpuModel, address: u16, data: u8) -> PpuModel {
    let idx = address & 7;
    let m1 = PpuModel { io_bus: data, ..m };
    if idx == 0 {
        let edge = m.in_vblank && (m.status & STATUS_VBLANK != 0) && (m.control
            & CONTROL_GENERATE_NMI == 0) && (data & CONTROL_GENERATE_NMI != 0);
        PpuModel {
            control: data,
            nmi: m.nmi || edge,
            t_addr: spec_set_nametable(m.t_addr, data & 0x03),
            ..m1
        }
    } else if idx == 1 {
        PpuModel { mask: data, ..m1 }
    } else if idx == 3 {
        PpuModel { oam_address: data, ..m1 }
    } else if idx == 4 {
        PpuModel {
            oam: m.oam.update(m.oam_address as int, data),
            oam_address: if m.oam_address == 255 {
                0
            } else {
                (m.oam_address + 1) as u8
            },
            ..m1
        }
    } else if idx == 5 {
        if !m.latch {
            PpuModel {
                t_addr: spec_set_coarse_x(m.t_addr, data >> 3),
                fine_x: data & 0x07,
                latch: true,
                ..m1
            }
        } else {
            PpuModel {
                t_addr: spec_set_fine_y(spec_set_coarse_y(m.t_addr, data >> 3), data),
                latch: false,
                ..m1
            }
        }
    } else if idx == 6 {
        if !m.latch {
            PpuModel { t_addr: spec_set_high_byte(m.t_addr, data), latch: true, ..m1 }
        } else {
            PpuModel {
                t_addr: spec_set_low_byte(m.t_addr, data),
                v_addr: spec_set_low_byte(m.t_addr, data),
                latch: false,
                ..m1
            }
        }
    } else if idx == 7 {
        let a = m.v_addr & 0x3fff;
        if a < 0x2000 {
            PpuModel { v_addr: spec_increment(m.v_addr, m.control), ..m1 }
        } else if a < 0x3f00 {
            PpuModel {
                vram: m.vram.update(spec_nt_index(m.mirroring, a), data),
                v_addr: spec_increment(m.v_addr, m.control),
                ..m1
            }
        } else {
            PpuModel {
                palette: m.palette.update(spec_palette_index(a), data),
                v_addr: spec_increment(m.v_addr, m.control),
                ..m1
            }
        }
    } else {
        m1
    }
}

/// Sprite height from the control register: 8, or 16 when bit 5 selects
/// tall sprites.
pub open spec fn spec_sprite_height(control: u8) -> int {
    if control & CONTROL_SPRITE_SIZE == 0 {
        8
    } else {
        16
    }
}

/// Rendering is enabled when the mask register shows the background or the
/// sprites.
pub open spec fn spec_rendering_enabled(mask: u8) -> bool {
    mask & (MASK_SHOW_BACKGROUND | MASK_SHOW_SPRITES) != 0
}

/// OAM entry `i` covers scanline `y`: its Y byte puts the sprite's vertical
/// range over the line.
pub open spec fn spec_sprite_matches(oam: Seq<u8>, control: u8, y: int, i: int) -> bool {
    oam[4 * i] <= y < oam[4 * i] + spec_sprite_height(control)
}

/// How many of the first `n` OAM entries cover scanline `y`.
pub open spec fn spec_eval_count(oam: Seq<u8>, control: u8, y: int, n: int) -> int
    decreases n,
{
    if n <= 0 {
        0
    } else {
        spec_eval_count(oam, control, y, n - 1) + if spec_sprite_matches(oam, control, y, n - 1) {
            1int
        } else {
            0int
        }
    }
}

/// The secondary-buffer bytes that scanning the first `n` OAM entries
/// yields: the four bytes of each covering entry, in OAM order, stopping
/// after the eighth.
pub open spec fn spec_eval_buffer(oam: Seq<u8>, control: u8, y: int, n: int) -> Seq<u8>
    decreases n,
{
    if n <= 0 {
        Seq::empty()
    } else {
        let prev = spec_eval_buffer(oam, control, y, n - 1);
        if spec_sprite_matches(oam, control, y, n - 1) && spec_eval_count(oam, control, y, n - 1)
            < 8 {
            prev + oam.subrange(4 * (n - 1), 4 * (n - 1) + 4)
        } else {
            prev
        }
    }
}

/// The state after the sprite-evaluation pass for scanline `y`: the
/// secondary buffer holds up to eight covering OAM entries in OAM order
/// (unused slots filled with `0xff`), the sprite count says how many, and
/// the sprite-overflow status flag is raised when a ninth entry covers the
/// line.
pub open spec fn spec_evaluate_state(m: PpuModel, y: int) -> PpuModel {
    let c = spec_eval_count(m.oam, m.control, y, 64);
    let buf = spec_eval_buffer(m.oam, m.control, y, 64);
    PpuModel {
        secondary_oam: buf + Seq::new((32 - buf.len()) as nat, |i: int| 0xffu8),
        sprite_count: if c > 8 {
            8u8
        } else {
            c as u8
        },
        status: if c > 8 {
            m.status | STATUS_SPRITE_OVERFLOW
        } else {
            m.status
        },
        ..m
    }
}

/// The clock position one dot later: the dot wraps at 341, the scanline at
/// 262, and the wrap of both is the frame boundary.
pub open spec fn spec_next_scanline_dot(scanline: u16, dot: u16) -> (u16, u16) {
    if dot < 340 {
        (scanline, (dot + 1) as u16)
    } else if scanline < 261 {
        ((scanline + 1) as u16, 0u16)
    } else {
        (0u16, 0u16)
    }
}

/// The state one PPU tick later. Scanline 241 dot 1 is the vblank entry
/// edge: the status vblank flag is set and, when the control register has
/// NMI generation enabled, the NMI request is raised. Scanline 261 dot 1 is
/// the pre-render edge: vblank, sprite-0-hit and sprite-overflow all clear.
/// On a visible scanline with rendering enabled, the end of the line's
/// fetch span (dot 257) runs the sprite-evaluation pass for the next
/// scanline.
pub open spec fn spec_tick(m: PpuModel) -> PpuModel {
    let sd = spec_next_scanline_dot(m.scanline, m.dot);
    let m1 = PpuModel { scanline: sd.0, dot: sd.1, ..m };
    if sd.0 == 241 && sd.1 == 1 {
        PpuModel {
            status: m.status | STATUS_VBLANK,
            in_vblank: true,
            nmi: m.nmi || (m.control & CONTROL_GENERATE_NMI != 0),
            ..m1
        }
    } else if sd.0 == 261 && sd.1 == 1 {
        PpuModel { status: m.status & 0x1f, in_vblank: false, ..m1 }
    } else if sd.0 <= 239 && sd.1 == 257 && spec_rendering_enabled(m.mask) {
        spec_evaluate_state(m1, sd.0 + 1)
    } else {
        m1
    }
}

/// The PPU's power-on state: everything cleared, the clock at scanline 0
/// dot 0, the write toggle in its first-write position.
pub open spec fn spec_init(mirroring: Mirroring) -> PpuModel {
    PpuModel {
        control: 0,
        mask: 0,
        status: 0,
        oam_address: 0,
        t_addr: 0,
        v_addr: 0,
        fine_x: 0,
        latch: false,
        io_bus: 0,
        buffer: 0,
        scanline: 0,
        dot: 0,
        in_vblank: false,
        nmi: false,
        mirroring,
        vram: Seq::new(2048, |i: int| 0u8),
        palette: Seq::new(32, |i: int| 0u8),
        oam: Seq::new(256, |i: int| 0u8),
        secondary_oam: Seq::new(32, |i: int| 0u8),
        sprite_count: 0,
    }
}

pub struct Ppu {
    pub control: Control,
    pub mask: u8,
    pub status: u8,
    pub oam_address: u8,
    pub temp_vram_address: Address,
    pub vram_address: Address,
    pub fine_x_scroll: u8,
    pub latch: bool,
    pub io_bus: u8,
    pub data_buffer: u8,
    pub scanline: u16,
    pub dot: u16,
    pub in_vblank: bool,
    pub should_generate_nmi: bool,
    pub mirroring: Mirroring,
    pub vram: Vec<u8>,
    pub palette: Vec<u8>,
    pub oam: Vec<u8>,
    pub secondary_oam: Vec<u8>,
    pub sprite_count: u8,
}

impl View for Ppu {
    type V = PpuModel;

    open spec fn view(&self) -> PpuModel {
        PpuModel {
            control: self.control.bits,
            mask: self.mask,
            status: self.status,
            oam_address: self.oam_address,
            t_addr: self.temp_vram_address.bits,
            v_addr: self.vram_address.bits,
            fine_x: self.fine_x_scroll,
            latch: self.latch,
            io_bus: self.io_bus,
            buffer: self.data_buffer,
            scanline: self.scanline,
            dot: self.dot,
            in_vblank: self.in_vblank,
            nmi: self.should_generate_nmi,
            mirroring: self.mirroring,
            vram: self.vram@,
            palette: self.palette@,
            oam: self.oam@,
            secondary_oam: self.secondary_oam@,
            sprite_count: self.sprite_count,
        }
    }
}

impl Ppu {
    pub fn new(mirroring: Mirroring) -> (ppu: Ppu)
        ensures
            ppu@ == spec_init(mirroring),
            ppu@.wf(),
    {
        let ppu = Ppu {
            control: Control::from_bits(0),
            mask: 0,
            status: 0,
            oam_address: 0,
            temp_vram_address: Address::from_bits(0),
            vram_address: Address::from_bits(0),
            fine_x_scroll: 0,
            latch: false,
            io_bus: 0,
            data_buffer: 0,
            scanline: 0,
            dot: 0,
            in_vblank: false,
            should_generate_nmi: false,
            mirroring,
            vram: crate::zero_vec(2048),
            palette: crate::zero_vec(32),
            oam: crate::zero_vec(256),
            secondary_oam: crate::zero_vec(32),
            sprite_count: 0,
        };
        proof {
            assert(0u16 & 0x7fff == 0) by (bit_vector);
            assert(ppu.vram@ =~= Seq::new(2048, |i: int| 0u8));
            assert(ppu.palette@ =~= Seq::new(32, |i: int| 0u8));
            assert(ppu.oam@ =~= Seq::new(256, |i: int| 0u8));
            assert(ppu.secondary_oam@ =~= Seq::new(32, |i: int| 0u8));
            assert(ppu@ =~= spec_init(mirroring));
        }
        ppu
    }

    /// Serve a CPU read of a bus-visible register; the register index is the
    /// address's low three bits, so every mirror of a register behaves as
    /// the register itself. The cartridge supplies pattern-table bytes for
    /// data-register reads below `0x2000`.
    pub fn read(&mut self, cartridge: &NromCartridge, address: u16) -> (data: u8)
        requires
            old(self)@.wf(),
        ensures
            final(self)@ == spec_read_state(old(self)@, cartridge.chr_rom@, address),
            data == spec_read_result(old(self)@, cartridge.chr_rom@, address),
            final(self)@.wf(),
    {
        let index = address & 7;
        proof {
            let a = address;
            assert((a & 7) < 8) by (bit_vector);
        }
        if index == 2 {
            self.io_bus = (self.status & 0xe0) | (self.io_bus & 0x1f);
            self.status = self.status & 0x7f;
            self.latch = false;
        } else if index == 4 {
            self.io_bus = self.oam[self.oam_address as usize];
        } else if index == 7 {
            let a = self.vram_address.bits() & 0x3fff;
            proof {
                let v = self.vram_address.bits;
                assert((v & 0x3fff) <= 0x3fff) by (bit_vector);
            }
            if a < 0x3f00 {
                let fetched = if a < 0x2000 {
                    cartridge.read_chr(a)
                } else {
                    let i = nt_index(self.mirroring, a);
                    self.vram[i]
                };
                self.io_bus = self.data_buffer;
                self.data_buffer = fetched;
            } else {
                let i = palette_index(a);
                self.io_bus = self.palette[i];
                let under = a & 0x2fff;
                proof {
                    let x = a;
                    assert(0x3f00 <= x <= 0x3fff ==> 0x2f00 <= (x & 0x2fff) <= 0x2fff)
                        by (bit_vector);
                }
                let j = nt_index(self.mirroring, under);
                self.data_buffer = self.vram[j];
            }
            let inc = self.control.get_vram_address_increment();
            let v = self.vram_address.bits();
            self.vram_address = Address::from_bits(v + inc);
            proof {
                let nv = self.vram_address.bits;
                assert(nv & 0x7fff < 0x8000) by (bit_vector);
            }
        }
        proof {
            assert(self@ =~= spec_read_state(old(self)@, cartridge.chr_rom@, address));
        }
        self.io_bus
    }

    /// Serve a CPU write of a bus-visible register; the register index is
    /// the address's low three bits, so every mirror of a register behaves
    /// as the register itself.
    pub fn write(&mut self, address: u16, data: u8)
        requires
            old(self)@.wf(),
        ensures
            final(self)@ == spec_write(old(self)@, address, data),
            final(self)@.wf(),
    {
        // Writing any PPU register loads the shared I/O bus.
        self.io_bus = data;

        let index = address & 7;
        proof {
            let a = address;
            assert((a & 7) < 8) by (bit_vector);
        }
        if index == 0 {
            let old_control = self.control;
            self.control = Control::from_bits(data);

            if self.in_vblank && (self.status & STATUS_VBLANK != 0)
                && !old_control.will_generate_nmi()
                && self.control.will_generate_nmi() {
                self.should_generate_nmi = true;
            }

            self.temp_vram_address.set_base_nametable_address(
                self.control.base_nametable_address(),
            );
        } else if index == 1 {
            self.mask = data;
        } else if index == 3 {
            self.oam_address = data;
        } else if index == 4 {
            self.oam.set(self.oam_address as usize, data);
            self.oam_address = self.oam_address.wrapping_add(1);
        } else if index == 5 {
            // The written byte is an 8-bit pixel coordinate: its top five
            // bits are the coarse tile index, its low three the fine
            // sub-tile offset.
            if !self.latch {
                self.temp_vram_address.set_coarse_x_scroll(data >> 3);
                self.fine_x_scroll = data & 0x07;
            } else {
                self.temp_vram_address.set_coarse_y_scroll(data >> 3);
                self.temp_vram_address.set_fine_y_scroll(data);
            }
            self.latch = !self.latch;
        } else if index == 6 {
            if !self.latch {
                self.temp_vram_address.set_high_byte(data);
            } else {
                self.temp_vram_address.set_low_byte(data);
                self.vram_address = self.temp_vram_address;
            }
            self.latch = !self.latch;
        } else if index == 7 {
            let a = self.vram_address.bits() & 0x3fff;
            proof {
                let v = self.vram_address.bits;
                assert((v & 0x3fff) <= 0x3fff) by (bit_vector);
            }
            if a < 0x2000 {
                // Pattern-table space: CHR is read-only on this board, so
                // the write is discarded as hardware discards it.
            } else if a < 0x3f00 {
                let i = nt_index(self.mirroring, a);
                self.vram.set(i, data);
            } else {
                let i = palette_index(a);
                self.palette.set(i, data);
            }
            let inc = self.control.get_vram_address_increment();
            let v = self.vram_address.bits();
            self.vram_address = Address::from_bits(v + inc);
            proof {
                let nv = self.vram_address.bits;
                assert(nv & 0x7fff < 0x8000) by (bit_vector);
            }
        }
        proof {
            assert(self@ =~= spec_write(old(self)@, address, data));
        }
    }

    /// Advance the internal clock by one dot.
    pub fn tick(&mut self)
        requires
            old(self)@.wf(),
        ensures
            final(self)@ == spec_tick(old(self)@),
            final(self)@.wf(),
    {
        if self.dot < 340 {
            self.dot = self.dot + 1;
        } else if self.scanline < 261 {
            self.scanline = self.scanline + 1;
            self.dot = 0;
        } else {
            self.scanline = 0;
            self.dot = 0;
        }

        if self.scanline == 241 && self.dot == 1 {
            self.status = self.status | STATUS_VBLANK;
            self.in_vblank = true;
            if self.control.will_generate_nmi() {
                self.should_generate_nmi = true;
            }
        } else if self.scanline == 261 && self.dot == 1 {
            self.status = self.status & 0x1f;
            self.in_vblank = false;
        } else if self.scanline <= 239 && self.dot == 257 && (self.mask & (MASK_SHOW_BACKGROUND
            | MASK_SHOW_SPRITES) != 0) {
            let y = (self.scanline + 1) as u8;
            self.evaluate_sprites(y);
        }
        proof {
            assert(self@ =~= spec_tick(old(self)@));
        }
    }

    /// The per-scanline sprite-evaluation pass: scan all 64 OAM entries for
    /// those whose Y range covers scanline `y`, copy up to eight into the
    /// secondary buffer in OAM order (unused slots hold `0xff`), and raise
    /// the sprite-overflow status flag when a ninth covering entry is
    /// found. OAM itself is only read.
    pub fn evaluate_sprites(&mut self, y: u8)
        requires
            old(self)@.wf(),
        ensures
            final(self)@ == spec_evaluate_state(old(self)@, y as int),
            final(self)@.wf(),
    {
        let height: u16 = if self.control.bits & CONTROL_SPRITE_SIZE == 0 {
            8
        } else {
            16
        };
        let mut sec: Vec<u8> = Vec::new();
        let mut count: usize = 0;
        let mut i: usize = 0;
        while i < 64
            invariant
                old(self)@.wf(),
                *self == *old(self),
                i <= 64,
                count <= i,
                count == spec_eval_count(old(self)@.oam, old(self)@.control, y as int, i as int),
                sec@ == spec_eval_buffer(old(self)@.oam, old(self)@.control, y as int, i as int),
                sec@.len() == 4 * (if count > 8 {
                    8int
                } else {
                    count as int
                }),
                height == spec_sprite_height(old(self)@.control),
            decreases 64 - i,
        {
            let base = 4 * i;
            let sprite_y = self.oam[base];
            if sprite_y as u16 <= y as u16 && (y as u16) < sprite_y as u16 + height {
                if count < 8 {
                    sec.push(self.oam[base]);
                    sec.push(self.oam[base + 1]);
                    sec.push(self.oam[base + 2]);
                    sec.push(self.oam[base + 3]);
                    proof {
                        assert(sec@ =~= spec_eval_buffer(
                            old(self)@.oam,
                            old(self)@.control,
                            y as int,
                            i + 1,
                        ));
                    }
                }
                count = count + 1;
            }
            i = i + 1;
        }

        let ghost buf = spec_eval_buffer(old(self)@.oam, old(self)@.control, y as int, 64);
        proof {
            assert(sec@.subrange(0, buf.len() as int) =~= buf);
        }
        while sec.len() < 32
            invariant
                buf.len() <= sec@.len() <= 32,
                sec@.subrange(0, buf.len() as int) == buf,
                forall|j: int| buf.len() <= j < sec@.len() ==> sec@[j] == 0xff,
            decreases 32 - sec@.len(),
        {
            sec.push(0xff);
            proof {
                assert(sec@.subrange(0, buf.len() as int) =~= buf);
            }
        }

        self.secondary_oam = sec;
        self.sprite_count = if count > 8 {
            8
        } else {
            count as u8
        };
        if count > 8 {
            self.status = self.status | STATUS_SPRITE_OVERFLOW;
        }
        proof {
            assert(self.secondary_oam@ =~= buf + Seq::new(
                (32 - buf.len()) as nat,
                |i: int| 0xffu8,
            ));
            assert(self@ =~= spec_evaluate_state(old(self)@, y as int));
        }
    }

    /// Consume the pending NMI request, as the CPU does once per cycle:
    /// returns whether one was raised and clears it.
    pub fn take_nmi(&mut self) -> (nmi: bool)
        ensures
            nmi == old(self)@.nmi,
            final(self)@ == (PpuModel { nmi: false, ..old(self)@ }),
    {
        let nmi = self.should_generate_nmi;
        self.should_generate_nmi = false;
        proof {
            assert(self@ =~= PpuModel { nmi: false, ..old(self)@ });
        }
        nmi
    }
}

fn nt_index(mirroring: Mirroring, addr: u16) -> (i: usize)
    requires
        0x2000 <= addr <= 0x3eff,
    ensures
        i == spec_nt_index(mirroring, addr),
        i < 0x800,
{
    let a = ((addr - 0x2000) % 0x1000) as usize;
    let nt = a / 0x400;
    let off = a % 0x400;
    let phys: usize = match mirroring {
        Mirroring::Horizontal => nt / 2,
        Mirroring::Vertical => nt % 2,
    };
    phys * 0x400 + off
}

fn palette_index(addr: u16) -> (i: usize)
    requires
        0x3f00 <= addr <= 0x3fff,
    ensures
        i == spec_palette_index(addr),
        i < 32,
{
    let i = (addr % 0x20) as usize;
    if i == 0x10 || i == 0x14 || i == 0x18 || i == 0x1c {
        i - 0x10
    } else {
        i
    }
}

/// Register mirroring: accesses whose addresses agree in their low three
/// bits are accesses of the same register, with identical behaviour — the
/// whole transition depends on the address only through `address & 7`.
pub proof fn lemma_register_mirroring(
    m: PpuModel,
    chr: Seq<u8>,
    a1: u16,
    a2: u16,
    data: u8,
)
    requires
        a1 & 7 == a2 & 7,
    ensures
        spec_write(m, a1, data) == spec_write(m, a2, data),
        spec_read_state(m, chr, a1) == spec_read_state(m, chr, a2),
        spec_read_result(m, chr, a1) == spec_read_result(m, chr, a2),
{
}

/// Write-toggle reset: an address-register write pair (high byte, then low
/// byte) leaves the toggle in its first-write position; a status read keeps
/// it there; and the next address-register write is again treated as a
/// high-byte write.
pub proof fn lemma_write_toggle_reset(
    m: PpuModel,
    chr: Seq<u8>,
    hi: u8,
    lo: u8,
    next: u8,
)
    requires
        !m.latch,
    ensures
        ({
            let after_pair = spec_write(spec_write(m, 0x2006, hi), 0x2006, lo);
            let after_status = spec_read_state(after_pair, chr, 0x2002);
            &&& !after_pair.latch
            &&& !after_status.latch
            &&& spec_write(after_status, 0x2006, next).t_addr == spec_set_high_byte(
                after_status.t_addr,
                next,
            )
            &&& spec_write(after_status, 0x2006, next).latch
        }),
{
    assert(0x2006u16 & 7 == 6) by (bit_vector);
    assert(0x2002u16 & 7 == 2) by (bit_vector);
}

} // verus!
