use nes::Address;
use nes::Control;
use nes::Mirroring;
use nes::NromCartridge;
use nes::Ppu;

/// A minimal loadable image: one PRG bank, one CHR bank.
fn build_rom(flags6: u8) -> Vec<u8> {
    let mut rom = vec![
        0x4e, 0x45, 0x53, 0x1a,
        0x01, 0x01, flags6, 0x00,
        0x00, 0x00, 0x00, 0x00, 0x00, 0x00, 0x00, 0x00,
    ];
    for n in 0..0x4000 {
        rom.push((n % 251) as u8);
    }
    for n in 0..0x2000 {
        rom.push(((n * 3) % 256) as u8);
    }
    rom
}

fn cartridge() -> NromCartridge {
    NromCartridge::new(&build_rom(0x00)).unwrap()
}

/// Ticks from power-on to scanline 241 dot 1, the vblank entry edge.
const TICKS_TO_VBLANK: usize = 241 * 341 + 1;

/// Two writes to the address register set the active VRAM address.
fn set_address(ppu: &mut Ppu, address: u16) {
    ppu.write(0x2006, (address >> 8) as u8);
    ppu.write(0x2006, (address & 0xff) as u8);
}

#[test]
fn vblank_edge() {
    let cart = cartridge();
    let mut ppu = Ppu::new(Mirroring::Horizontal);
    for _ in 0..TICKS_TO_VBLANK - 1 {
        ppu.tick();
    }
    // One dot before the edge the flag is still clear.
    assert_eq!(ppu.scanline, 241);
    assert_eq!(ppu.dot, 0);
    assert_eq!(ppu.status & 0x80, 0);

    ppu.tick();
    assert_eq!(ppu.dot, 1);
    assert_eq!(ppu.status & 0x80, 0x80);

    // A status read observes vblank and clears it; a further read before
    // the next frame returns it clear.
    assert_eq!(ppu.read(&cart, 0x2002), 0x80);
    assert_eq!(ppu.read(&cart, 0x2002), 0x00);
}

#[test]
fn vblank_cleared_at_prerender() {
    let mut ppu = Ppu::new(Mirroring::Horizontal);
    for _ in 0..TICKS_TO_VBLANK {
        ppu.tick();
    }
    assert_eq!(ppu.status & 0x80, 0x80);
    // Advance to scanline 261 dot 1, the pre-render edge.
    for _ in 0..20 * 341 {
        ppu.tick();
    }
    assert_eq!(ppu.scanline, 261);
    assert_eq!(ppu.dot, 1);
    assert_eq!(ppu.status & 0x80, 0);
    assert!(!ppu.in_vblank);
}

#[test]
fn nmi_at_vblank_entry_when_enabled() {
    let mut ppu = Ppu::new(Mirroring::Horizontal);
    ppu.write(0x2000, 0x80);
    assert!(!ppu.take_nmi());
    for _ in 0..TICKS_TO_VBLANK {
        ppu.tick();
    }
    assert!(ppu.take_nmi());
    assert!(!ppu.take_nmi());
}

#[test]
fn nmi_edge_retrigger() {
    let mut ppu = Ppu::new(Mirroring::Horizontal);
    // Control's NMI-enable bit starts 0; enter vblank without an NMI.
    for _ in 0..TICKS_TO_VBLANK {
        ppu.tick();
    }
    assert!(ppu.in_vblank);
    assert_eq!(ppu.status & 0x80, 0x80);
    assert!(!ppu.take_nmi());

    // Turning the enable bit on inside vblank raises the request at once.
    ppu.write(0x2000, 0x80);
    assert!(ppu.take_nmi());
}

#[test]
fn nmi_not_retriggered_after_status_read() {
    let cart = cartridge();
    let mut ppu = Ppu::new(Mirroring::Horizontal);
    for _ in 0..TICKS_TO_VBLANK {
        ppu.tick();
    }
    // The status read drops the vblank flag, so the enable edge no longer
    // finds it standing.
    ppu.read(&cart, 0x2002);
    ppu.write(0x2000, 0x80);
    assert!(!ppu.take_nmi());
}

#[test]
fn register_mirroring() {
    let mut a = Ppu::new(Mirroring::Horizontal);
    let mut b = Ppu::new(Mirroring::Horizontal);
    // The same address-register pair through 0x2006 and through a mirror.
    a.write(0x2006, 0x21);
    a.write(0x2006, 0x08);
    b.write(0x3ffe, 0x21);
    b.write(0x3ffe, 0x08);
    assert_eq!(a.vram_address.bits(), 0x2108);
    assert_eq!(b.vram_address.bits(), 0x2108);

    let cart = cartridge();
    let mut c = Ppu::new(Mirroring::Horizontal);
    for _ in 0..TICKS_TO_VBLANK {
        c.tick();
    }
    // A status read through a mirror behaves as through 0x2002.
    assert_eq!(c.read(&cart, 0x3dea), 0x80);
    assert_eq!(c.read(&cart, 0x2002), 0x00);
}

#[test]
fn write_toggle_reset_by_status_read() {
    let cart = cartridge();
    let mut ppu = Ppu::new(Mirroring::Horizontal);
    // High byte, then low byte: the pair commits and leaves the toggle in
    // its first-write position.
    ppu.write(0x2006, 0x21);
    ppu.write(0x2006, 0x08);
    assert_eq!(ppu.vram_address.bits(), 0x2108);
    assert!(!ppu.latch);

    ppu.read(&cart, 0x2002);
    assert!(!ppu.latch);

    // The next write is again treated as a high-byte write.
    ppu.write(0x2006, 0x3f);
    assert!(ppu.latch);
    assert_eq!(ppu.temp_vram_address.bits(), 0x3f08);
}

#[test]
fn status_read_resets_toggle_mid_pair() {
    let cart = cartridge();
    let mut ppu = Ppu::new(Mirroring::Horizontal);
    ppu.write(0x2006, 0x21);
    assert!(ppu.latch);
    ppu.read(&cart, 0x2002);
    assert!(!ppu.latch);
    // After the reset this lands as a high-byte write, not a commit.
    ppu.write(0x2006, 0x10);
    assert_eq!(ppu.vram_address.bits(), 0x0000);
    assert_eq!(ppu.temp_vram_address.bits() & 0xff00, 0x1000);
}

#[test]
fn data_register_buffered_read() {
    let cart = cartridge();
    let mut ppu = Ppu::new(Mirroring::Horizontal);
    set_address(&mut ppu, 0x2000);
    ppu.write(0x2007, 0x55);
    ppu.write(0x2007, 0x66);

    set_address(&mut ppu, 0x2000);
    // The first read returns the stale buffer; each read refills it.
    assert_eq!(ppu.read(&cart, 0x2007), 0x00);
    assert_eq!(ppu.read(&cart, 0x2007), 0x55);
    assert_eq!(ppu.read(&cart, 0x2007), 0x66);
}

#[test]
fn data_register_reads_chr() {
    let cart = cartridge();
    let mut ppu = Ppu::new(Mirroring::Horizontal);
    set_address(&mut ppu, 0x0001);
    ppu.read(&cart, 0x2007);
    // CHR byte at 0x0001 is 3, at 0x0002 is 6 (the test image's pattern).
    assert_eq!(ppu.read(&cart, 0x2007), 3);
    assert_eq!(ppu.read(&cart, 0x2007), 6);
}

#[test]
fn data_register_increment_32() {
    let cart = cartridge();
    let mut ppu = Ppu::new(Mirroring::Horizontal);
    ppu.write(0x2000, 0x04);
    set_address(&mut ppu, 0x2000);
    ppu.write(0x2007, 0xaa);
    ppu.write(0x2007, 0xbb);
    // The two writes landed a column apart.
    set_address(&mut ppu, 0x2020);
    ppu.read(&cart, 0x2007);
    assert_eq!(ppu.read(&cart, 0x2007), 0xbb);
}

#[test]
fn nametable_mirroring_horizontal() {
    let cart = cartridge();
    let mut ppu = Ppu::new(Mirroring::Horizontal);
    set_address(&mut ppu, 0x2000);
    ppu.write(0x2007, 0x11);
    // Horizontally mirrored: 0x2400 shares the first physical nametable,
    // 0x2800 does not.
    set_address(&mut ppu, 0x2400);
    ppu.read(&cart, 0x2007);
    assert_eq!(ppu.read(&cart, 0x2007), 0x11);
    set_address(&mut ppu, 0x2800);
    ppu.read(&cart, 0x2007);
    assert_eq!(ppu.read(&cart, 0x2007), 0x00);
}

#[test]
fn nametable_mirroring_vertical() {
    let cart = cartridge();
    let mut ppu = Ppu::new(Mirroring::Vertical);
    set_address(&mut ppu, 0x2000);
    ppu.write(0x2007, 0x22);
    // Vertically mirrored: 0x2800 shares the first physical nametable,
    // 0x2400 does not.
    set_address(&mut ppu, 0x2800);
    ppu.read(&cart, 0x2007);
    assert_eq!(ppu.read(&cart, 0x2007), 0x22);
    set_address(&mut ppu, 0x2400);
    ppu.read(&cart, 0x2007);
    assert_eq!(ppu.read(&cart, 0x2007), 0x00);
}

#[test]
fn nametable_high_mirror() {
    let cart = cartridge();
    let mut ppu = Ppu::new(Mirroring::Horizontal);
    // 0x3000..=0x3eff mirrors 0x2000..=0x2eff.
    set_address(&mut ppu, 0x2123);
    ppu.write(0x2007, 0x77);
    set_address(&mut ppu, 0x3123);
    ppu.read(&cart, 0x2007);
    assert_eq!(ppu.read(&cart, 0x2007), 0x77);
}

#[test]
fn palette_read_is_direct() {
    let cart = cartridge();
    let mut ppu = Ppu::new(Mirroring::Horizontal);
    set_address(&mut ppu, 0x3f00);
    ppu.write(0x2007, 0x2a);
    // Palette reads bypass the one-read delay, and slot 0x10 aliases the
    // backdrop slot 0x00.
    set_address(&mut ppu, 0x3f10);
    assert_eq!(ppu.read(&cart, 0x2007), 0x2a);
    set_address(&mut ppu, 0x3f00);
    assert_eq!(ppu.read(&cart, 0x2007), 0x2a);
}

#[test]
fn oam_address_and_data() {
    let cart = cartridge();
    let mut ppu = Ppu::new(Mirroring::Horizontal);
    ppu.write(0x2003, 0x10);
    ppu.write(0x2004, 0xde);
    ppu.write(0x2004, 0xad);
    // Writes advanced the cursor; reads do not.
    assert_eq!(ppu.oam_address, 0x12);
    ppu.write(0x2003, 0x10);
    assert_eq!(ppu.read(&cart, 0x2004), 0xde);
    assert_eq!(ppu.read(&cart, 0x2004), 0xde);
    ppu.write(0x2003, 0x11);
    assert_eq!(ppu.read(&cart, 0x2004), 0xad);
}

#[test]
fn oam_cursor_wraps() {
    let mut ppu = Ppu::new(Mirroring::Horizontal);
    ppu.write(0x2003, 0xff);
    ppu.write(0x2004, 0x01);
    assert_eq!(ppu.oam_address, 0x00);
}

#[test]
fn open_bus_reads() {
    let cart = cartridge();
    let mut ppu = Ppu::new(Mirroring::Horizontal);
    // Any write loads the I/O bus; write-only registers read it back.
    ppu.write(0x2000, 0x77);
    assert_eq!(ppu.read(&cart, 0x2000), 0x77);
    assert_eq!(ppu.read(&cart, 0x2001), 0x77);
    assert_eq!(ppu.read(&cart, 0x2005), 0x77);
    // A status read keeps the stale low five bus bits under the flags.
    ppu.write(0x2001, 0x1f);
    assert_eq!(ppu.read(&cart, 0x2002), 0x1f);
}

#[test]
fn scroll_register_pair() {
    let mut ppu = Ppu::new(Mirroring::Horizontal);
    ppu.write(0x2005, 0xff);
    assert_eq!(ppu.fine_x_scroll, 0x07);
    ppu.write(0x2005, 0xab);
    // coarse X 0x1f; coarse Y 0xab >> 3 = 0x15; fine Y 0xab & 7 = 0x03.
    assert_eq!(ppu.temp_vram_address.bits(), 0x32bf);
    assert!(!ppu.latch);
}

#[test]
fn scroll_splits_pixel_coordinate() {
    // Pixel 8 is tile 1, sub-tile offset 0 — in both directions.
    let mut ppu = Ppu::new(Mirroring::Horizontal);
    ppu.write(0x2005, 0x08);
    assert_eq!(ppu.temp_vram_address.coarse_x_scroll(), 1);
    assert_eq!(ppu.fine_x_scroll, 0);
    ppu.write(0x2005, 0x08);
    assert_eq!(ppu.temp_vram_address.coarse_y_scroll(), 1);
    assert_eq!(ppu.temp_vram_address.fine_y_scroll(), 0);
}

#[test]
fn control_register_nametable_select() {
    let mut ppu = Ppu::new(Mirroring::Horizontal);
    ppu.write(0x2000, 0x03);
    assert_eq!(ppu.temp_vram_address.base_nametable_address(), 0x03);
    assert_eq!(ppu.temp_vram_address.bits(), 0x0c00);
}

#[test]
fn control_accessors() {
    let c = Control::from_bits(0x87);
    assert_eq!(c.base_nametable_address(), 0x03);
    assert_eq!(c.vram_address_increment(), 0x04);
    assert_eq!(c.get_vram_address_increment(), 32);
    assert_eq!(c.generate_nmi(), 0x80);
    assert!(c.will_generate_nmi());
    let d = Control::from_bits(0x00);
    assert_eq!(d.get_vram_address_increment(), 1);
    assert!(!d.will_generate_nmi());
}

#[test]
fn address_field_accessors() {
    let mut a = Address::from_bits(0xffff);
    // Only the low 15 bits are significant.
    assert_eq!(a.bits(), 0x7fff);

    a = Address::from_bits(0);
    a.set_coarse_x_scroll(0xff);
    assert_eq!(a.coarse_x_scroll(), 0x1f);
    a.set_coarse_y_scroll(0xff);
    assert_eq!(a.coarse_y_scroll(), 0x1f);
    a.set_base_nametable_address(0xff);
    assert_eq!(a.base_nametable_address(), 0x03);
    a.set_fine_y_scroll(0xff);
    assert_eq!(a.fine_y_scroll(), 0x07);
    assert_eq!(a.bits(), 0x7fff);

    a = Address::from_bits(0x7fff);
    a.set_coarse_x_scroll(0x00);
    assert_eq!(a.bits(), 0x7fe0);
    a.set_coarse_y_scroll(0x00);
    assert_eq!(a.bits(), 0x7c1f & 0x7fe0);
    a.set_base_nametable_address(0x00);
    a.set_fine_y_scroll(0x00);
    assert_eq!(a.bits(), 0x0000);

    a = Address::from_bits(0x2108);
    a.set_high_byte(0xff);
    // The high byte is masked to 14 bits.
    assert_eq!(a.bits(), 0x3f08);
    a.set_low_byte(0xab);
    assert_eq!(a.bits(), 0x3fab);
}

#[test]
fn frame_wraps_to_zero() {
    let mut ppu = Ppu::new(Mirroring::Horizontal);
    for _ in 0..262 * 341 {
        ppu.tick();
    }
    assert_eq!(ppu.scanline, 0);
    assert_eq!(ppu.dot, 0);
}

#[test]
fn sprite_evaluation_selects_first_eight_in_oam_order() {
    let mut ppu = Ppu::new(Mirroring::Horizontal);
    // Park every sprite well below the evaluated line...
    for i in 0..64 {
        ppu.oam[4 * i] = 0xf0;
        ppu.oam[4 * i + 1] = i as u8;
    }
    // ...then let three of them cover scanline 12.
    for &i in &[3usize, 10, 50] {
        ppu.oam[4 * i] = 10;
    }
    ppu.evaluate_sprites(12);
    assert_eq!(ppu.sprite_count, 3);
    assert_eq!(&ppu.secondary_oam[0..2], &[10, 3]);
    assert_eq!(&ppu.secondary_oam[4..6], &[10, 10]);
    assert_eq!(&ppu.secondary_oam[8..10], &[10, 50]);
    assert!(ppu.secondary_oam[12..].iter().all(|&b| b == 0xff));
    assert_eq!(ppu.status & 0x20, 0);
}

#[test]
fn sprite_overflow_on_ninth_match() {
    let mut ppu = Ppu::new(Mirroring::Horizontal);
    for i in 0..64 {
        ppu.oam[4 * i] = 0xf0;
        ppu.oam[4 * i + 1] = i as u8;
    }
    for i in 0..9 {
        ppu.oam[4 * i] = 20;
    }
    ppu.evaluate_sprites(24);
    assert_eq!(ppu.sprite_count, 8);
    assert_eq!(ppu.status & 0x20, 0x20);
    // The buffer holds the first eight matches; the ninth is not copied.
    assert_eq!(&ppu.secondary_oam[28..30], &[20, 7]);
    assert!(!ppu.secondary_oam.chunks(4).any(|s| s[1] == 8));
}

#[test]
fn sprite_height_from_control() {
    let mut ppu = Ppu::new(Mirroring::Horizontal);
    for i in 0..64 {
        ppu.oam[4 * i] = 0xf0;
    }
    ppu.oam[0] = 0;
    // An 8-pixel sprite at Y 0 does not reach line 15...
    ppu.evaluate_sprites(15);
    assert_eq!(ppu.sprite_count, 0);
    // ...but a 16-pixel one does.
    ppu.write(0x2000, 0x20);
    ppu.evaluate_sprites(15);
    assert_eq!(ppu.sprite_count, 1);
}

#[test]
fn sprite_evaluation_driven_by_tick() {
    let mut ppu = Ppu::new(Mirroring::Horizontal);
    // Every sprite sits at Y 0, covering the early scanlines.
    // With rendering disabled nothing is evaluated.
    for _ in 0..341 {
        ppu.tick();
    }
    assert_eq!(ppu.status & 0x20, 0);
    assert_eq!(ppu.sprite_count, 0);

    // With the background shown, the pass runs at dot 257 and finds an
    // overflowing set of matches.
    ppu.write(0x2001, 0x08);
    for _ in 0..257 {
        ppu.tick();
    }
    assert_eq!(ppu.scanline, 1);
    assert_eq!(ppu.dot, 257);
    assert_eq!(ppu.status & 0x20, 0x20);
    assert_eq!(ppu.sprite_count, 8);
}
