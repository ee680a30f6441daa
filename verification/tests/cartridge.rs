use nes::CartridgeError;
use nes::Mirroring;
use nes::NromCartridge;

/// A well-formed iNES image: 16-byte header, then `prg_banks` 16KB PRG
/// banks filled with `n % 251`, then `chr_banks` 8KB CHR banks filled with
/// `(n * 3) % 256`.
fn build_rom(prg_banks: u8, chr_banks: u8, flags6: u8) -> Vec<u8> {
    let mut rom = vec![
        0x4e, 0x45, 0x53, 0x1a,
        prg_banks, chr_banks, flags6, 0x00,
        0x00, 0x00, 0x00, 0x00, 0x00, 0x00, 0x00, 0x00,
    ];
    for n in 0..(prg_banks as usize * 0x4000) {
        rom.push((n % 251) as u8);
    }
    for n in 0..(chr_banks as usize * 0x2000) {
        rom.push(((n * 3) % 256) as u8);
    }
    rom
}

#[test]
fn load_round_trip() {
    let rom = build_rom(2, 1, 0x00);
    let mut cartridge = NromCartridge::new(&rom).unwrap();
    for n in [0usize, 1, 0x3fff, 0x4000, 0x5123, 0x7fff] {
        assert_eq!(cartridge.read_prg(0x8000 + n as u16), rom[16 + n]);
    }
}

#[test]
fn end_to_end_baseline() {
    // Two PRG banks, one CHR bank: linear, non-mirrored PRG mapping.
    let rom = build_rom(2, 1, 0x00);
    assert_eq!(&rom[..9], &[0x4e, 0x45, 0x53, 0x1a, 0x02, 0x01, 0x00, 0x00, 0x00]);
    let mut cartridge = NromCartridge::new(&rom).unwrap();
    assert_eq!(cartridge.read_prg(0x8000), rom[16]);
    assert_eq!(cartridge.read_prg(0xc000), rom[16 + 0x4000]);
    assert_ne!(rom[16], rom[16 + 0x4000]);
}

#[test]
fn single_bank_mirroring() {
    let rom = build_rom(1, 1, 0x00);
    let mut cartridge = NromCartridge::new(&rom).unwrap();
    assert_eq!(cartridge.read_prg(0x8000), cartridge.read_prg(0xc000));
    assert_eq!(cartridge.read_prg(0x8000), rom[16]);
    assert_eq!(cartridge.read_prg(0x9234), cartridge.read_prg(0xd234));
    assert_eq!(cartridge.read_prg(0x9234), rom[16 + 0x1234]);
}

#[test]
fn prg_ram_read_write() {
    let rom = build_rom(1, 1, 0x00);
    let mut cartridge = NromCartridge::new(&rom).unwrap();
    assert_eq!(cartridge.read_prg(0x6000), 0);
    assert!(cartridge.write_prg(0x6000, 0xab).is_ok());
    assert!(cartridge.write_prg(0x7fff, 0xcd).is_ok());
    assert_eq!(cartridge.read_prg(0x6000), 0xab);
    assert_eq!(cartridge.read_prg(0x7fff), 0xcd);
}

#[test]
fn rom_write_rejected() {
    let rom = build_rom(1, 1, 0x00);
    let mut cartridge = NromCartridge::new(&rom).unwrap();
    let before = cartridge.read_prg(0x8000);
    assert_eq!(
        cartridge.write_prg(0x8000, 0xff),
        Err(CartridgeError::ReadOnlyViolation)
    );
    assert_eq!(cartridge.read_prg(0x8000), before);
}

#[test]
fn chr_read_and_write() {
    let rom = build_rom(1, 1, 0x00);
    let mut cartridge = NromCartridge::new(&rom).unwrap();
    assert_eq!(cartridge.read_chr(0x0000), rom[16 + 0x4000]);
    assert_eq!(cartridge.read_chr(0x1fff), rom[16 + 0x4000 + 0x1fff]);
    assert_eq!(
        cartridge.write_chr(0x0000, 0x12),
        Err(CartridgeError::ReadOnlyViolation)
    );
    assert_eq!(cartridge.read_chr(0x0000), rom[16 + 0x4000]);
}

#[test]
fn mirroring_mode_from_header() {
    let horizontal = NromCartridge::new(&build_rom(1, 1, 0x00)).unwrap();
    assert_eq!(horizontal.mirroring, Mirroring::Horizontal);
    let vertical = NromCartridge::new(&build_rom(1, 1, 0x01)).unwrap();
    assert_eq!(vertical.mirroring, Mirroring::Vertical);
}

#[test]
fn header_too_short() {
    assert!(matches!(
        NromCartridge::new(&[0x4e, 0x45, 0x53, 0x1a]),
        Err(CartridgeError::InvalidHeader)
    ));
}

#[test]
fn header_bad_magic() {
    let mut rom = build_rom(1, 0, 0x00);
    rom[3] = 0x00;
    assert!(matches!(
        NromCartridge::new(&rom),
        Err(CartridgeError::InvalidHeader)
    ));
}

#[test]
fn header_zero_prg_banks() {
    let rom = build_rom(0, 0, 0x00);
    assert!(matches!(
        NromCartridge::new(&rom),
        Err(CartridgeError::InvalidHeader)
    ));
}

#[test]
fn unsupported_mapper_number() {
    // Mapper 1: low bits in the high nibble of byte 6.
    let mut rom = build_rom(1, 1, 0x10);
    assert!(matches!(
        NromCartridge::new(&rom),
        Err(CartridgeError::UnsupportedMapper)
    ));
    // Mapper 16: high bits in the high nibble of byte 7.
    rom[6] = 0x00;
    rom[7] = 0x10;
    assert!(matches!(
        NromCartridge::new(&rom),
        Err(CartridgeError::UnsupportedMapper)
    ));
}

#[test]
fn truncated_rom() {
    let mut rom = build_rom(2, 1, 0x00);
    rom.truncate(16 + 2 * 0x4000 + 0x2000 - 1);
    assert!(matches!(
        NromCartridge::new(&rom),
        Err(CartridgeError::TruncatedRom)
    ));
    // Declaring a CHR bank that the file does not carry also truncates.
    let mut no_chr = build_rom(2, 0, 0x00);
    no_chr[5] = 1;
    assert!(matches!(
        NromCartridge::new(&no_chr),
        Err(CartridgeError::TruncatedRom)
    ));
}

#[test]
fn prg_ram_default_bank() {
    // Byte 8 zero: one 8KB PRG-RAM bank is still present.
    let rom = build_rom(1, 1, 0x00);
    let mut cartridge = NromCartridge::new(&rom).unwrap();
    assert!(cartridge.write_prg(0x6000, 0x5a).is_ok());
    assert_eq!(cartridge.read_prg(0x6000), 0x5a);
}

#[test]
fn unmapped_cartridge_space() {
    let rom = build_rom(1, 1, 0x00);
    let mut cartridge = NromCartridge::new(&rom).unwrap();
    // Below the PRG-RAM window: a defined open value, and writes discard.
    assert_eq!(cartridge.read_prg(0x4020), 0);
    assert!(cartridge.write_prg(0x4020, 0x99).is_ok());
    assert_eq!(cartridge.read_prg(0x4020), 0);
}
