use nesemu::{parse_rom, Mirroring, RomError, TvSystem};

fn image(prg_units: u8, chr_units: u8, flags6: u8, flags7: u8, trainer: bool) -> Vec<u8> {
    let mut v = vec![0x4E, 0x45, 0x53, 0x1A, prg_units, chr_units, flags6, flags7, 0, 1, 0, 0, 0, 0, 0, 0];
    if trainer {
        v.extend(std::iter::repeat(0x77).take(512));
    }
    v.extend((0..prg_units as usize * 16384).map(|i| (i % 256) as u8));
    v.extend(std::iter::repeat(0xCC).take(chr_units as usize * 8192));
    v
}

#[test]
fn parses_header_and_parts() {
    let rom = parse_rom(&image(2, 1, 0x01, 0x00, false)).unwrap();
    assert_eq!(rom.header.map_number, 0);
    assert_eq!(rom.header.prg_rom_size, 32768);
    assert_eq!(rom.header.chr_rom_size, 8192);
    assert_eq!(rom.header.mirroring, Mirroring::Vertical);
    assert_eq!(rom.header.tv_system, TvSystem::Pal);
    assert_eq!(rom.header.prg_ram_size, 1);
    assert!(rom.trainer.is_empty());
    assert_eq!(rom.prg_rom.len(), 32768);
    assert_eq!(rom.prg_rom[300], 44);
    assert_eq!(rom.chr_rom, vec![0xCC; 8192]);
}

#[test]
fn parses_trainer_and_mapper_number() {
    let rom = parse_rom(&image(1, 1, 0x34, 0x51, true)).unwrap();
    assert_eq!(rom.header.map_number, 0x53);
    assert!(rom.header.trainer);
    assert!(rom.header.vs);
    assert_eq!(rom.header.mirroring, Mirroring::Horizontal);
    assert_eq!(rom.trainer, vec![0x77; 512]);
    assert_eq!(rom.prg_rom[1], 1);
}

#[test]
fn rejects_bad_magic() {
    let mut v = image(1, 1, 0, 0, false);
    v[3] = 0x1B;
    assert!(matches!(parse_rom(&v), Err(RomError::BadMagic)));
    assert!(matches!(parse_rom(&[0x4E, 0x45]), Err(RomError::BadMagic)));
}

#[test]
fn rejects_truncated_images() {
    let v = image(1, 1, 0, 0, false);
    assert!(matches!(parse_rom(&v[..v.len() - 1]), Err(RomError::Truncated)));
    assert!(matches!(parse_rom(&v[..10]), Err(RomError::Truncated)));
    let t = image(1, 0, 0x04, 0, false);
    assert!(matches!(parse_rom(&t), Err(RomError::Truncated)));
}
