use vstd::prelude::*;

verus! {

/// Nametable arrangement wired on the cartridge.
#[derive(Debug, Clone, Copy, PartialEq, Eq, Structural)]
pub enum Mirroring {
    Horizontal,
    Vertical,
}

#[derive(Debug, Clone, Copy, PartialEq, Eq, Structural)]
pub enum TvSystem {
    Ntsc,
    Pal,
}

/// The fields of a 16-byte iNES header.
#[derive(Debug, Clone, Copy, PartialEq, Eq, Structural)]
pub struct INesHeader {
    pub map_number: u8,
    /// PRG-ROM size in bytes.
    pub prg_rom_size: usize,
    /// CHR-ROM size in bytes.
    pub chr_rom_size: usize,
    pub four_screen: bool,
    pub trainer: bool,
    pub battery: bool,
    pub mirroring: Mirroring,
    pub vs: bool,
    /// PRG-RAM size in 8 KiB units, at least 1.
    pub prg_ram_size: u8,
    pub tv_system: TvSystem,
}

/// A cartridge image split into its parts.
#[derive(Debug)]
pub struct INesRom {
    pub header: INesHeader,
    pub trainer: Vec<u8>,
    pub prg_rom: Vec<u8>,
    pub chr_rom: Vec<u8>,
}

/// Why an image is not a cartridge.
#[derive(Debug, Clone, Copy, PartialEq, Eq, Structural)]
pub enum RomError {
    /// The image does not start with `NES` and `0x1A`.
    BadMagic,
    /// The image ends before the header or before a part that the header
    /// announces.
    Truncated,
}

/// Whether `b` starts with the iNES magic `"NES\x1A"`.
pub open spec fn magic_ok(b: Seq<u8>) -> bool {
    b.len() >= 4 && b[0] == 0x4E && b[1] == 0x45 && b[2] == 0x53 && b[3] == 0x1A
}

/// The header described by the 16 bytes at the start of `b`: byte 4 counts
/// 16 KiB PRG units, byte 5 8 KiB CHR units; byte 6 holds the low nibble
/// of the mapper number in its high nibble, then the four-screen, trainer,
/// battery and mirroring bits; byte 7 the high nibble of the mapper number
/// and the VS bit; byte 8 the PRG-RAM units (0 meaning 1); byte 9 bit 0
/// the TV system.
pub open spec fn header_of(b: Seq<u8>) -> INesHeader {
    INesHeader {
        map_number: ((b[7] / 16) * 16 + b[6] / 16) as u8,
        prg_rom_size: (b[4] as int * 16384) as usize,
        chr_rom_size: (b[5] as int * 8192) as usize,
        four_screen: (b[6] / 8) % 2 == 1,
        trainer: (b[6] / 4) % 2 == 1,
        battery: (b[6] / 2) % 2 == 1,
        mirroring: if b[6] % 2 == 1 { Mirroring::Vertical } else { Mirroring::Horizontal },
        vs: b[7] % 2 == 1,
        prg_ram_size: if b[8] == 0 { 1 } else { b[8] },
        tv_system: if b[9] % 2 == 1 { TvSystem::Pal } else { TvSystem::Ntsc },
    }
}

/// Where the PRG-ROM starts: after the header and the trainer, if any.
pub open spec fn prg_start(h: INesHeader) -> int {
    16 + if h.trainer { 512int } else { 0int }
}

/// The length of an image with header `h`, up to the end of its CHR-ROM.
pub open spec fn image_len(h: INesHeader) -> int {
    prg_start(h) + h.prg_rom_size + h.chr_rom_size
}

/// A copy of `len` bytes of `input` from `start`.
fn copy_bytes(input: &[u8], start: usize, len: usize) -> (r: Vec<u8>)
    requires
        start + len <= input@.len(),
    ensures
        r@ == input@.subrange(start as int, start + len),
{
    let n = input.len();
    let mut r: Vec<u8> = Vec::new();
    let mut i: usize = 0;
    while i < len
        invariant
            i <= len,
            n == input@.len(),
            start + len <= n,
            r@ == input@.subrange(start as int, start + i),
        decreases len - i,
    {
        r.push(input[start + i]);
        i = i + 1;
        assert(r@ =~= input@.subrange(start as int, start + i));
    }
    r
}

/// Reads the 16-byte header.
fn parse_header(input: &[u8]) -> (r: INesHeader)
    requires
        input@.len() >= 16,
    ensures
        r == header_of(input@),
{
    let b6 = input[6];
    let b7 = input[7];
    INesHeader {
        map_number: (b7 / 16) * 16 + b6 / 16,
        prg_rom_size: input[4] as usize * 16384,
        chr_rom_size: input[5] as usize * 8192,
        four_screen: (b6 / 8) % 2 == 1,
        trainer: (b6 / 4) % 2 == 1,
        battery: (b6 / 2) % 2 == 1,
        mirroring: if b6 % 2 == 1 { Mirroring::Vertical } else { Mirroring::Horizontal },
        vs: b7 % 2 == 1,
        prg_ram_size: if input[8] == 0 { 1 } else { input[8] },
        tv_system: if input[9] % 2 == 1 { TvSystem::Pal } else { TvSystem::Ntsc },
    }
}

/// Splits an iNES image into header, trainer, PRG-ROM and CHR-ROM; bytes
/// after the CHR-ROM are ignored.
pub fn parse_rom(input: &[u8]) -> (r: Result<INesRom, RomError>)
    ensures
        r matches Err(RomError::BadMagic) <==> !magic_ok(input@),
        r matches Err(RomError::Truncated) <==> magic_ok(input@) && (input@.len() < 16 || input@.len()
            < image_len(header_of(input@))),
        r matches Ok(rom) ==> {
            let h = header_of(input@);
            &&& rom.header == h
            &&& rom.trainer@ == if h.trainer {
                input@.subrange(16, 528)
            } else {
                Seq::<u8>::empty()
            }
            &&& rom.prg_rom@ == input@.subrange(prg_start(h), prg_start(h) + h.prg_rom_size)
            &&& rom.chr_rom@ == input@.subrange(
                prg_start(h) + h.prg_rom_size,
                prg_start(h) + h.prg_rom_size + h.chr_rom_size,
            )
        },
{
    if input.len() < 4 || input[0] != 0x4E || input[1] != 0x45 || input[2] != 0x53 || input[3] != 0x1A {
        return Err(RomError::BadMagic);
    }
    if input.len() < 16 {
        return Err(RomError::Truncated);
    }
    let header = parse_header(input);
    let start: usize = if header.trainer { 528 } else { 16 };
    if input.len() < start {
        return Err(RomError::Truncated);
    }
    if input.len() - start < header.prg_rom_size
        || input.len() - start - header.prg_rom_size < header.chr_rom_size {
        return Err(RomError::Truncated);
    }
    let trainer = if header.trainer { copy_bytes(input, 16, 512) } else { Vec::new() };
    let prg_rom = copy_bytes(input, start, header.prg_rom_size);
    let chr_rom = copy_bytes(input, start + header.prg_rom_size, header.chr_rom_size);
    proof {
        if !header.trainer {
            assert(trainer@ =~= Seq::<u8>::empty());
        }
    }
    Ok(INesRom { header, trainer, prg_rom, chr_rom })
}

} // verus!
