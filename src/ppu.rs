use vstd::prelude::*;

use vstd::array::spec_array_update;

verus! {

/// Dots per scanline.
pub const DOTS: u32 = 341;

/// Scanlines per frame.
pub const LINES: u32 = 262;

/// Bytes in the RGB frame buffer: 256 by 240 pixels, three bytes each.
pub const FRAME_BYTES: usize = 184320;

/// Where PPU address `addr` is stored in the 16 KiB VRAM array: pattern
/// tables as they are; the four nametables folded onto two by the
/// cartridge's mirroring; palette entries `$3F10/14/18/1C` onto
/// `$3F00/04/08/0C`, and the palette repeated every 32 bytes.
pub open spec fn vram_index(addr: u16, vertical: bool) -> int {
    let a = addr as int % 0x4000;
    if a < 0x2000 {
        a
    } else if a < 0x3F00 {
        let n = (a - 0x2000) % 0x1000;
        let table = n / 0x400;
        let phys = if vertical { table % 2 } else { table / 2 };
        0x2000 + phys * 0x400 + n % 0x400
    } else {
        let p = a % 0x20;
        0x3F00 + if p >= 0x10 && p % 4 == 0 { p - 0x10 } else { p }
    }
}

/// The VRAM array index of PPU address `addr`.
pub fn vram_addr(addr: u16, vertical: bool) -> (r: usize)
    ensures
        r == vram_index(addr, vertical),
        r < 0x4000,
{
    let a = (addr % 0x4000) as usize;
    if a < 0x2000 {
        a
    } else if a < 0x3F00 {
        let n = (a - 0x2000) % 0x1000;
        let table = n / 0x400;
        let phys = if vertical { table % 2 } else { table / 2 };
        0x2000 + phys * 0x400 + n % 0x400
    } else {
        let p = a % 0x20;
        0x3F00 + if p >= 0x10 && p % 4 == 0 { p - 0x10 } else { p }
    }
}

/// What one dot of the PPU reports to the system that drives it.
#[derive(Debug, Clone, Copy, PartialEq, Eq, Structural)]
pub struct Tick {
    /// VBlank began with NMI enabled: the CPU must take an NMI now.
    pub nmi: bool,
    /// The frame buffer holds a finished frame.
    pub frame_ready: bool,
}

/// The picture processing unit: its registers, memories and the state of
/// its rendering pipeline.
pub struct Ppu {
    pub cycle: u32,
    pub ppu_ctrl: u8,
    pub ppu_mask: u8,
    pub ppu_status: u8,
    pub oam_addr: u8,
    pub w: bool,
    pub v: u16,
    pub t: u16,
    pub x: u8,
    pub read_buffer: u8,
    pub vertical_mirror: bool,
    pub oam: [u8; 256],
    pub vram: [u8; 16384],
    pub secondary_oam: [u8; 32],
    pub sprite_zero_next: bool,
    pub sprite_zero_line: bool,
    pub b_pat_lo: u16,
    pub b_pat_hi: u16,
    pub b_pal_lo: u8,
    pub b_pal_hi: u8,
    pub latch_lo: bool,
    pub latch_hi: bool,
    pub s_pat_lo: [u8; 8],
    pub s_pat_hi: [u8; 8],
    pub s_attrs: [u8; 8],
    pub s_counters: [u8; 8],
    pub l_nametable: u8,
    pub l_attr: u8,
    pub l_pt_low: u8,
    pub l_pt_high: u8,
    pub pixel_data: Vec<u8>,
}

impl Ppu {
    pub open spec fn wf(&self) -> bool {
        &&& self.pixel_data@.len() == FRAME_BYTES
        &&& self.cycle < DOTS * LINES
    }

    /// The dot counter: scanline times 341 plus dot.
    pub open spec fn dot_count(&self) -> nat {
        self.cycle as nat
    }

    pub open spec fn ctrl(&self) -> u8 {
        self.ppu_ctrl
    }

    pub open spec fn mask(&self) -> u8 {
        self.ppu_mask
    }

    pub open spec fn status(&self) -> u8 {
        self.ppu_status
    }

    pub open spec fn oam_address(&self) -> u8 {
        self.oam_addr
    }

    /// The write toggle shared by `$2005` and `$2006`.
    pub open spec fn write_toggle(&self) -> bool {
        self.w
    }

    /// The current VRAM address `v`.
    pub open spec fn vram_address(&self) -> u16 {
        self.v
    }

    /// The temporary VRAM address `t`.
    pub open spec fn temp_address(&self) -> u16 {
        self.t
    }

    pub open spec fn fine_x(&self) -> u8 {
        self.x
    }

    pub open spec fn read_buffer(&self) -> u8 {
        self.read_buffer
    }

    pub open spec fn vertical_mirroring(&self) -> bool {
        self.vertical_mirror
    }

    pub open spec fn oam_view(&self) -> Seq<u8> {
        self.oam@
    }

    pub open spec fn vram_view(&self) -> Seq<u8> {
        self.vram@
    }

    pub open spec fn pixels(&self) -> Seq<u8> {
        self.pixel_data@
    }

    /// The byte stored for PPU address `addr`.
    pub open spec fn vram_at(&self, addr: u16) -> u8 {
        self.vram_view()[vram_index(addr, self.vertical_mirroring())]
    }

    /// How far `v` moves after a `$2007` access: 32 when PPUCTRL bit 2 is
    /// set, else 1; `v` stays 15 bits wide.
    pub open spec fn next_v(&self) -> u16 {
        ((self.vram_address() as int + if (self.ctrl() / 4) % 2 == 1 { 32int } else { 1int })
            % 0x8000) as u16
    }

    /// The value that a read of register `addr` returns.
    pub open spec fn reg_read_value(&self, addr: u16) -> u8 {
        if addr == 0x2002 {
            self.status()
        } else if addr == 0x2004 {
            self.oam_view()[self.oam_address() as int]
        } else if addr == 0x2007 {
            if self.vram_address() % 0x4000 >= 0x3F00 {
                self.vram_at(self.vram_address())
            } else {
                self.read_buffer()
            }
        } else {
            0
        }
    }

    /// The PPU after a read of register `addr`.
    pub open spec fn after_reg_read(&self, addr: u16) -> Ppu {
        if addr == 0x2002 {
            Ppu { ppu_status: self.ppu_status & 0x7F, w: false, ..*self }
        } else if addr == 0x2007 {
            Ppu {
                v: self.next_v(),
                read_buffer: if self.v % 0x4000 >= 0x3F00 {
                    self.read_buffer
                } else {
                    self.vram_at(self.v)
                },
                ..*self
            }
        } else {
            *self
        }
    }

    /// The PPU after `b` is written to register `addr`.
    pub open spec fn after_reg_write(&self, addr: u16, b: u8) -> Ppu {
        if addr == 0x2000 {
            Ppu { ppu_ctrl: b, t: (self.t & 0xF3FF) | (((b as u16) & 3) << 10), ..*self }
        } else if addr == 0x2001 {
            Ppu { ppu_mask: b, ..*self }
        } else if addr == 0x2003 {
            Ppu { oam_addr: b, ..*self }
        } else if addr == 0x2004 {
            Ppu {
                oam: spec_array_update(self.oam, self.oam_addr as int, b),
                oam_addr: ((self.oam_addr as int + 1) % 256) as u8,
                ..*self
            }
        } else if addr == 0x2005 {
            if !self.w {
                Ppu { t: (self.t & 0xFFE0) | ((b as u16) >> 3), x: b & 7, w: true, ..*self }
            } else {
                Ppu {
                    t: (self.t & 0x8C1F) | (((b as u16) & 7) << 12) | (((b as u16) >> 3) << 5),
                    w: false,
                    ..*self
                }
            }
        } else if addr == 0x2006 {
            if !self.w {
                Ppu { t: (self.t & 0x00FF) | (((b as u16) & 0x3F) << 8), w: true, ..*self }
            } else {
                let t = (self.t & 0xFF00) | (b as u16);
                Ppu { t, v: t, w: false, ..*self }
            }
        } else if addr == 0x2007 {
            if self.v % 0x4000 >= 0x2000 {
                Ppu {
                    vram: spec_array_update(self.vram, vram_index(self.v, self.vertical_mirror), b),
                    v: self.next_v(),
                    ..*self
                }
            } else {
                Ppu { v: self.next_v(), ..*self }
            }
        } else {
            *self
        }
    }

    /// The PPU after an OAM DMA transfer stores `b` at OAM index `i`.
    pub open spec fn with_oam_byte(&self, i: int, b: u8) -> Ppu {
        Ppu { oam: spec_array_update(self.oam, i, b), ..*self }
    }

    pub proof fn lemma_reg_ops_keep_wf(&self, addr: u16, b: u8)
        requires
            self.wf(),
        ensures
            self.after_reg_read(addr).wf(),
            self.after_reg_write(addr, b).wf(),
            forall|i: int| 0 <= i < 256 ==> #[trigger] self.with_oam_byte(i, b).wf(),
    {
    }

    /// The state at power-up: counter and registers zero, OAM zero, the
    /// first `size` bytes of `chr` as the pattern tables and zero elsewhere
    /// in VRAM, and the given nametable mirroring.
    pub open spec fn power_up(&self, chr: Seq<u8>, size: nat, vertical: bool) -> bool {
        &&& self.dot_count() == 0
        &&& self.ctrl() == 0 && self.mask() == 0 && self.status() == 0 && self.oam_address() == 0
        &&& !self.write_toggle() && self.vram_address() == 0 && self.temp_address() == 0 && self.fine_x() == 0
        &&& self.read_buffer() == 0
        &&& self.vertical_mirroring() == vertical
        &&& self.oam_view() == Seq::new(256, |i: int| 0u8)
        &&& self.vram_view().len() == 0x4000
        &&& forall|i: int|
            0 <= i < 0x4000 ==> #[trigger] self.vram_view()[i] == if i < size {
                chr[i]
            } else {
                0u8
            }
    }

    /// A PPU at power-up with `chr_rom_size` bytes of `chr_rom` as its
    /// pattern tables and the given nametable mirroring.
    pub fn new(chr_rom: Vec<u8>, chr_rom_size: usize, vertical_mirror: bool) -> (r: Self)
        requires
            chr_rom_size <= chr_rom@.len(),
            chr_rom_size <= 0x2000,
        ensures
            r.wf(),
            r.power_up(chr_rom@, chr_rom_size as nat, vertical_mirror),
    {
        let mut vram = [0u8; 16384];
        let mut i: usize = 0;
        while i < chr_rom_size
            invariant
                i <= chr_rom_size,
                chr_rom_size <= chr_rom@.len(),
                chr_rom_size <= 0x2000,
                forall|j: int| 0 <= j < 0x4000 ==> #[trigger] vram@[j] == if j < i {
                    chr_rom@[j]
                } else {
                    0u8
                },
            decreases chr_rom_size - i,
        {
            vram[i] = chr_rom[i];
            i = i + 1;
        }
        let mut pixel_data: Vec<u8> = Vec::new();
        let mut k: usize = 0;
        while k < FRAME_BYTES
            invariant
                k <= FRAME_BYTES,
                pixel_data@.len() == k,
            decreases FRAME_BYTES - k,
        {
            pixel_data.push(0);
            k = k + 1;
        }
        let r = Ppu {
            cycle: 0,
            ppu_ctrl: 0,
            ppu_mask: 0,
            ppu_status: 0,
            oam_addr: 0,
            w: false,
            v: 0,
            t: 0,
            x: 0,
            read_buffer: 0,
            vertical_mirror,
            oam: [0u8; 256],
            vram,
            secondary_oam: [0xFFu8; 32],
            sprite_zero_next: false,
            sprite_zero_line: false,
            b_pat_lo: 0,
            b_pat_hi: 0,
            b_pal_lo: 0,
            b_pal_hi: 0,
            latch_lo: false,
            latch_hi: false,
            s_pat_lo: [0u8; 8],
            s_pat_hi: [0u8; 8],
            s_attrs: [0u8; 8],
            s_counters: [0u8; 8],
            l_nametable: 0,
            l_attr: 0,
            l_pt_low: 0,
            l_pt_high: 0,
            pixel_data,
        };
        assert(r.oam@ =~= Seq::new(256, |i: int| 0u8));
        r
    }

    fn advance_v(&mut self)
        ensures
            final(self).vram_address() == old(self).next_v(),
            *final(self) == (Ppu { v: final(self).v, ..*old(self) }),
    {
        let inc: u16 = if (self.ppu_ctrl / 4) % 2 == 1 { 32 } else { 1 };
        self.v = ((self.v as u32 + inc as u32) % 0x8000) as u16;
    }

    /// Writes register `addr` (`$2000` to `$2007`); writes to read-only or
    /// unknown registers change nothing.
    pub fn write_addr(&mut self, addr: u16, b: u8)
        requires
            old(self).wf(),
        ensures
            final(self).wf(),
            *final(self) == old(self).after_reg_write(addr, b),
    {
        if addr == 0x2000 {
            self.ppu_ctrl = b;
            self.t = (self.t & 0xF3FF) | (((b as u16) & 3) << 10);
        } else if addr == 0x2001 {
            self.ppu_mask = b;
        } else if addr == 0x2003 {
            self.oam_addr = b;
        } else if addr == 0x2004 {
            self.oam[self.oam_addr as usize] = b;
            self.oam_addr = self.oam_addr.wrapping_add(1);
            proof {
                assert(self.oam == spec_array_update(old(self).oam, old(self).oam_addr as int, b));
            }
        } else if addr == 0x2005 {
            if !self.w {
                self.t = (self.t & 0xFFE0) | ((b as u16) >> 3);
                self.x = b & 7;
                self.w = true;
            } else {
                self.t = (self.t & 0x8C1F) | (((b as u16) & 7) << 12) | (((b as u16) >> 3) << 5);
                self.w = false;
            }
        } else if addr == 0x2006 {
            if !self.w {
                self.t = (self.t & 0x00FF) | (((b as u16) & 0x3F) << 8);
                self.w = true;
            } else {
                self.t = (self.t & 0xFF00) | (b as u16);
                self.v = self.t;
                self.w = false;
            }
        } else if addr == 0x2007 {
            if self.v % 0x4000 >= 0x2000 {
                let i = vram_addr(self.v, self.vertical_mirror);
                self.vram[i] = b;
                proof {
                    assert(self.vram == spec_array_update(old(self).vram, i as int, b));
                }
            }
            self.advance_v();
        }
    }

    /// Reads register `addr` (`$2002`, `$2004` or `$2007`); the other
    /// registers read as 0 and are left as they were.
    pub fn read_addr(&mut self, addr: u16) -> (r: u8)
        requires
            old(self).wf(),
        ensures
            final(self).wf(),
            r == old(self).reg_read_value(addr),
            *final(self) == old(self).after_reg_read(addr),
    {
        if addr == 0x2002 {
            self.w = false;
            let val = self.ppu_status;
            self.ppu_status = self.ppu_status & 0x7F;
            val
        } else if addr == 0x2004 {
            self.oam[self.oam_addr as usize]
        } else if addr == 0x2007 {
            let a = self.v % 0x4000;
            let val = self.vram[vram_addr(self.v, self.vertical_mirror)];
            self.advance_v();
            if a >= 0x3F00 {
                val
            } else {
                let ret = self.read_buffer;
                self.read_buffer = val;
                ret
            }
        } else {
            0
        }
    }

    /// Stores byte `b` of an OAM DMA transfer at OAM index `i`.
    pub fn write_oam_dma(&mut self, i: u8, b: u8)
        requires
            old(self).wf(),
        ensures
            final(self).wf(),
            *final(self) == old(self).with_oam_byte(i as int, b),
    {
        self.oam[i as usize] = b;
        proof {
            assert(self.oam == spec_array_update(old(self).oam, i as int, b));
        }
    }

    /// The OAM address register.
    pub fn read_oam_addr(&self) -> (r: u8)
        ensures
            r == self.oam_address(),
    {
        self.oam_addr
    }

    /// Whether VBlank raises an NMI (PPUCTRL bit 7).
    pub fn nmi_interrupt(&self) -> (r: bool)
        ensures
            r == (self.ctrl() >= 0x80),
    {
        self.ppu_ctrl >= 0x80
    }
}

/// The RGB colour of each of the 64 master palette entries.
pub open spec fn master_palette(i: u8) -> (u8, u8, u8) {
    match i {
        0 => (0x55, 0x55, 0x55),
        1 => (0x00, 0x17, 0x73),
        2 => (0x00, 0x07, 0x86),
        3 => (0x2e, 0x05, 0x78),
        4 => (0x59, 0x02, 0x4d),
        5 => (0x72, 0x00, 0x11),
        6 => (0x6e, 0x00, 0x00),
        7 => (0x4c, 0x08, 0x00),
        8 => (0x17, 0x1b, 0x00),
        9 => (0x00, 0x2a, 0x00),
        10 => (0x00, 0x31, 0x00),
        11 => (0x00, 0x2e, 0x08),
        12 => (0x00, 0x26, 0x45),
        13 => (0x00, 0x00, 0x00),
        14 => (0x00, 0x00, 0x00),
        15 => (0x00, 0x00, 0x00),
        16 => (0xa5, 0xa5, 0xa5),
        17 => (0x00, 0x57, 0xc6),
        18 => (0x22, 0x3f, 0xe5),
        19 => (0x6e, 0x28, 0xd9),
        20 => (0xae, 0x1a, 0xa6),
        21 => (0xd2, 0x17, 0x59),
        22 => (0xd1, 0x21, 0x07),
        23 => (0xa7, 0x37, 0x00),
        24 => (0x63, 0x51, 0x00),
        25 => (0x18, 0x67, 0x00),
        26 => (0x00, 0x72, 0x00),
        27 => (0x00, 0x73, 0x31),
        28 => (0x00, 0x6a, 0x84),
        29 => (0x00, 0x00, 0x00),
        30 => (0x00, 0x00, 0x00),
        31 => (0x00, 0x00, 0x00),
        32 => (0xfe, 0xff, 0xff),
        33 => (0x2f, 0xa8, 0xff),
        34 => (0x5d, 0x81, 0xff),
        35 => (0x9c, 0x70, 0xff),
        36 => (0xf7, 0x72, 0xff),
        37 => (0xff, 0x77, 0xbd),
        38 => (0xff, 0x7e, 0x75),
        39 => (0xff, 0x8a, 0x2b),
        40 => (0xcd, 0xa0, 0x00),
        41 => (0x81, 0xb8, 0x02),
        42 => (0x3d, 0xc8, 0x30),
        43 => (0x12, 0xcd, 0x7b),
        44 => (0x0d, 0xc5, 0xd0),
        45 => (0x3c, 0x3c, 0x3c),
        46 => (0x00, 0x00, 0x00),
        47 => (0x00, 0x00, 0x00),
        48 => (0xfe, 0xff, 0xff),
        49 => (0xa4, 0xde, 0xff),
        50 => (0xb1, 0xc8, 0xff),
        51 => (0xcc, 0xbe, 0xff),
        52 => (0xf4, 0xc2, 0xff),
        53 => (0xff, 0xc5, 0xea),
        54 => (0xff, 0xc7, 0xc9),
        55 => (0xff, 0xcd, 0xaa),
        56 => (0xef, 0xd6, 0x96),
        57 => (0xd0, 0xe0, 0x95),
        58 => (0xb3, 0xe7, 0xa5),
        59 => (0x9f, 0xea, 0xc3),
        60 => (0x9a, 0xe8, 0xe6),
        61 => (0xaf, 0xaf, 0xaf),
        62 => (0x00, 0x00, 0x00),
        _ => (0x00, 0x00, 0x00),
    }
}

/// The RGB colour of master palette entry `i`.
pub fn palette_rgb(i: u8) -> (r: (u8, u8, u8))
    requires
        i < 64,
    ensures
        r == master_palette(i),
{
    match i {
        0 => (0x55, 0x55, 0x55),
        1 => (0x00, 0x17, 0x73),
        2 => (0x00, 0x07, 0x86),
        3 => (0x2e, 0x05, 0x78),
        4 => (0x59, 0x02, 0x4d),
        5 => (0x72, 0x00, 0x11),
        6 => (0x6e, 0x00, 0x00),
        7 => (0x4c, 0x08, 0x00),
        8 => (0x17, 0x1b, 0x00),
        9 => (0x00, 0x2a, 0x00),
        10 => (0x00, 0x31, 0x00),
        11 => (0x00, 0x2e, 0x08),
        12 => (0x00, 0x26, 0x45),
        13 => (0x00, 0x00, 0x00),
        14 => (0x00, 0x00, 0x00),
        15 => (0x00, 0x00, 0x00),
        16 => (0xa5, 0xa5, 0xa5),
        17 => (0x00, 0x57, 0xc6),
        18 => (0x22, 0x3f, 0xe5),
        19 => (0x6e, 0x28, 0xd9),
        20 => (0xae, 0x1a, 0xa6),
        21 => (0xd2, 0x17, 0x59),
        22 => (0xd1, 0x21, 0x07),
        23 => (0xa7, 0x37, 0x00),
        24 => (0x63, 0x51, 0x00),
        25 => (0x18, 0x67, 0x00),
        26 => (0x00, 0x72, 0x00),
        27 => (0x00, 0x73, 0x31),
        28 => (0x00, 0x6a, 0x84),
        29 => (0x00, 0x00, 0x00),
        30 => (0x00, 0x00, 0x00),
        31 => (0x00, 0x00, 0x00),
        32 => (0xfe, 0xff, 0xff),
        33 => (0x2f, 0xa8, 0xff),
        34 => (0x5d, 0x81, 0xff),
        35 => (0x9c, 0x70, 0xff),
        36 => (0xf7, 0x72, 0xff),
        37 => (0xff, 0x77, 0xbd),
        38 => (0xff, 0x7e, 0x75),
        39 => (0xff, 0x8a, 0x2b),
        40 => (0xcd, 0xa0, 0x00),
        41 => (0x81, 0xb8, 0x02),
        42 => (0x3d, 0xc8, 0x30),
        43 => (0x12, 0xcd, 0x7b),
        44 => (0x0d, 0xc5, 0xd0),
        45 => (0x3c, 0x3c, 0x3c),
        46 => (0x00, 0x00, 0x00),
        47 => (0x00, 0x00, 0x00),
        48 => (0xfe, 0xff, 0xff),
        49 => (0xa4, 0xde, 0xff),
        50 => (0xb1, 0xc8, 0xff),
        51 => (0xcc, 0xbe, 0xff),
        52 => (0xf4, 0xc2, 0xff),
        53 => (0xff, 0xc5, 0xea),
        54 => (0xff, 0xc7, 0xc9),
        55 => (0xff, 0xcd, 0xaa),
        56 => (0xef, 0xd6, 0x96),
        57 => (0xd0, 0xe0, 0x95),
        58 => (0xb3, 0xe7, 0xa5),
        59 => (0x9f, 0xea, 0xc3),
        60 => (0x9a, 0xe8, 0xe6),
        61 => (0xaf, 0xaf, 0xaf),
        62 => (0x00, 0x00, 0x00),
        _ => (0x00, 0x00, 0x00),
    }
}

/// Moves `v` to the next tile column: coarse X wraps at 32 and switches the
/// horizontal nametable.
pub open spec fn incr_x(v: u16) -> u16 {
    if v % 32 == 31 {
        ((v - 31) as u16) ^ 0x0400
    } else {
        (v + 1) as u16
    }
}

/// Moves `v` to the next pixel row: fine Y, then coarse Y, which wraps
/// after row 29 into the other vertical nametable and after row 31 within
/// the same one.
pub open spec fn incr_y(v: u16) -> u16 {
    if (v / 0x1000) % 8 < 7 {
        ((v as int + 0x1000) % 0x10000) as u16
    } else {
        let v0 = (v - 0x7000) as u16;
        let cy = (v / 32) % 32;
        if cy == 29 {
            ((v0 - 29 * 32) as u16) ^ 0x0800
        } else if cy == 31 {
            (v0 - 31 * 32) as u16
        } else {
            (v0 + 32) as u16
        }
    }
}

/// Copies the horizontal bits of `t` (coarse X, nametable X) into `v`.
pub open spec fn copy_h(v: u16, t: u16) -> u16 {
    (v & 0xFBE0) | (t & 0x041F)
}

/// Copies the vertical bits of `t` (fine Y, coarse Y, nametable Y) into `v`.
pub open spec fn copy_v(v: u16, t: u16) -> u16 {
    (v & 0x841F) | (t & 0x7BE0)
}

/// Whether dot `dot` fetches background tiles.
pub open spec fn fetch_dot(dot: u32) -> bool {
    (1 <= dot <= 256) || (321 <= dot <= 336)
}

/// `v` after dot `dot` of a rendering line `row`: coarse X moves on every
/// eighth fetch dot, fine Y at dot 256 and the horizontal bits come back
/// from `t` at dot 257; the vertical bits come back from `t` at dots 280 to
/// 304 of the pre-render line, when `rendering` is enabled.
pub open spec fn v_after_dot(v: u16, t: u16, row: u32, dot: u32, rendering: bool) -> u16 {
    let v1 = if dot == 256 { incr_y(v) } else { v };
    let v2 = if fetch_dot(dot) && dot % 8 == 0 { incr_x(v1) } else { v1 };
    let v3 = if dot == 257 { copy_h(v2, t) } else { v2 };
    if rendering && row == 261 && 280 <= dot <= 304 { copy_v(v3, t) } else { v3 }
}

/// Sprite height: 16 with PPUCTRL bit 5, else 8.
pub open spec fn sprite_height(ctrl: u8) -> int {
    if (ctrl / 32) % 2 == 1 { 16 } else { 8 }
}

/// Whether a sprite with OAM Y byte `y` covers line `row`.
pub open spec fn in_range(y: u8, row: int, h: int) -> bool {
    y <= row < y + h
}

/// The indices, in order, of the sprites among the first `n` of OAM that
/// cover line `row`.
pub open spec fn hits_before(oam: Seq<u8>, row: int, h: int, n: int) -> Seq<int>
    decreases n,
{
    if n <= 0 {
        seq![]
    } else {
        let prev = hits_before(oam, row, h, n - 1);
        if in_range(oam[4 * (n - 1)], row, h) {
            prev.push(n - 1)
        } else {
            prev
        }
    }
}

/// The overflow search that follows a full secondary OAM: from sprite `n`
/// it tests byte `m` of each entry as a Y coordinate, and on a miss moves
/// to the next sprite and, by the hardware's fault, to the next byte too.
pub open spec fn overflow_scan(oam: Seq<u8>, row: int, h: int, n: int, m: int) -> bool
    decreases 64 - n,
{
    if n >= 64 || n < 0 {
        false
    } else if in_range(oam[4 * n + m], row, h) {
        true
    } else {
        overflow_scan(oam, row, h, n + 1, (m + 1) % 4)
    }
}

/// Byte `i` of secondary OAM after evaluating line `row`: the first eight
/// covering sprites in OAM order, then `0xFF`.
pub open spec fn secondary_byte(oam: Seq<u8>, row: int, h: int, i: int) -> u8 {
    let hits = hits_before(oam, row, h, 64);
    if i / 4 < hits.len() {
        oam[4 * hits[i / 4] + i % 4]
    } else {
        0xFF
    }
}

/// Whether evaluating line `row` sets the sprite overflow flag.
pub open spec fn sprite_overflow(oam: Seq<u8>, row: int, h: int) -> bool {
    let hits = hits_before(oam, row, h, 64);
    hits.len() >= 8 && overflow_scan(oam, row, h, hits[7] + 1, 0)
}

pub proof fn lemma_hits_bounded(oam: Seq<u8>, row: int, h: int, n: int)
    ensures
        hits_before(oam, row, h, n).len() <= if n < 0 { 0 } else { n },
        forall|k: int|
            0 <= k < hits_before(oam, row, h, n).len() ==> 0 <= #[trigger] hits_before(oam, row, h, n)[k] < n,
        forall|k: int, l: int|
            0 <= k < l < hits_before(oam, row, h, n).len() ==> hits_before(oam, row, h, n)[k]
                < hits_before(oam, row, h, n)[l],
    decreases n,
{
    if n > 0 {
        lemma_hits_bounded(oam, row, h, n - 1);
    }
}

/// A shorter scan is a prefix of a longer one.
pub proof fn lemma_hits_prefix(oam: Seq<u8>, row: int, h: int, n: int, m: int)
    requires
        0 <= n <= m,
    ensures
        hits_before(oam, row, h, n).len() <= hits_before(oam, row, h, m).len(),
        forall|k: int|
            0 <= k < hits_before(oam, row, h, n).len() ==> #[trigger] hits_before(oam, row, h, n)[k]
                == hits_before(oam, row, h, m)[k],
        hits_before(oam, row, h, m).len() > hits_before(oam, row, h, n).len() ==> hits_before(
            oam,
            row,
            h,
            m,
        )[hits_before(oam, row, h, n).len() as int] >= n,
    decreases m - n,
{
    if n < m {
        lemma_hits_prefix(oam, row, h, n, m - 1);
        lemma_hits_bounded(oam, row, h, m - 1);
        lemma_hits_bounded(oam, row, h, n);
    }
}

/// The pattern table address of row `fine` of a sprite with tile byte
/// `tile` and attributes `attr`, low plane or `high` plane: 8x8 sprites
/// take their table from PPUCTRL bit 3, 8x16 sprites from bit 0 of the
/// tile byte; a vertically flipped sprite counts its rows from the bottom.
pub open spec fn sprite_pattern_addr(ctrl: u8, tile: u8, attr: u8, fine: int, high: bool) -> int {
    let h = sprite_height(ctrl);
    let f = if attr >= 0x80 { h - 1 - fine } else { fine };
    let plane = if high { 8int } else { 0int };
    if h == 16 {
        let tn = tile as int - tile as int % 2 + if f >= 8 { 1int } else { 0int };
        (tile as int % 2) * 0x1000 + tn * 16 + f % 8 + plane
    } else {
        ((ctrl as int / 8) % 2) * 0x1000 + tile as int * 16 + f + plane
    }
}

/// The row of a sprite with OAM Y byte `y` drawn on the line after `row`,
/// counted from its top, modulo its height `h`.
pub fn sprite_fine(row: u32, y: u8, h: u32) -> (r: u32)
    requires
        h == 8 || h == 16,
    ensures
        r == (row as int - y as int) % (h as int),
        r < h,
{
    let r = (row % 256 + 256 - y as u32) % h;
    proof {
        let k: int = if h == 8 { 32 } else { 16 };
        let q = row as int / 256;
        vstd::arithmetic::div_mod::lemma_mod_multiples_vanish(k - k * q, row as int - y as int, h as int);
        assert(h as int * (k - k * q) + (row as int - y as int) == row as int % 256 + 256 - y as int) by (nonlinear_arith)
            requires
                h as int * k == 256,
                q == row as int / 256,
        ;
    }
    r
}

/// The pattern table index of row `fine` of a sprite.
pub fn sprite_pattern_index(ctrl: u8, tile: u8, attr: u8, fine: u32, high: bool) -> (r: usize)
    requires
        fine < sprite_height(ctrl),
    ensures
        r == sprite_pattern_addr(ctrl, tile, attr, fine as int, high),
        r < 0x2000,
{
    let h: u32 = if (ctrl / 32) % 2 == 1 { 16 } else { 8 };
    let plane: usize = if high { 8 } else { 0 };
    let f: usize = (if attr >= 0x80 { h - 1 - fine } else { fine }) as usize;
    if h == 16 {
        let tn: usize = tile as usize - tile as usize % 2 + if f >= 8 { 1 } else { 0 };
        (tile as usize % 2) * 0x1000 + tn * 16 + f % 8 + plane
    } else {
        ((ctrl / 8) % 2) as usize * 0x1000 + tile as usize * 16 + f + plane
    }
}

/// The pixel of a sprite slot whose pattern shifters hold `lo` and `hi`.
pub open spec fn pattern_pixel(lo: u8, hi: u8) -> u8 {
    ((hi % 2) * 2 + lo % 2) as u8
}

/// The first slot from `i` whose X counter has run out and whose pixel
/// is opaque; 8 when there is none.
pub open spec fn first_opaque(counters: Seq<u8>, lo: Seq<u8>, hi: Seq<u8>, i: int) -> int
    decreases 8 - i,
{
    if i >= 8 || i < 0 {
        8
    } else if counters[i] == 0 && pattern_pixel(lo[i], hi[i]) != 0 {
        i
    } else {
        first_opaque(counters, lo, hi, i + 1)
    }
}

pub proof fn lemma_first_opaque_bounds(counters: Seq<u8>, lo: Seq<u8>, hi: Seq<u8>, i: int)
    requires
        0 <= i <= 8,
    ensures
        i <= first_opaque(counters, lo, hi, i) <= 8,
    decreases 8 - i,
{
    if i < 8 {
        lemma_first_opaque_bounds(counters, lo, hi, i + 1);
    }
}

/// The eight sprite slots step from counters and pattern shifters `c`,
/// `lo`, `hi` to `c2`, `lo2`, `hi2`: a running counter goes down by one, a
/// slot whose counter has run out shifts its pattern right.
pub open spec fn slots_stepped(c: Seq<u8>, lo: Seq<u8>, hi: Seq<u8>, c2: Seq<u8>, lo2: Seq<u8>, hi2: Seq<u8>) -> bool {
    forall|i: int|
        0 <= i < 8 ==> if #[trigger] c[i] == 0 {
            c2[i] == 0 && lo2[i] == lo[i] / 2 && hi2[i] == hi[i] / 2
        } else {
            c2[i] == c[i] - 1 && lo2[i] == lo[i] && hi2[i] == hi[i]
        }
}

/// Whether bit `i` of `b` is set.
pub open spec fn bit(b: u8, i: u8) -> bool {
    (b >> i) & 1 == 1
}

/// `b` with its bits in reverse order.
pub open spec fn reversed(b: u8) -> u8 {
    (if bit(b, 7) { 0x01u8 } else { 0u8 }) | (if bit(b, 6) { 0x02u8 } else { 0u8 }) | (if bit(b, 5) {
        0x04u8
    } else {
        0u8
    }) | (if bit(b, 4) { 0x08u8 } else { 0u8 }) | (if bit(b, 3) { 0x10u8 } else { 0u8 }) | (if bit(
        b,
        2,
    ) {
        0x20u8
    } else {
        0u8
    }) | (if bit(b, 1) { 0x40u8 } else { 0u8 }) | (if bit(b, 0) { 0x80u8 } else { 0u8 })
}

/// `b` with its bits in reverse order.
pub fn reverse_bits(b: u8) -> (r: u8)
    ensures
        r == reversed(b),
        bit(r, 0) == bit(b, 7) && bit(r, 1) == bit(b, 6) && bit(r, 2) == bit(b, 5) && bit(r, 3) == bit(b, 4),
        bit(r, 4) == bit(b, 3) && bit(r, 5) == bit(b, 2) && bit(r, 6) == bit(b, 1) && bit(r, 7) == bit(b, 0),
{
    let r = ((b & 0x01) << 7) | ((b & 0x02) << 5) | ((b & 0x04) << 3) | ((b & 0x08) << 1) | ((b & 0x10) >> 1)
        | ((b & 0x20) >> 3) | ((b & 0x40) >> 5) | ((b & 0x80) >> 7);
    assert(bit(r, 0) == bit(b, 7) && bit(r, 1) == bit(b, 6) && bit(r, 2) == bit(b, 5) && bit(r, 3) == bit(b, 4)
        && bit(r, 4) == bit(b, 3) && bit(r, 5) == bit(b, 2) && bit(r, 6) == bit(b, 1) && bit(r, 7) == bit(b, 0)
        && r == reversed(b))
        by (bit_vector)
        requires
            r == ((b & 0x01) << 7) | ((b & 0x02) << 5) | ((b & 0x04) << 3) | ((b & 0x08) << 1) | ((b & 0x10)
                >> 1) | ((b & 0x20) >> 3) | ((b & 0x40) >> 5) | ((b & 0x80) >> 7),
    ;
    r
}

/// The master palette index of a dot from the background pixel and
/// colour and the sprite pixel and colour (pixel 0 is transparent), and
/// whether the two opaque pixels overlap: the sprite shows over an opaque
/// background pixel only when `front` (attribute bit 5 clear).
pub open spec fn mux_spec(bg_pixel: u8, bg_col: u8, spr_pixel: u8, spr_col: u8, front: bool) -> (u8, bool) {
    if bg_pixel == 0 && spr_pixel == 0 {
        (bg_col, false)
    } else if bg_pixel == 0 {
        (spr_col, false)
    } else if spr_pixel == 0 {
        (bg_col, false)
    } else {
        (if front { spr_col } else { bg_col }, true)
    }
}

pub fn mux(bg_pixel: u8, bg_col: u8, spr_pixel: u8, spr_col: u8, front: bool) -> (r: (u8, bool))
    ensures
        r == mux_spec(bg_pixel, bg_col, spr_pixel, spr_col, front),
{
    if bg_pixel == 0 && spr_pixel == 0 {
        (bg_col, false)
    } else if bg_pixel == 0 {
        (spr_col, false)
    } else if spr_pixel == 0 {
        (bg_col, false)
    } else {
        (if front { spr_col } else { bg_col }, true)
    }
}

pub fn increment_x(v: u16) -> (r: u16)
    ensures
        r == incr_x(v),
{
    if v % 32 == 31 {
        (v - 31) ^ 0x0400
    } else {
        v + 1
    }
}

pub fn increment_y(v: u16) -> (r: u16)
    ensures
        r == incr_y(v),
{
    if (v / 0x1000) % 8 < 7 {
        v.wrapping_add(0x1000)
    } else {
        let v0 = v - 0x7000;
        let cy = (v / 32) % 32;
        if cy == 29 {
            (v0 - 29 * 32) ^ 0x0800
        } else if cy == 31 {
            v0 - 31 * 32
        } else {
            v0 + 32
        }
    }
}

proof fn lemma_upper_byte(x: u16, r: u8)
    by (bit_vector)
    ensures
        ((x % 256) | ((r as u16) << 8)) / 256 == r as u16,
        ((x % 256) | ((r as u16) << 8)) % 256 == x % 256,
{
}

/// Proof that `or`-ing in the overflow or hit bit leaves VBlank alone.
proof fn lemma_flag_bits(s: u8)
    by (bit_vector)
    ensures
        ((s | 0x20) >= 0x80) == (s >= 0x80),
        ((s | 0x40) >= 0x80) == (s >= 0x80),
        (s & 0x1F) < 0x80,
        (s & 0x7F) < 0x80,
        (s | 0x80) >= 0x80,
        (s | 0x20) & 0x20 == 0x20,
        (s | 0x40) & 0x40 == 0x40,
        (s | 0x40) & 0x20 == s & 0x20,
        (s | 0x20) & 0x40 == s & 0x40,
{
}

/// The pattern table address of the background tile `nt` for the fine Y of
/// `v`, low plane or `high` plane; PPUCTRL bit 4 picks the table.
pub open spec fn bg_pattern_addr(ctrl: u8, nt: u8, v: u16, high: bool) -> int {
    ((ctrl as int / 16) % 2) * 0x1000 + nt as int * 16 + (v as int / 0x1000) % 8 + if high {
        8int
    } else {
        0int
    }
}

/// Whether PPUMASK enables background or sprite rendering.
pub open spec fn rendering_enabled(mask: u8) -> bool {
    (mask / 8) % 4 != 0
}

impl Ppu {
    /// Everything that the CPU can see or set through the registers, and the
    /// dot counter, is the same in `self` and `o`.
    pub open spec fn same_registers(&self, o: &Ppu) -> bool {
        &&& self.cycle == o.cycle
        &&& self.ppu_ctrl == o.ppu_ctrl
        &&& self.ppu_mask == o.ppu_mask
        &&& self.oam_addr == o.oam_addr
        &&& self.w == o.w
        &&& self.t == o.t
        &&& self.x == o.x
        &&& self.read_buffer == o.read_buffer
        &&& self.vertical_mirror == o.vertical_mirror
        &&& self.oam == o.oam
        &&& self.vram == o.vram
    }

    /// The palette of the tile that `v` points at: the attribute byte of
    /// its 32 by 32 pixel block, shifted by 0, 2, 4 or 6 by bit 1 of coarse
    /// X and bit 1 of coarse Y.
    pub open spec fn attr_bits(&self) -> u8 {
        let v = self.vram_address() as int;
        let addr = 0x23C0 + ((v / 0x400) % 4) * 0x400 + ((v / 128) % 8) * 8 + (v / 4) % 8;
        let shift = ((v / 64) % 2) * 4 + ((v / 2) % 2) * 2;
        (self.vram_at(addr as u16) >> (shift as u8)) % 4
    }

    /// The pipeline state that decides the colour of a dot and the frame
    /// buffer are the same in `self` and `o`.
    pub open spec fn same_pixel_inputs(&self, o: &Ppu) -> bool {
        &&& self.b_pat_lo == o.b_pat_lo
        &&& self.b_pat_hi == o.b_pat_hi
        &&& self.b_pal_lo == o.b_pal_lo
        &&& self.b_pal_hi == o.b_pal_hi
        &&& self.s_pat_lo == o.s_pat_lo
        &&& self.s_pat_hi == o.s_pat_hi
        &&& self.s_attrs == o.s_attrs
        &&& self.s_counters == o.s_counters
        &&& self.sprite_zero_line == o.sprite_zero_line
        &&& self.latch_lo == o.latch_lo
        &&& self.latch_hi == o.latch_hi
        &&& self.pixel_data@ == o.pixel_data@
    }

    /// The background pixel (two pattern bits) at the fine X tap of the
    /// shift registers; 0 while background rendering is off.
    pub open spec fn bg_pixel(&self) -> u8 {
        if (self.ppu_mask / 8) % 2 == 1 {
            (((self.b_pat_hi >> (self.x % 8)) % 2) * 2 + (self.b_pat_lo >> (self.x % 8)) % 2) as u8
        } else {
            0
        }
    }

    /// The background palette (two attribute bits) at the fine X tap.
    pub open spec fn bg_palette(&self) -> u8 {
        (((self.b_pal_hi >> (self.x % 8)) % 2) * 2 + (self.b_pal_lo >> (self.x % 8)) % 2) as u8
    }

    /// The master palette index of the background pixel: the universal
    /// background colour for a transparent pixel.
    pub open spec fn bg_color(&self) -> u8 {
        if self.bg_pixel() == 0 {
            self.vram@[0x3F00]
        } else {
            self.vram@[0x3F00 + self.bg_palette() * 4 + self.bg_pixel()]
        }
    }

    /// The pixel that sprite slot `i` shows now (two pattern bits).
    pub open spec fn slot_pixel(&self, i: int) -> u8 {
        pattern_pixel(self.s_pat_lo@[i], self.s_pat_hi@[i])
    }

    /// The first slot from `i` whose X counter has run out and whose pixel
    /// is opaque; 8 when there is none.
    pub open spec fn first_sprite(&self, i: int) -> int {
        first_opaque(self.s_counters@, self.s_pat_lo@, self.s_pat_hi@, i)
    }

    proof fn lemma_first_sprite_bounds(&self, i: int)
        requires
            0 <= i <= 8,
        ensures
            i <= self.first_sprite(i) <= 8,
            i < 8 ==> self.first_sprite(i) == if self.s_counters@[i] == 0 && self.slot_pixel(i) != 0 {
                i
            } else {
                self.first_sprite(i + 1)
            },
    {
        lemma_first_opaque_bounds(self.s_counters@, self.s_pat_lo@, self.s_pat_hi@, i);
    }

    /// The sprite pixel of the dot; 0 while sprite rendering is off.
    pub open spec fn sprite_pixel(&self) -> u8 {
        let s = self.first_sprite(0);
        if (self.ppu_mask / 16) % 2 == 1 && s < 8 {
            self.slot_pixel(s)
        } else {
            0
        }
    }

    pub open spec fn sprite_color(&self) -> u8 {
        let s = self.first_sprite(0);
        if s < 8 {
            self.vram@[0x3F10 + (self.s_attrs@[s] % 4) * 4 + self.slot_pixel(s)]
        } else {
            0
        }
    }

    /// Whether the sprite pixel shows in front of the background
    /// (attribute bit 5 clear).
    pub open spec fn sprite_front(&self) -> bool {
        let s = self.first_sprite(0);
        s < 8 ==> (self.s_attrs@[s] / 32) % 2 == 0
    }

    /// The master palette index of the dot about to be drawn, and whether an
    /// opaque sprite pixel meets an opaque background pixel.
    pub open spec fn dot_color(&self) -> (u8, bool) {
        mux_spec(self.bg_pixel(), self.bg_color(), self.sprite_pixel(), self.sprite_color(), self.sprite_front())
    }

    /// Whether drawing the next dot sets the sprite-0 hit flag: sprite 0
    /// sits in slot 0 and its opaque pixel meets an opaque background pixel.
    pub open spec fn sprite_zero_hit(&self) -> bool {
        self.dot_color().1 && self.first_sprite(0) == 0 && self.sprite_zero_line
    }

    /// The frame buffer after dot `dot` of visible line `row` is drawn in
    /// the colour of `dot_color`.
    pub open spec fn drawn(&self, row: u32, dot: u32) -> Seq<u8> {
        let off = row as int * 768 + (dot as int - 1) * 3;
        let rgb = master_palette(self.dot_color().0 % 64);
        self.pixels().update(off, rgb.0).update(off + 1, rgb.1).update(off + 2, rgb.2)
    }

    /// The attribute byte loaded into sprite slot `i`.
    pub open spec fn slot_attr(&self, i: int) -> u8 {
        self.s_attrs@[i]
    }

    /// The X counter of sprite slot `i`: dots left before it shows.
    pub open spec fn slot_counter(&self, i: int) -> u8 {
        self.s_counters@[i]
    }

    /// The low and high pattern shifters of sprite slot `i`.
    pub open spec fn slot_pattern(&self, i: int) -> (u8, u8) {
        (self.s_pat_lo@[i], self.s_pat_hi@[i])
    }

    /// The pattern bytes most recently fetched, low plane and high plane.
    pub open spec fn fetched_pattern(&self) -> (u8, u8) {
        (self.l_pt_low, self.l_pt_high)
    }

    /// The nametable byte and palette bits most recently fetched.
    pub open spec fn fetched_tile(&self) -> (u8, u8) {
        (self.l_nametable, self.l_attr)
    }

    /// The upper bytes of the background pattern shifters (the next tile)
    /// and the palette latches.
    pub open spec fn next_tile(&self) -> (u8, u8, bool, bool) {
        ((self.b_pat_lo / 256) as u8, (self.b_pat_hi / 256) as u8, self.latch_lo, self.latch_hi)
    }

    /// The shifter contents after loading the fetched tile: its pattern
    /// bytes bit-reversed (left-most pixel first) and its two palette bits.
    pub open spec fn tile_loaded(&self, before: &Ppu) -> bool {
        let (lo, hi) = before.fetched_pattern();
        let attr = before.fetched_tile().1;
        self.next_tile() == (reversed(lo), reversed(hi), attr % 2 == 1, (attr / 2) % 2 == 1)
    }

    /// What sprite fetch dot `dot` of line `row` reads for its slot of
    /// secondary OAM, low plane or `high` plane.
    pub open spec fn sprite_fetch_byte(&self, row: u32, dot: u32, high: bool) -> u8 {
        let slot = (dot as int - 257) / 8;
        let sec = self.secondary_view();
        self.vram_view()[sprite_pattern_addr(
            self.ctrl(),
            sec[4 * slot + 1],
            sec[4 * slot + 2],
            (row as int - sec[4 * slot] as int) % sprite_height(self.ctrl()),
            high,
        )]
    }

    /// The sprite slot state after the last dot of slot `(dot - 257) / 8`:
    /// its attributes and X counter from secondary OAM, and its pattern
    /// shifters from the fetched bytes, bit-reversed unless the sprite is
    /// flipped horizontally (left-most pixel in bit 0); an empty slot
    /// (Y byte `0xFF`) gets a transparent pattern.
    pub open spec fn slot_loaded(&self, before: &Ppu, dot: u32) -> bool {
        let slot = (dot as int - 257) / 8;
        let sec = before.secondary_view();
        let (lo, hi) = self.fetched_pattern();
        &&& self.slot_attr(slot) == sec[4 * slot + 2]
        &&& self.slot_counter(slot) == sec[4 * slot + 3]
        &&& self.slot_pattern(slot) == if sec[4 * slot] == 0xFF {
            (0u8, 0u8)
        } else if (sec[4 * slot + 2] / 64) % 2 == 1 {
            (lo, hi)
        } else {
            (reversed(lo), reversed(hi))
        }
    }

    pub open spec fn secondary_view(&self) -> Seq<u8> {
        self.secondary_oam@
    }

    pub open spec fn sprite_zero_next(&self) -> bool {
        self.sprite_zero_next
    }

    pub fn background_enabled(&self) -> (r: bool)
        ensures
            r == ((self.mask() / 8) % 2 == 1),
    {
        (self.ppu_mask / 8) % 2 == 1
    }

    pub fn sprites_enabled(&self) -> (r: bool)
        ensures
            r == ((self.mask() / 16) % 2 == 1),
    {
        (self.ppu_mask / 16) % 2 == 1
    }

    pub fn sprites_8x16(&self) -> (r: bool)
        ensures
            r == (sprite_height(self.ctrl()) == 16),
    {
        (self.ppu_ctrl / 32) % 2 == 1
    }

    /// Whether the cartridge mirrors the nametables vertically.
    pub fn vertical_mirror(&self) -> (r: bool)
        ensures
            r == self.vertical_mirroring(),
    {
        self.vertical_mirror
    }

    /// The nametable byte of the tile that `v` points at.
    pub fn read_nametable(&self) -> (r: u8)
        ensures
            r == self.vram_at((0x2000 + self.vram_address() as int % 0x1000) as u16),
    {
        self.vram[vram_addr(0x2000 + self.v % 0x1000, self.vertical_mirror)]
    }

    /// The two palette bits, out of the attribute byte, of the tile that
    /// `v` points at.
    pub fn read_attr(&self) -> (r: u8)
        ensures
            r == self.attr_bits(),
            r < 4,
    {
        let v = self.v;
        let addr: u16 = 0x23C0 + ((v / 0x400) % 4) * 0x400 + ((v / 128) % 8) * 8 + (v / 4) % 8;
        let byte = self.vram[vram_addr(addr, self.vertical_mirror)];
        let shift: u8 = ((v / 64) % 2) as u8 * 4 + ((v / 2) % 2) as u8 * 2;
        (byte >> shift) % 4
    }

    /// A pattern table byte: for the background tile `nt` when `sprite` is
    /// `None`, else for the sprite with OAM Y byte and attributes `sprite`
    /// and tile byte `tile_idx` on the line after `row`.
    pub fn read_pt(&self, row: u32, nt: u8, high: bool, sprite: Option<(u8, u8)>, tile_idx: u8) -> (r: u8)
        ensures
            sprite is None ==> r == self.vram_view()[bg_pattern_addr(self.ctrl(), nt, self.vram_address(), high)],
            sprite matches Some((y, attr)) ==> r == self.vram_view()[sprite_pattern_addr(
                self.ctrl(),
                tile_idx,
                attr,
                (row as int - y as int) % sprite_height(self.ctrl()),
                high,
            )],
    {
        let plane: usize = if high { 8 } else { 0 };
        match sprite {
            None => {
                let table: usize = ((self.ppu_ctrl / 16) % 2) as usize * 0x1000;
                self.vram[table + nt as usize * 16 + ((self.v / 0x1000) % 8) as usize + plane]
            },
            Some((y, attr)) => {
                let h: u32 = if (self.ppu_ctrl / 32) % 2 == 1 { 16 } else { 8 };
                let fine = sprite_fine(row, y, h);
                self.vram[sprite_pattern_index(self.ppu_ctrl, tile_idx, attr, fine, high)]
            },
        }
    }

    /// Sprite evaluation for line `row`: fills secondary OAM with the first
    /// eight sprites that cover the line and sets the overflow flag as the
    /// hardware does, fault included.
    pub fn evaluate_sprites(&mut self, row: u32)
        requires
            old(self).wf(),
            row < 240,
        ensures
            final(self).wf(),
            final(self).same_pixel_inputs(old(self)),
            final(self).fetched_tile() == old(self).fetched_tile() && final(self).fetched_pattern() == old(self).fetched_pattern(),
            final(self).same_registers(old(self)),
            final(self).vram_address() == old(self).vram_address(),
            forall|i: int|
                0 <= i < 32 ==> #[trigger] final(self).secondary_view()[i] == secondary_byte(
                    old(self).oam_view(),
                    row as int,
                    sprite_height(old(self).ctrl()),
                    i,
                ),
            final(self).status() == if sprite_overflow(
                old(self).oam_view(),
                row as int,
                sprite_height(old(self).ctrl()),
            ) {
                old(self).status() | 0x20
            } else {
                old(self).status()
            },
            final(self).sprite_zero_next() == in_range(old(self).oam_view()[0], row as int, sprite_height(old(self).ctrl())),
    {
        let h: u32 = if (self.ppu_ctrl / 32) % 2 == 1 { 16 } else { 8 };
        let ghost oam = self.oam@;
        let ghost r = row as int;
        let ghost hh = h as int;
        let mut sec = [0xFFu8; 32];
        let mut count: usize = 0;
        let mut n: usize = 0;
        while n < 64 && count < 8
            invariant
                n <= 64,
                count <= 8,
                self.oam@ == oam,
                h == 8 || h == 16,
                hh == h as int,
                r == row as int,
                hh == sprite_height(self.ppu_ctrl),
                count == hits_before(oam, r, hh, n as int).len(),
                count == 8 ==> hits_before(oam, r, hh, n as int)[7] == n - 1,
                forall|i: int|
                    0 <= i < 32 ==> #[trigger] sec@[i] == if i / 4 < count {
                        oam[4 * hits_before(oam, r, hh, n as int)[i / 4] + i % 4]
                    } else {
                        0xFFu8
                    },
            decreases 64 - n,
        {
            let y = self.oam[4 * n];
            proof {
                lemma_hits_bounded(oam, r, hh, n as int);
            }
            if (y as u32) <= row && row < (y as u32) + h {
                sec[4 * count] = y;
                sec[4 * count + 1] = self.oam[4 * n + 1];
                sec[4 * count + 2] = self.oam[4 * n + 2];
                sec[4 * count + 3] = self.oam[4 * n + 3];
                count = count + 1;
            }
            n = n + 1;
        }
        proof {
            lemma_hits_prefix(oam, r, hh, n as int, 64);
            lemma_hits_prefix(oam, r, hh, 1, 64);
            lemma_hits_bounded(oam, r, hh, 64);
            assert(hits_before(oam, r, hh, 0) =~= Seq::<int>::empty());
        }
        let y0 = self.oam[0];
        self.sprite_zero_next = (y0 as u32) <= row && row < (y0 as u32) + h;
        let mut over = false;
        if count == 8 {
            let ghost start = n as int;
            let mut m: usize = 0;
            while n < 64 && !over
                invariant
                    n <= 64,
                    m < 4,
                    self.oam@ == oam,
                    h == 8 || h == 16,
                    hh == h as int,
                    r == row as int,
                    over ==> overflow_scan(oam, r, hh, start, 0),
                    !over ==> overflow_scan(oam, r, hh, n as int, m as int) == overflow_scan(oam, r, hh, start, 0),
                decreases 64 - n + if over { 0int } else { 1int },
            {
                let y = self.oam[4 * n + m];
                if (y as u32) <= row && row < (y as u32) + h {
                    over = true;
                } else {
                    n = n + 1;
                    m = (m + 1) % 4;
                }
            }
        }
        if over {
            self.ppu_status = self.ppu_status | 0x20;
        }
        self.secondary_oam = sec;
        proof {
            assert forall|i: int| 0 <= i < 32 implies #[trigger] self.secondary_oam@[i] == secondary_byte(oam, r, hh, i) by {
            }
        }
    }

    fn shift_background(&mut self)
        requires
            old(self).wf(),
        ensures
            final(self).pixels() == old(self).pixels(),
            final(self).wf(),
            final(self).secondary_view() == old(self).secondary_view(),
            final(self).fetched_tile() == old(self).fetched_tile() && final(self).fetched_pattern() == old(self).fetched_pattern(),
            final(self).bg_shifters() == old(self).shifted_bg(),
            final(self).latch_lo == old(self).latch_lo && final(self).latch_hi == old(self).latch_hi,
            final(self).s_pat_lo == old(self).s_pat_lo && final(self).s_pat_hi == old(self).s_pat_hi,
            final(self).s_counters == old(self).s_counters && final(self).s_attrs == old(self).s_attrs,
            final(self).same_registers(old(self)),
            final(self).vram_address() == old(self).vram_address(),
            final(self).status() == old(self).status(),
    {
        self.b_pat_lo = self.b_pat_lo / 2;
        self.b_pat_hi = self.b_pat_hi / 2;
        self.b_pal_lo = self.b_pal_lo / 2 + if self.latch_lo { 128 } else { 0 };
        self.b_pal_hi = self.b_pal_hi / 2 + if self.latch_hi { 128 } else { 0 };
    }

    /// The background fetch of dot `dot` (nametable, attribute, pattern low,
    /// pattern high on the odd dots of each tile slot), and at the end of the
    /// slot the load of the fetched tile into the shift registers.
    fn background_fetch(&mut self, row: u32, dot: u32)
        requires
            old(self).wf(),
            dot < 341,
        ensures
            final(self).wf(),
            dot % 8 == 2 ==> final(self).fetched_tile().0 == old(self).vram_at(
                (0x2000 + old(self).vram_address() as int % 0x1000) as u16,
            ),
            dot % 8 == 4 ==> final(self).fetched_tile().1 == old(self).attr_bits(),
            dot % 8 == 6 ==> final(self).fetched_pattern().0 == old(self).vram_view()[bg_pattern_addr(
                old(self).ctrl(),
                old(self).fetched_tile().0,
                old(self).vram_address(),
                false,
            )],
            dot % 8 == 0 ==> final(self).fetched_pattern().1 == old(self).vram_view()[bg_pattern_addr(
                old(self).ctrl(),
                old(self).fetched_tile().0,
                old(self).vram_address(),
                true,
            )],
            dot % 8 != 2 ==> final(self).fetched_tile().0 == old(self).fetched_tile().0,
            dot % 8 != 4 ==> final(self).fetched_tile().1 == old(self).fetched_tile().1,
            dot % 8 != 6 ==> final(self).fetched_pattern().0 == old(self).fetched_pattern().0,
            dot % 8 != 0 ==> final(self).fetched_pattern().1 == old(self).fetched_pattern().1,
            final(self).secondary_view() == old(self).secondary_view(),
            final(self).same_pixel_inputs(old(self)),
            final(self).same_registers(old(self)),
            final(self).vram_address() == old(self).vram_address(),
            final(self).status() == old(self).status(),
    {
        let rel = (dot + 7) % 8;
        if rel == 1 {
            self.l_nametable = self.read_nametable();
        } else if rel == 3 {
            self.l_attr = self.read_attr();
        } else if rel == 5 {
            self.l_pt_low = self.read_pt(row, self.l_nametable, false, None, 0);
        } else if rel == 7 {
            self.l_pt_high = self.read_pt(row, self.l_nametable, true, None, 0);
        }
    }

    fn load_background(&mut self)
        requires
            old(self).wf(),
        ensures
            final(self).wf(),
            final(self).tile_loaded(old(self)),
            final(self).secondary_view() == old(self).secondary_view(),
            final(self).pixels() == old(self).pixels(),
            final(self).fetched_tile() == old(self).fetched_tile() && final(self).fetched_pattern() == old(self).fetched_pattern(),
            final(self).b_pal_lo == old(self).b_pal_lo && final(self).b_pal_hi == old(self).b_pal_hi,
            final(self).b_pat_lo % 256 == old(self).b_pat_lo % 256 && final(self).b_pat_hi % 256 == old(self).b_pat_hi % 256,
            final(self).s_pat_lo == old(self).s_pat_lo && final(self).s_pat_hi == old(self).s_pat_hi,
            final(self).s_counters == old(self).s_counters && final(self).s_attrs == old(self).s_attrs,
            final(self).same_registers(old(self)),
            final(self).vram_address() == old(self).vram_address(),
            final(self).status() == old(self).status(),
            *final(self) == (Ppu {
                b_pat_lo: final(self).b_pat_lo,
                b_pat_hi: final(self).b_pat_hi,
                latch_lo: final(self).latch_lo,
                latch_hi: final(self).latch_hi,
                ..*old(self)
            }),
    {
        let lo = reverse_bits(self.l_pt_low);
        let hi = reverse_bits(self.l_pt_high);
        proof {
            lemma_upper_byte(self.b_pat_lo, lo);
            lemma_upper_byte(self.b_pat_hi, hi);
        }
        self.b_pat_lo = (self.b_pat_lo % 256) | ((lo as u16) << 8);
        self.b_pat_hi = (self.b_pat_hi % 256) | ((hi as u16) << 8);
        self.latch_lo = self.l_attr % 2 == 1;
        self.latch_hi = (self.l_attr / 2) % 2 == 1;
    }

    /// Sprite fetches of dots 257 to 320: eight dots for each slot of
    /// secondary OAM, whose pattern, attributes and X counter are loaded on
    /// the last one.
    fn sprite_fetch(&mut self, row: u32, dot: u32)
        requires
            old(self).wf(),
            257 <= dot <= 320,
        ensures
            final(self).wf(),
            dot % 8 == 6 ==> final(self).fetched_pattern().0 == old(self).sprite_fetch_byte(row, dot, false),
            dot % 8 == 0 ==> final(self).fetched_pattern() == (
                old(self).fetched_pattern().0,
                old(self).sprite_fetch_byte(row, dot, true),
            ),
            dot % 8 == 0 ==> final(self).slot_loaded(old(self), dot),
            final(self).pixels() == old(self).pixels(),
            final(self).bg_shifters() == old(self).bg_shifters(),
            final(self).latch_lo == old(self).latch_lo && final(self).latch_hi == old(self).latch_hi,
            dot % 8 != 0 ==> final(self).s_pat_lo == old(self).s_pat_lo && final(self).s_pat_hi == old(self).s_pat_hi
                && final(self).s_counters == old(self).s_counters && final(self).s_attrs == old(self).s_attrs,
            final(self).same_registers(old(self)),
            final(self).vram_address() == old(self).vram_address(),
            final(self).status() == old(self).status(),
    {
        if dot == 257 {
            self.sprite_zero_line = self.sprite_zero_next;
        }
        let rel = (dot + 7) % 8;
        let slot: usize = ((dot - 257) / 8) as usize;
        let y = self.secondary_oam[slot * 4];
        let tile = self.secondary_oam[slot * 4 + 1];
        let attr = self.secondary_oam[slot * 4 + 2];
        let xpos = self.secondary_oam[slot * 4 + 3];
        if rel == 5 {
            self.l_pt_low = self.read_pt(row, 0, false, Some((y, attr)), tile);
        } else if rel == 7 {
            self.l_pt_high = self.read_pt(row, 0, true, Some((y, attr)), tile);
        }
        if dot % 8 == 0 {
            if y == 0xFF {
                self.s_pat_lo[slot] = 0;
                self.s_pat_hi[slot] = 0;
            } else if (attr / 64) % 2 == 1 {
                self.s_pat_lo[slot] = self.l_pt_low;
                self.s_pat_hi[slot] = self.l_pt_high;
            } else {
                self.s_pat_lo[slot] = reverse_bits(self.l_pt_low);
                self.s_pat_hi[slot] = reverse_bits(self.l_pt_high);
            }
            self.s_attrs[slot] = attr;
            self.s_counters[slot] = xpos;
        }
    }

    /// Outputs the pixel of dot `dot` on visible line `row` and shifts the
    /// pipelines; an opaque pixel of sprite 0 over an opaque background
    /// pixel sets the sprite-0 hit flag.
    fn draw_pixel(&mut self, row: u32, dot: u32)
        requires
            old(self).wf(),
            row < 240,
            1 <= dot <= 256,
        ensures
            final(self).wf(),
            final(self).secondary_view() == old(self).secondary_view(),
            final(self).fetched_tile() == old(self).fetched_tile() && final(self).fetched_pattern() == old(self).fetched_pattern(),
            final(self).bg_shifters() == old(self).shifted_bg(),
            final(self).latch_lo == old(self).latch_lo && final(self).latch_hi == old(self).latch_hi,
            old(self).sprites_stepped(final(self)),
            final(self).same_registers(old(self)),
            final(self).vram_address() == old(self).vram_address(),
            final(self).status() == if old(self).sprite_zero_hit() {
                old(self).status() | 0x40
            } else {
                old(self).status()
            },
            final(self).pixels() == old(self).drawn(row, dot),
    {
        let fx = self.x % 8;
        let bg_raw: u8 = (((self.b_pat_hi >> fx) % 2) * 2 + (self.b_pat_lo >> fx) % 2) as u8;
        let bg_pal: u8 = ((self.b_pal_hi >> fx) % 2) * 2 + (self.b_pal_lo >> fx) % 2;
        let bg_pixel = if self.background_enabled() { bg_raw } else { 0 };
        let bg_col = if bg_pixel == 0 {
            self.vram[0x3F00]
        } else {
            self.vram[0x3F00 + bg_pal as usize * 4 + bg_pixel as usize]
        };
        let mut spr_pixel: u8 = 0;
        let mut spr_col: u8 = 0;
        let mut front = true;
        let mut spr_slot: usize = 8;
        let mut i: usize = 0;
        let ghost first = old(self).first_sprite(0);
        proof {
            old(self).lemma_first_sprite_bounds(0);
        }
        while i < 8
            invariant
                i <= 8,
                spr_pixel < 4,
                self.same_registers(old(self)),
                self.v == old(self).v,
                self.ppu_status == old(self).ppu_status,
                self.secondary_oam == old(self).secondary_oam,
                self.s_attrs == old(self).s_attrs,
                self.pixel_data == old(self).pixel_data,
                self.sprite_zero_line == old(self).sprite_zero_line,
                self.l_nametable == old(self).l_nametable && self.l_attr == old(self).l_attr,
                self.l_pt_low == old(self).l_pt_low && self.l_pt_high == old(self).l_pt_high,
                self.wf(),
                first == old(self).first_sprite(0),
                forall|j: int|
                    i <= j < 8 ==> self.s_counters@[j] == old(self).s_counters@[j] && self.s_pat_lo@[j]
                        == old(self).s_pat_lo@[j] && self.s_pat_hi@[j] == old(self).s_pat_hi@[j],
                self.b_pat_lo == old(self).b_pat_lo && self.b_pat_hi == old(self).b_pat_hi,
                self.b_pal_lo == old(self).b_pal_lo && self.b_pal_hi == old(self).b_pal_hi,
                self.latch_lo == old(self).latch_lo && self.latch_hi == old(self).latch_hi,
                forall|j: int|
                    0 <= j < i ==> if #[trigger] old(self).s_counters@[j] == 0 {
                        self.s_counters@[j] == 0 && self.s_pat_lo@[j] == old(self).s_pat_lo@[j] / 2
                            && self.s_pat_hi@[j] == old(self).s_pat_hi@[j] / 2
                    } else {
                        self.s_counters@[j] == old(self).s_counters@[j] - 1 && self.s_pat_lo@[j]
                            == old(self).s_pat_lo@[j] && self.s_pat_hi@[j] == old(self).s_pat_hi@[j]
                    },
                (spr_pixel != 0) == (first < i),
                first < i ==> spr_slot == first && spr_pixel == old(self).slot_pixel(first) && spr_col
                    == old(self).vram@[0x3F10 + (old(self).s_attrs@[first] % 4) * 4 + old(self).slot_pixel(
                    first,
                )] && front == ((old(self).s_attrs@[first] / 32) % 2 == 0),
                first >= i ==> first == old(self).first_sprite(i as int) && spr_slot == 8 && spr_col == 0
                    && front,
            decreases 8 - i,
        {
            proof {
                old(self).lemma_first_sprite_bounds(i as int);
                old(self).lemma_first_sprite_bounds(i as int + 1);
            }
            if self.s_counters[i] == 0 {
                let p: u8 = (self.s_pat_hi[i] % 2) * 2 + self.s_pat_lo[i] % 2;
                self.s_pat_hi[i] = self.s_pat_hi[i] / 2;
                self.s_pat_lo[i] = self.s_pat_lo[i] / 2;
                if p != 0 && spr_pixel == 0 {
                    spr_pixel = p;
                    spr_col = self.vram[0x3F10 + (self.s_attrs[i] % 4) as usize * 4 + p as usize];
                    front = (self.s_attrs[i] / 32) % 2 == 0;
                    spr_slot = i;
                }
            } else {
                self.s_counters[i] = self.s_counters[i] - 1;
            }
            i = i + 1;
        }
        if !self.sprites_enabled() {
            spr_pixel = 0;
        }
        let (col, overlap) = mux(bg_pixel, bg_col, spr_pixel, spr_col, front);
        assert((col, overlap) == old(self).dot_color());
        if overlap && spr_slot == 0 && self.sprite_zero_line {
            self.ppu_status = self.ppu_status | 0x40;
        }
        let (red, green, blue) = palette_rgb(col % 64);
        let px: usize = (dot - 1) as usize;
        let py: usize = row as usize;
        assert(py * 768 <= 239 * 768) by (nonlinear_arith)
            requires
                py < 240,
        ;
        let offset = py * 768 + px * 3;
        self.pixel_data.set(offset, red);
        self.pixel_data.set(offset + 1, green);
        self.pixel_data.set(offset + 2, blue);
        self.shift_background();
    }

    /// Applies the scroll updates of dot `dot` of line `row` to `v`.
    fn update_scroll(&mut self, row: u32, dot: u32)
        ensures
            *final(self) == (Ppu {
                v: v_after_dot(old(self).v, old(self).t, row, dot, rendering_enabled(old(self).ppu_mask)),
                ..*old(self)
            }),
    {
        let rendering = (self.ppu_mask / 8) % 4 != 0;
        let mut v = self.v;
        if dot == 256 {
            v = increment_y(v);
        }
        if ((1 <= dot && dot <= 256) || (321 <= dot && dot <= 336)) && dot % 8 == 0 {
            v = increment_x(v);
        }
        if dot == 257 {
            v = (v & 0xFBE0) | (self.t & 0x041F);
        }
        if rendering && row == 261 && 280 <= dot && dot <= 304 {
            v = (v & 0x841F) | (self.t & 0x7BE0);
        }
        self.v = v;
    }

    /// The background shift registers: pattern low and high, palette low
    /// and high.
    pub open spec fn bg_shifters(&self) -> (u16, u16, u8, u8) {
        (self.b_pat_lo, self.b_pat_hi, self.b_pal_lo, self.b_pal_hi)
    }

    /// The background shift registers after one shift: the pattern shifters
    /// move right by a bit, the palette shifters take in their latch bits.
    pub open spec fn shifted_bg(&self) -> (u16, u16, u8, u8) {
        (
            self.b_pat_lo / 2,
            self.b_pat_hi / 2,
            (self.b_pal_lo / 2 + if self.latch_lo { 128int } else { 0int }) as u8,
            (self.b_pal_hi / 2 + if self.latch_hi { 128int } else { 0int }) as u8,
        )
    }

    /// The sprite slots after a drawn dot: a running X counter goes down by
    /// one; a slot whose counter has run out shifts its pattern right.
    pub open spec fn sprites_stepped(&self, after: &Ppu) -> bool {
        &&& after.s_attrs == self.s_attrs
        &&& slots_stepped(
            self.s_counters@,
            self.s_pat_lo@,
            self.s_pat_hi@,
            after.s_counters@,
            after.s_pat_lo@,
            after.s_pat_hi@,
        )
    }

    /// Registers, `v`, status flags and secondary OAM over one rendering dot.
    pub open spec fn render_registers(&self, after: &Ppu, row: u32, dot: u32) -> bool {
        &&& after.same_registers(self)
        &&& after.vram_address() == v_after_dot(
            self.vram_address(),
            self.temp_address(),
            row,
            dot,
            rendering_enabled(self.mask()),
        )
        &&& (row == 261 && dot == 1 ==> after.status() == self.status() & 0x1F)
        &&& (1 <= dot <= 64 ==> after.secondary_view() == if dot % 2 == 0 {
            self.secondary_view().update((dot as int - 1) / 2, 0xFF)
        } else {
            self.secondary_view()
        })
        &&& (row < 240 && dot == 256 ==> forall|i: int|
            0 <= i < 32 ==> #[trigger] after.secondary_view()[i] == secondary_byte(
                self.oam_view(),
                row as int,
                sprite_height(self.ctrl()),
                i,
            ))
        &&& (!(row == 261 && dot == 1) ==> (after.status() >= 0x80) == (self.status() >= 0x80))
        &&& (row < 240 && 1 <= dot <= 256 ==> (after.status() & 0x40 == 0x40) == (self.sprite_zero_hit()
            || self.status() & 0x40 == 0x40))
        &&& (!(row < 240 && 1 <= dot <= 256) && !(row == 261 && dot == 1) ==> after.status() & 0x40
            == self.status() & 0x40)
        &&& (row < 240 && dot == 256 ==> (after.status() & 0x20 == 0x20) == (sprite_overflow(
            self.oam_view(),
            row as int,
            sprite_height(self.ctrl()),
        ) || self.status() & 0x20 == 0x20))
        &&& (!(row < 240 && dot == 256) && !(row == 261 && dot == 1) ==> after.status() & 0x20
            == self.status() & 0x20)
    }

    /// The frame buffer over one rendering dot.
    pub open spec fn render_output(&self, after: &Ppu, row: u32, dot: u32) -> bool {
        &&& (row < 240 && 1 <= dot <= 256 ==> after.pixels() == self.drawn(row, dot))
        &&& (!(row < 240 && 1 <= dot <= 256) ==> after.pixels() == self.pixels())
    }

    /// Fetches, shift registers and sprite slots over one rendering dot.
    pub open spec fn render_pipeline(&self, after: &Ppu, row: u32, dot: u32) -> bool {
        &&& self.render_fetches(after, row, dot)
        &&& self.render_shifts(after, row, dot)
    }

    /// The fetches of one rendering dot.
    pub open spec fn render_fetches(&self, after: &Ppu, row: u32, dot: u32) -> bool {
        &&& (fetch_dot(dot) && dot % 8 == 2 ==> after.fetched_tile().0 == self.vram_at(
            (0x2000 + self.vram_address() as int % 0x1000) as u16,
        ))
        &&& (fetch_dot(dot) && dot % 8 == 4 ==> after.fetched_tile().1 == self.attr_bits())
        &&& (fetch_dot(dot) && dot % 8 == 6 ==> after.fetched_pattern().0 == self.vram_view()[bg_pattern_addr(
            self.ctrl(),
            self.fetched_tile().0,
            self.vram_address(),
            false,
        )])
        &&& (fetch_dot(dot) && dot % 8 == 0 ==> after.fetched_pattern().1 == self.vram_view()[bg_pattern_addr(
            self.ctrl(),
            self.fetched_tile().0,
            self.vram_address(),
            true,
        )] && after.next_tile() == (
            reversed(self.fetched_pattern().0),
            reversed(after.fetched_pattern().1),
            self.fetched_tile().1 % 2 == 1,
            (self.fetched_tile().1 / 2) % 2 == 1,
        ))
        &&& (257 <= dot <= 320 && dot % 8 == 6 ==> after.fetched_pattern().0 == self.sprite_fetch_byte(
            row,
            dot,
            false,
        ))
        &&& (257 <= dot <= 320 && dot % 8 == 0 ==> after.fetched_pattern().1 == self.sprite_fetch_byte(
            row,
            dot,
            true,
        ) && after.slot_loaded(self, dot))
    }

    /// The background shift registers and sprite slots over one rendering dot.
    pub open spec fn render_shifts(&self, after: &Ppu, row: u32, dot: u32) -> bool {
        &&& (fetch_dot(dot) && dot % 8 != 0 ==> after.bg_shifters() == self.shifted_bg())
        &&& (fetch_dot(dot) && dot % 8 == 0 ==> {
            &&& after.b_pal_lo == self.shifted_bg().2
            &&& after.b_pal_hi == self.shifted_bg().3
            &&& after.b_pat_lo % 256 == self.shifted_bg().0 % 256
            &&& after.b_pat_hi % 256 == self.shifted_bg().1 % 256
        })
        &&& (!fetch_dot(dot) ==> after.bg_shifters() == self.bg_shifters() && after.latch_lo == self.latch_lo
            && after.latch_hi == self.latch_hi)
        &&& (row < 240 && 1 <= dot <= 256 ==> self.sprites_stepped(after))
        &&& (!(row < 240 && 1 <= dot <= 256) && !(257 <= dot <= 320 && dot % 8 == 0) ==> after.s_pat_lo
            == self.s_pat_lo && after.s_pat_hi == self.s_pat_hi && after.s_counters == self.s_counters
            && after.s_attrs == self.s_attrs)
    }

    /// What one dot of rendering line `row` (visible or pre-render) does:
    /// the registers stay, `v` follows the scroll updates, VBlank and the
    /// sprite flags change only where stated, the dot's pixel is drawn,
    /// the fetches read what they are due to read, and the shift registers
    /// and sprite slots move on.
    #[verifier::opaque]
    pub open spec fn render_step(&self, after: &Ppu, row: u32, dot: u32) -> bool {
        &&& self.render_registers(after, row, dot)
        &&& self.render_output(after, row, dot)
        &&& self.render_pipeline(after, row, dot)
    }

    /// One dot of a rendering line (visible or pre-render): status clear,
    /// secondary OAM clear, sprite evaluation and fetches, background
    /// fetches, pixel output and scroll updates.
    #[verifier::spinoff_prover]
    #[verifier::rlimit(100)]
    pub fn render_cycle(&mut self, row: u32, cycle: u32)
        requires
            old(self).wf(),
            row < 240 || row == 261,
            cycle < 341,
        ensures
            final(self).wf(),
            final(self).same_registers(old(self)),
            old(self).render_step(final(self), row, cycle),
    {
        proof {
            lemma_flag_bits(self.ppu_status);
        }
        if row == 261 && cycle == 1 {
            self.ppu_status = self.ppu_status & 0x1F;
        }
        if 1 <= cycle && cycle <= 64 && cycle % 2 == 0 {
            self.secondary_oam[((cycle - 1) / 2) as usize] = 0xFF;
        }
        if cycle == 256 && row < 240 {
            proof {
                lemma_flag_bits(self.ppu_status);
            }
            self.evaluate_sprites(row);
            proof {
                lemma_flag_bits(self.ppu_status);
            }
        }
        let fetch = (1 <= cycle && cycle <= 256) || (321 <= cycle && cycle <= 336);
        if fetch {
            self.background_fetch(row, cycle);
        }
        let ghost pre = *self;
        assert(pre.bg_shifters() == old(self).bg_shifters() && pre.shifted_bg() == old(self).shifted_bg());
        assert(pre.s_counters == old(self).s_counters && pre.s_pat_lo == old(self).s_pat_lo
            && pre.s_pat_hi == old(self).s_pat_hi && pre.s_attrs == old(self).s_attrs);
        if 1 <= cycle && cycle <= 256 && row < 240 {
            proof {
                lemma_flag_bits(self.ppu_status);
            }
            self.draw_pixel(row, cycle);
        } else if fetch {
            self.shift_background();
        }
        let ghost drawn = *self;
        if fetch && cycle % 8 == 0 {
            self.load_background();
        }
        assert(self.s_counters == drawn.s_counters && self.s_pat_lo == drawn.s_pat_lo
            && self.s_pat_hi == drawn.s_pat_hi && self.s_attrs == drawn.s_attrs);
        if 1 <= cycle && cycle <= 256 && row < 240 {
            assert(pre.sprites_stepped(&drawn));
            assert(pre.sprites_stepped(self));
        }
        if 257 <= cycle && cycle <= 320 {
            self.sprite_fetch(row, cycle);
        }
        assert(pre.render_shifts(self, row, cycle));
        self.update_scroll(row, cycle);
        assert(old(self).render_registers(self, row, cycle));
        assert(old(self).render_output(self, row, cycle));
        assert(old(self).render_fetches(self, row, cycle));
        assert(old(self).render_shifts(self, row, cycle));
        proof {
            reveal(Ppu::render_step);
        }
    }

    /// One dot from `self` to `after`, reporting `t`. On a rendering line
    /// the dot at the counter does `render_step`; on other lines nothing
    /// changes but VBlank, which entering dot 1 of line 241 sets, with an
    /// NMI request when PPUCTRL bit 7 is set. The counter moves on by one,
    /// and the frame is ready when it wraps.
    pub open spec fn tick(&self, after: &Ppu, t: Tick) -> bool {
        let row = (self.cycle / DOTS) as u32;
        let dot = (self.cycle % DOTS) as u32;
        let next = ((self.cycle + 1) % (DOTS * LINES)) as u32;
        let vblank = next == 241 * DOTS + 1;
        &&& after.cycle == next
        &&& after.same_registers(&Ppu { cycle: next, ..*self })
        &&& t.nmi == (vblank && self.ppu_ctrl >= 0x80)
        &&& t.frame_ready == (next == 0)
        &&& (row < 240 || row == 261) ==> self.render_step(&Ppu { cycle: self.cycle, ..*after }, row, dot)
        &&& !(row < 240 || row == 261) ==> (Ppu {
            cycle: self.cycle,
            ppu_status: self.ppu_status,
            ..*after
        }) == *self && after.ppu_status == if vblank {
            self.ppu_status | 0x80
        } else {
            self.ppu_status
        }
    }

    /// Advances the PPU by one dot. Entering dot 1 of line 241 sets VBlank
    /// and, with PPUCTRL bit 7 set, asks for an NMI; the frame is ready when
    /// the counter wraps to the first dot of the frame.
    pub fn cycle(&mut self) -> (r: Tick)
        requires
            old(self).wf(),
        ensures
            final(self).wf(),
            old(self).tick(final(self), r),
            final(self).dot_count() == (old(self).dot_count() + 1) % (DOTS * LINES) as nat,
            r.nmi == (final(self).dot_count() == 241 * DOTS + 1 && old(self).ctrl() >= 0x80),
            final(self).dot_count() == 241 * DOTS + 1 ==> final(self).status() >= 0x80,
            r.frame_ready == (final(self).dot_count() == 0),
            final(self).ctrl() == old(self).ctrl() && final(self).mask() == old(self).mask(),
            final(self).oam_view() == old(self).oam_view() && final(self).vram_view() == old(self).vram_view(),
            final(self).temp_address() == old(self).temp_address(),
            final(self).write_toggle() == old(self).write_toggle(),
    {
        let ghost c0 = self.cycle;
        let row = self.cycle / DOTS;
        let dot = self.cycle % DOTS;
        if row < 240 || row == 261 {
            self.render_cycle(row, dot);
        }
        let ghost mid = *self;
        self.cycle = (self.cycle + 1) % (DOTS * LINES);
        let mut nmi = false;
        if self.cycle == 241 * DOTS + 1 {
            proof {
                lemma_flag_bits(self.ppu_status);
            }
            self.ppu_status = self.ppu_status | 0x80;
            nmi = self.ppu_ctrl >= 0x80;
        }
        proof {
            if row < 240 || row == 261 {
                assert(c0 < 240 * 341 || c0 >= 261 * 341) by (nonlinear_arith)
                    requires
                        row == c0 / 341,
                        row < 240 || row == 261,
                ;
                assert(mid.cycle == c0 && c0 < 89342);
                assert(self.cycle == (c0 + 1) % 89342);
                assert(self.cycle != 241 * DOTS + 1);
                assert((Ppu { cycle: old(self).cycle, ..*self }) == mid);
            } else {
                assert(mid == *old(self));
            }
        }
        Tick { nmi, frame_ready: self.cycle == 0 }
    }

    /// The RGB frame buffer, 256 by 240 pixels of three bytes, row by row.
    pub fn pixel_data(&self) -> (r: &Vec<u8>)
        ensures
            r@ == self.pixels(),
    {
        &self.pixel_data
    }
}

proof fn lemma_addr_latch(t: u16, hi: u8, lo: u8)
    by (bit_vector)
    ensures
        (((t & 0x00FF) | (((hi as u16) & 0x3F) << 8)) & 0xFF00) | (lo as u16) == ((hi & 0x3F) as u16) * 256
            + (lo as u16),
{
}

impl Ppu {
    /// The PPU after both bytes of an address are written to PPUADDR.
    pub open spec fn after_address(self, hi: u8, lo: u8) -> Ppu {
        self.after_reg_write(0x2006, hi).after_reg_write(0x2006, lo)
    }

    /// With the write toggle clear, writing `hi` then `lo` to PPUADDR
    /// points `v` at `(hi & 0x3F) << 8 | lo` and clears the toggle again;
    /// VRAM, PPUCTRL and the mirroring stay.
    pub proof fn lemma_address(self, hi: u8, lo: u8)
        requires
            !self.write_toggle(),
        ensures
            self.after_address(hi, lo).vram_address() == ((hi & 0x3F) as u16) * 256 + lo as u16,
            !self.after_address(hi, lo).write_toggle(),
            self.after_address(hi, lo).vram_view() == self.vram_view(),
            self.after_address(hi, lo).vertical_mirroring() == self.vertical_mirroring(),
            self.after_address(hi, lo).ctrl() == self.ctrl(),
    {
        let q = self.after_reg_write(0x2006, hi);
        assert(q.t == (self.t & 0x00FF) | (((hi as u16) & 0x3F) << 8) && q.w);
        lemma_addr_latch(self.t, hi, lo);
    }

    /// A PPUDATA write at a nametable or palette address stores the byte
    /// where that address is kept; the toggle, mirroring and PPUCTRL stay.
    pub proof fn lemma_data_write(self, val: u8)
        requires
            self.vram_address() % 0x4000 >= 0x2000,
        ensures
            self.after_reg_write(0x2007, val).vram_view() == self.vram_view().update(
                vram_index(self.vram_address(), self.vertical_mirroring()),
                val,
            ),
            self.after_reg_write(0x2007, val).write_toggle() == self.write_toggle(),
            self.after_reg_write(0x2007, val).vertical_mirroring() == self.vertical_mirroring(),
            self.after_reg_write(0x2007, val).ctrl() == self.ctrl(),
    {
    }
}

/// The sprite palette entries `$3F10/14/18/1C` are the background entries
/// `$3F00/04/08/0C`: a byte written through PPUDATA at one address reads
/// back directly through PPUDATA at the other, either way round.
pub proof fn lemma_palette_mirror(p: Ppu, k: u8, val: u8)
    requires
        k < 4,
        !p.write_toggle(),
    ensures
        vram_index((0x3F10 + 4 * k) as u16, p.vertical_mirroring()) == vram_index(
            (0x3F00 + 4 * k) as u16,
            p.vertical_mirroring(),
        ),
        p.after_address(0x3F, (0x10 + 4 * k) as u8).after_reg_write(0x2007, val).after_address(
            0x3F,
            (4 * k) as u8,
        ).reg_read_value(0x2007) == val,
        p.after_address(0x3F, (4 * k) as u8).after_reg_write(0x2007, val).after_address(
            0x3F,
            (0x10 + 4 * k) as u8,
        ).reg_read_value(0x2007) == val,
{
    assert(0x3Fu8 & 0x3F == 0x3F) by (bit_vector);
    let hi_addr = (0x10 + 4 * k) as u8;
    let lo_addr = (4 * k) as u8;
    p.lemma_address(0x3F, hi_addr);
    let at_high = p.after_address(0x3F, hi_addr);
    at_high.lemma_data_write(val);
    let high_written = at_high.after_reg_write(0x2007, val);
    high_written.lemma_address(0x3F, lo_addr);
    p.lemma_address(0x3F, lo_addr);
    let at_low = p.after_address(0x3F, lo_addr);
    at_low.lemma_data_write(val);
    let low_written = at_low.after_reg_write(0x2007, val);
    low_written.lemma_address(0x3F, hi_addr);
}

/// Reading PPUSTATUS clears VBlank and the write toggle: with VBlank set,
/// two reads in a row report it set and then clear, and agree in bits 0 to
/// 6. After a read, two PPUADDR writes set `v` whatever came before.
pub proof fn lemma_status_read_clears(p: Ppu, hi: u8, lo: u8)
    requires
        p.status() >= 0x80,
    ensures
        p.reg_read_value(0x2002) >= 0x80,
        !p.after_reg_read(0x2002).write_toggle(),
        p.after_reg_read(0x2002).reg_read_value(0x2002) < 0x80,
        p.after_reg_read(0x2002).reg_read_value(0x2002) == p.reg_read_value(0x2002) & 0x7F,
        p.after_reg_read(0x2002).after_address(hi, lo).vram_address() == ((hi & 0x3F) as u16) * 256
            + lo as u16,
{
    lemma_flag_bits(p.status());
    p.after_reg_read(0x2002).lemma_address(hi, lo);
}

} // verus!
