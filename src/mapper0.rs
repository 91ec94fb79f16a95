use vstd::prelude::*;

use vstd::array::spec_array_update;

use crate::controller::NesController;
use crate::cpu::{lemma_push_all_sp, push_all, word, Cpu, MemoryDevice};
use crate::ppu::{Ppu, Tick, DOTS, LINES};

verus! {

/// The mapper-0 (NROM) bus: 2 KiB of RAM, the PPU registers, the
/// controller port and a fixed PRG-ROM window at `$8000` to `$FFFF`.
pub struct Mapper0 {
    pub memory: [u8; 2048],
    pub ppu: Ppu,
    pub controller: NesController,
    pub prg_rom: Vec<u8>,
    pub prg_rom_size: usize,
}

/// Where CPU address `addr` of the PRG-ROM window falls in a ROM of `size`
/// bytes: `(addr - $8000) mod size`.
pub open spec fn prg_index(addr: u16, size: int) -> int {
    ((addr as int + 0x8000) % 0x10000) % size
}

impl Mapper0 {
    pub open spec fn ram(&self) -> Seq<u8> {
        self.memory@
    }

    pub open spec fn video(&self) -> Ppu {
        self.ppu
    }

    pub open spec fn pad(&self) -> NesController {
        self.controller
    }

    pub open spec fn prg(&self) -> Seq<u8> {
        self.prg_rom@.subrange(0, self.prg_rom_size as int)
    }

    /// The bus after an OAM DMA from page `page` has copied bytes `i` to 255.
    pub open spec fn dma_from(self, page: u8, i: int) -> Mapper0
        decreases 256 - i,
    {
        if i >= 256 || i < 0 {
            self
        } else {
            let addr = (page as int * 256 + i) as u16;
            let b = self.peek(addr);
            let m = self.after_read(addr);
            let m2 = Mapper0 {
                ppu: m.ppu.with_oam_byte((m.ppu.oam_address() as int + i) % 256, b),
                ..m
            };
            m2.dma_from(page, i + 1)
        }
    }

    /// A bus over `prg_rom_size` bytes of `prg_rom` and `chr_rom_size`
    /// bytes of `chr_rom`, with the cartridge's nametable mirroring.
    pub fn new(
        prg_rom: Vec<u8>,
        prg_rom_size: usize,
        chr_rom: Vec<u8>,
        chr_rom_size: usize,
        vertical_mirror: bool,
    ) -> (r: Self)
        requires
            1 <= prg_rom_size <= prg_rom@.len(),
            chr_rom_size <= chr_rom@.len(),
            chr_rom_size <= 0x2000,
        ensures
            r.inv(),
            r.ram() == Seq::new(2048, |i: int| 0u8),
            r.prg() == prg_rom@.subrange(0, prg_rom_size as int),
            r.pad().shift_index() == 0,
            r.pad().buttons() == seq![false, false, false, false, false, false, false, false],
            r.video().power_up(chr_rom@, chr_rom_size as nat, vertical_mirror),
    {
        let r = Mapper0 {
            memory: [0u8; 2048],
            ppu: Ppu::new(chr_rom, chr_rom_size, vertical_mirror),
            controller: NesController::new(),
            prg_rom,
            prg_rom_size,
        };
        assert(r.memory@ =~= Seq::new(2048, |i: int| 0u8));
        r
    }
}

impl Mapper0 {
    pub open spec fn bus_inv(&self) -> bool {
        &&& self.ppu.wf()
        &&& self.controller.wf()
        &&& 1 <= self.prg_rom_size <= self.prg_rom@.len()
    }

    /// RAM mirrored every 2 KiB below `$2000`; the eight PPU registers
    /// mirrored up to `$3FFF`; the controller at `$4016`; 0 for the rest of
    /// `$4000` to `$401F`; PRG-ROM from `$4020` up.
    pub open spec fn bus_peek(&self, addr: u16) -> u8 {
        if addr < 0x2000 {
            self.memory@[addr as int % 0x800]
        } else if addr < 0x4000 {
            self.ppu.reg_read_value((0x2000 + addr as int % 8) as u16)
        } else if addr == 0x4016 {
            self.controller.read_spec().0
        } else if addr < 0x4020 {
            0
        } else {
            self.prg_rom@[prg_index(addr, self.prg_rom_size as int)]
        }
    }

    pub open spec fn bus_after_read(&self, addr: u16) -> Mapper0 {
        if 0x2000 <= addr < 0x4000 {
            Mapper0 { ppu: self.ppu.after_reg_read((0x2000 + addr as int % 8) as u16), ..*self }
        } else if addr == 0x4016 {
            Mapper0 { controller: self.controller.read_spec().1, ..*self }
        } else {
            *self
        }
    }

    /// RAM and PPU registers as for reads; `$4014` starts an OAM DMA from
    /// page `val`; `$4016` with bit 0 set strobes the controller; all other
    /// writes, PRG-ROM included, are ignored.
    pub open spec fn bus_after_write(&self, addr: u16, val: u8) -> Mapper0 {
        if addr < 0x2000 {
            Mapper0 { memory: spec_array_update(self.memory, addr as int % 0x800, val), ..*self }
        } else if addr < 0x4000 {
            Mapper0 { ppu: self.ppu.after_reg_write((0x2000 + addr as int % 8) as u16, val), ..*self }
        } else if addr == 0x4014 {
            self.dma_from(val, 0)
        } else if addr == 0x4016 && val % 2 == 1 {
            Mapper0 { controller: self.controller.with_index(0), ..*self }
        } else {
            *self
        }
    }
}

impl MemoryDevice for Mapper0 {
    open spec fn inv(&self) -> bool {
        self.bus_inv()
    }

    open spec fn peek(&self, addr: u16) -> u8 {
        self.bus_peek(addr)
    }

    open spec fn after_read(&self, addr: u16) -> Mapper0 {
        self.bus_after_read(addr)
    }

    open spec fn after_write(&self, addr: u16, val: u8) -> Mapper0 {
        self.bus_after_write(addr, val)
    }

    fn read_addr(&mut self, addr: u16) -> (r: u8) {
        proof {
            self.ppu.lemma_reg_ops_keep_wf((0x2000 + addr as int % 8) as u16, 0);
        }
        if addr < 0x2000 {
            self.memory[(addr % 0x800) as usize]
        } else if addr < 0x4000 {
            self.ppu.read_addr(0x2000 + addr % 8)
        } else if addr == 0x4016 {
            self.controller.read_input()
        } else if addr < 0x4020 {
            0
        } else {
            let i = ((addr as usize + 0x8000) % 0x10000) % self.prg_rom_size;
            self.prg_rom[i]
        }
    }

    fn write_addr(&mut self, addr: u16, val: u8) {
        if addr < 0x2000 {
            self.memory[(addr % 0x800) as usize] = val;
            proof {
                assert(self.memory == spec_array_update(old(self).memory, addr as int % 0x800, val));
            }
        } else if addr < 0x4000 {
            self.ppu.write_addr(0x2000 + addr % 8, val);
        } else if addr == 0x4014 {
            let ghost start = *self;
            let mut i: u16 = 0;
            while i < 256
                invariant
                    i <= 256,
                    self.inv(),
                    self.dma_from(val, i as int) == start.dma_from(val, 0),
                decreases 256 - i,
            {
                let src: u16 = val as u16 * 256 + i;
                let b = self.read_addr(src);
                let dst = self.ppu.read_oam_addr().wrapping_add(i as u8);
                self.ppu.write_oam_dma(dst, b);
                i = i + 1;
            }
        } else if addr == 0x4016 && val % 2 == 1 {
            self.controller.poll();
            proof {
                old(self).controller.lemma_with_index(0);
            }
        }
    }
}

/// Writing a byte of RAM and reading it back gives the byte.
pub proof fn lemma_ram_write_read(m: Mapper0, addr: u16, val: u8)
    requires
        addr < 0x2000,
    ensures
        m.after_write(addr, val).peek(addr) == val,
{
}

/// Pushing 257 bytes takes the stack pointer once round its page and one
/// step further, to one below where it began; the last byte pushed stands
/// just above it, at `$0100 + ((SP + 1) mod 256)`.
pub proof fn lemma_stack_wrap(c: Cpu<Mapper0>, bytes: Seq<u8>)
    requires
        bytes.len() == 257,
    ensures
        push_all(c, bytes).sp == ((c.sp as int + 255) % 256) as u8,
        push_all(c, bytes).memory.peek((0x100 + (push_all(c, bytes).sp as int + 1) % 256) as u16)
            == bytes.last(),
{
    lemma_push_all_sp(c, bytes);
    let p = push_all(c, bytes.drop_last());
    lemma_ram_write_read(p.memory, (0x100 + p.sp as int) as u16, bytes.last());
}

/// Taking an NMI touches RAM (the stack) and reads PRG-ROM (the vector):
/// the PPU and the controller are left as they were.
pub proof fn lemma_nmi_keeps_ppu(c: Cpu<Mapper0>)
    ensures
        c.nmi_spec().memory.ppu == c.memory.ppu,
        c.nmi_spec().memory.controller == c.memory.controller,
        c.nmi_spec().memory.prg_rom == c.memory.prg_rom,
        c.nmi_spec().memory.prg_rom_size == c.memory.prg_rom_size,
{
    let c1 = c.push_spec((c.pc as int / 256) as u8);
    let c2 = c1.push_spec((c.pc as int % 256) as u8);
    let c3 = c2.push_spec(c2.status_spec(false));
    assert(c1.memory.ppu == c.memory.ppu && c1.memory.controller == c.memory.controller);
    assert(c2.memory.ppu == c.memory.ppu && c2.memory.controller == c.memory.controller);
    assert(c3.memory.ppu == c.memory.ppu && c3.memory.controller == c.memory.controller);
    assert(c3.memory.prg_rom == c.memory.prg_rom && c3.memory.prg_rom_size == c.memory.prg_rom_size);
}

impl Cpu<Mapper0> {
    /// What one `step_ppu` guarantees, as used when dots are chained: the
    /// PPU counter moves on, PPUCTRL and the cartridge stay, VBlank is set
    /// on entering line 241, dot 1, and the CPU takes the NMI exactly when
    /// that dot is entered with NMI enabled, and otherwise keeps PC and SP.
    pub open spec fn dot_step(self, after: Self) -> bool {
        let nmi = after.memory.ppu.cycle == 241 * DOTS + 1 && self.memory.ppu.ppu_ctrl >= 0x80;
        &&& after.memory.ppu.cycle == (self.memory.ppu.cycle + 1) % (DOTS * LINES)
        &&& after.memory.ppu.ppu_ctrl == self.memory.ppu.ppu_ctrl
        &&& after.memory.prg_rom == self.memory.prg_rom
        &&& after.memory.prg_rom_size == self.memory.prg_rom_size
        &&& (after.memory.ppu.cycle == 241 * DOTS + 1 ==> after.memory.ppu.ppu_status >= 0x80)
        &&& (nmi ==> {
            &&& after.pc == word(
                self.memory.prg()[prg_index(0xFFFA, self.memory.prg().len() as int)],
                self.memory.prg()[prg_index(0xFFFB, self.memory.prg().len() as int)],
            )
            &&& after.interrupt
            &&& after.sp as int == (self.sp as int + 253) % 256
        })
        &&& (!nmi ==> after.pc == self.pc && after.sp == self.sp)
    }

    /// Advances the PPU by one dot and, when that dot raises an NMI, lets
    /// the CPU take it at once; true when a frame is ready.
    #[verifier::spinoff_prover]
    pub fn step_ppu(&mut self) -> (r: bool)
        requires
            old(self).inv(),
        ensures
            final(self).inv(),
            old(self).dot_step(*final(self)),
            final(self).memory.video().dot_count() == (old(self).memory.video().dot_count() + 1) % (
            DOTS * LINES) as nat,
            r == (final(self).memory.video().dot_count() == 0),
            final(self).memory.video().dot_count() == 241 * DOTS + 1 ==> final(self).memory.video().status()
                >= 0x80,
            final(self).memory.video().dot_count() == 241 * DOTS + 1 && old(self).memory.video().ctrl() >= 0x80
                ==> {
                &&& final(self).pc == word(
                    old(self).memory.prg()[prg_index(0xFFFA, old(self).memory.prg().len() as int)],
                    old(self).memory.prg()[prg_index(0xFFFB, old(self).memory.prg().len() as int)],
                )
                &&& final(self).interrupt
                &&& final(self).sp as int == (old(self).sp as int + 253) % 256
            },
            !(final(self).memory.video().dot_count() == 241 * DOTS + 1 && old(self).memory.video().ctrl()
                >= 0x80) ==> final(self).pc == old(self).pc && final(self).sp == old(self).sp
                && final(self).interrupt == old(self).interrupt,
            old(self).memory.ppu.tick(
                &final(self).memory.ppu,
                (Tick {
                    nmi: final(self).memory.ppu.cycle == 241 * DOTS + 1 && old(self).memory.ppu.ppu_ctrl >= 0x80,
                    frame_ready: r,
                }),
            ),
            *final(self) == ({
                let mid = Cpu { memory: Mapper0 { ppu: final(self).memory.ppu, ..old(self).memory }, ..*old(self) };
                if final(self).memory.ppu.cycle == 241 * DOTS + 1 && old(self).memory.ppu.ppu_ctrl >= 0x80 {
                    mid.nmi_spec()
                } else {
                    mid
                }
            }),
    {
        let t = self.memory.ppu.cycle();
        let ghost mid = *self;
        let ghost tk = t;
        assert(mid == (Cpu { memory: Mapper0 { ppu: self.memory.ppu, ..old(self).memory }, ..*old(self) }));
        if t.nmi {
            self.nmi_interrupt();
            proof {
                lemma_nmi_keeps_ppu(mid);
            }
        }
        assert(self.memory.ppu == mid.memory.ppu);
        assert(tk == (Tick {
            nmi: self.memory.ppu.cycle == 241 * DOTS + 1 && old(self).memory.ppu.ppu_ctrl >= 0x80,
            frame_ready: tk.frame_ready,
        }));
        t.frame_ready
    }
}

/// What `n` reads of the controller port `$4016` report, in order.
pub open spec fn pad_reads(m: Mapper0, n: nat) -> Seq<u8>
    decreases n,
{
    if n == 0 {
        seq![]
    } else {
        seq![m.peek(0x4016)] + pad_reads(m.after_read(0x4016), (n - 1) as nat)
    }
}

proof fn lemma_pad_reads_from(m: Mapper0, i: nat, n: nat)
    requires
        i < 8,
    ensures
        pad_reads(Mapper0 { controller: m.controller.with_index(i), ..m }, n).len() == n,
        forall|k: int|
            0 <= k < n ==> #[trigger] pad_reads(Mapper0 { controller: m.controller.with_index(i), ..m }, n)[k]
                == if m.pad().buttons()[if i + k < 8 { i + k } else { 7 }] { 1u8 } else { 0u8 },
    decreases n,
{
    if n > 0 {
        let j: nat = if i < 7 { i + 1 } else { 7 };
        m.controller.lemma_read_at(i);
        lemma_pad_reads_from(m, j, (n - 1) as nat);
        let mi = Mapper0 { controller: m.controller.with_index(i), ..m };
        assert(mi.after_read(0x4016) == Mapper0 { controller: m.controller.with_index(j), ..m });
    }
}

/// After a strobe (`$4016` written with bit 0 set, then clear), eight reads
/// of `$4016` report A, B, Select, Start, Up, Down, Left and Right in bit 0,
/// and a ninth reports Right again.
pub proof fn lemma_controller_shift(m: Mapper0)
    ensures
        pad_reads(m.after_write(0x4016, 1).after_write(0x4016, 0), 9) == Seq::new(
            9,
            |k: int| if m.pad().buttons()[if k < 8 { k } else { 7 }] { 1u8 } else { 0u8 },
        ),
{
    let s = m.after_write(0x4016, 1).after_write(0x4016, 0);
    assert(s == Mapper0 { controller: m.controller.with_index(0), ..m });
    lemma_pad_reads_from(m, 0, 9);
    assert(pad_reads(s, 9) =~= Seq::new(
        9,
        |k: int| if m.pad().buttons()[if k < 8 { k } else { 7 }] { 1u8 } else { 0u8 },
    ));
}

proof fn lemma_dma_from(m: Mapper0, page: u8, i: int)
    requires
        page < 0x20,
        0 <= i <= 256,
    ensures
        m.dma_from(page, i).memory == m.memory,
        m.dma_from(page, i).ppu.oam_addr == m.ppu.oam_addr,
        forall|j: int|
            i <= j < 256 ==> #[trigger] m.dma_from(page, i).ppu.oam@[(m.ppu.oam_addr + j) % 256]
                == m.memory@[(page * 256 + j) % 0x800],
        forall|j: int|
            0 <= j < i ==> #[trigger] m.dma_from(page, i).ppu.oam@[(m.ppu.oam_addr + j) % 256]
                == m.ppu.oam@[(m.ppu.oam_addr + j) % 256],
    decreases 256 - i,
{
    if i < 256 {
        let addr = (page as int * 256 + i) as u16;
        let b = m.peek(addr);
        assert(m.after_read(addr) == m);
        let m2 = Mapper0 { ppu: m.ppu.with_oam_byte((m.ppu.oam_addr as int + i) % 256, b), ..m };
        assert(m.dma_from(page, i) == m2.dma_from(page, i + 1));
        lemma_dma_from(m2, page, i + 1);
        assert(m2.ppu.oam@ == m.ppu.oam@.update((m.ppu.oam_addr as int + i) % 256, b));
    }
}

/// OAM DMA from a page of RAM copies its 256 bytes verbatim into OAM from
/// OAMADDR on, leaving RAM and OAMADDR as they were; with OAMADDR 0, OAM
/// byte `i` then reads back through `$2003` and `$2004` as byte `i` of the
/// page.
pub proof fn lemma_oam_dma(m: Mapper0, page: u8)
    requires
        page < 0x20,
    ensures
        m.after_write(0x4014, page).memory == m.memory,
        m.after_write(0x4014, page).ppu.oam_addr == m.ppu.oam_addr,
        forall|i: int|
            0 <= i < 256 ==> #[trigger] m.after_write(0x4014, page).ppu.oam@[(m.ppu.oam_addr + i) % 256]
                == m.memory@[(page * 256 + i) % 0x800],
        m.ppu.oam_addr == 0 ==> forall|i: u8|
            #[trigger] m.after_write(0x4014, page).after_write(0x2003, i).peek(0x2004) == m.memory@[(page * 256
                + i) % 0x800],
{
    lemma_dma_from(m, page, 0);
    let d = m.after_write(0x4014, page);
    if m.ppu.oam_addr == 0 {
        assert forall|i: u8| #[trigger] d.after_write(0x2003, i).peek(0x2004) == m.memory@[(page * 256 + i) % 0x800] by {
            assert(d.ppu.oam@[(m.ppu.oam_addr + i) % 256] == m.memory@[(page * 256 + i) % 0x800]);
        }
    }
}

proof fn lemma_dots_chain(s: Seq<Cpu<Mapper0>>, k: int)
    requires
        s.len() == 241 * DOTS + 2,
        s[0].memory.ppu.cycle == 0,
        forall|i: int| 0 <= i < s.len() - 1 ==> #[trigger] s[i].dot_step(s[i + 1]),
        0 <= k <= 241 * DOTS + 1,
    ensures
        s[k].memory.ppu.cycle == k,
        s[k].memory.ppu.ppu_ctrl == s[0].memory.ppu.ppu_ctrl,
        s[k].memory.prg_rom == s[0].memory.prg_rom,
        s[k].memory.prg_rom_size == s[0].memory.prg_rom_size,
        k < 241 * DOTS + 1 ==> s[k].pc == s[0].pc && s[k].sp == s[0].sp,
    decreases k,
{
    if k > 0 {
        lemma_dots_chain(s, k - 1);
        assert(s[k - 1].dot_step(s[k]));
    }
}

/// From the first dot of a frame with NMI enabled in PPUCTRL, a run of
/// `step_ppu` dots leaves PC and SP alone until the 241 * 341 + 1st dot,
/// which sets VBlank and takes the NMI: PC from the vector at `$FFFA`,
/// three bytes pushed.
pub proof fn lemma_vblank_nmi(s: Seq<Cpu<Mapper0>>)
    requires
        s.len() == 241 * DOTS + 2,
        s[0].memory.ppu.cycle == 0,
        s[0].memory.ppu.ppu_ctrl >= 0x80,
        forall|i: int| 0 <= i < s.len() - 1 ==> #[trigger] s[i].dot_step(s[i + 1]),
    ensures
        forall|k: int| 0 <= k < 241 * DOTS + 1 ==> #[trigger] s[k].pc == s[0].pc && s[k].sp == s[0].sp,
        s[241 * DOTS + 1].memory.ppu.ppu_status >= 0x80,
        s[241 * DOTS + 1].interrupt,
        s[241 * DOTS + 1].sp as int == (s[0].sp as int + 253) % 256,
        s[241 * DOTS + 1].pc == word(
            s[0].memory.prg()[prg_index(0xFFFA, s[0].memory.prg().len() as int)],
            s[0].memory.prg()[prg_index(0xFFFB, s[0].memory.prg().len() as int)],
        ),
{
    let n = 241 * DOTS + 1;
    assert forall|k: int| 0 <= k < n implies #[trigger] s[k].pc == s[0].pc && s[k].sp == s[0].sp by {
        lemma_dots_chain(s, k);
    }
    lemma_dots_chain(s, n - 1);
    lemma_dots_chain(s, n as int);
    assert(s[n - 1].dot_step(s[n as int]));
}

} // verus!
