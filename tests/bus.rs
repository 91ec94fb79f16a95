use nesemu::{Cpu, Mapper0, MemoryDevice};

fn bus() -> Mapper0 {
    let mut prg = vec![0u8; 0x8000];
    prg[0x7FFA] = 0x00;
    prg[0x7FFB] = 0x90;
    prg[0x7FFC] = 0x00;
    prg[0x7FFD] = 0x80;
    Mapper0::new(prg, 0x8000, vec![0u8; 0x2000], 0x2000, false)
}

#[test]
fn ram_is_mirrored_every_2k() {
    let mut m = bus();
    m.write_addr(0x0012, 0x77);
    assert_eq!(m.read_addr(0x0812), 0x77);
    assert_eq!(m.read_addr(0x1812), 0x77);
    m.write_addr(0x1FFF, 0x11);
    assert_eq!(m.read_addr(0x07FF), 0x11);
}

#[test]
fn rom_writes_and_io_stubs_are_ignored() {
    let mut m = bus();
    m.write_addr(0x8000, 0x99);
    assert_eq!(m.read_addr(0x8000), 0x00);
    m.write_addr(0x4000, 0x99);
    assert_eq!(m.read_addr(0x4000), 0);
    assert_eq!(m.read_addr(0x4017), 0);
}

#[test]
fn controller_shift_order() {
    let mut m = bus();
    let pressed = [true, false, true, true, false, false, true, true];
    for (i, &p) in pressed.iter().enumerate() {
        if p {
            m.controller.set_input(i);
        }
    }
    m.write_addr(0x4016, 1);
    m.write_addr(0x4016, 0);
    for &p in pressed.iter() {
        assert_eq!(m.read_addr(0x4016), p as u8);
    }
    assert_eq!(m.read_addr(0x4016), 1);
    m.controller.clear_input(7);
    assert_eq!(m.read_addr(0x4016), 0);
}

#[test]
fn oam_dma_copies_a_page() {
    let mut m = bus();
    for i in 0..256u16 {
        m.write_addr(0x0200 + i, (i as u8).wrapping_mul(3));
    }
    m.write_addr(0x2003, 0);
    m.write_addr(0x4014, 0x02);
    for i in 0..256u16 {
        m.write_addr(0x2003, i as u8);
        assert_eq!(m.read_addr(0x2004), (i as u8).wrapping_mul(3));
    }
}

#[test]
fn oam_dma_starts_at_oamaddr() {
    let mut m = bus();
    m.write_addr(0x0300, 0xAB);
    m.write_addr(0x2003, 0x10);
    m.write_addr(0x4014, 0x03);
    m.write_addr(0x2003, 0x10);
    assert_eq!(m.read_addr(0x2004), 0xAB);
}

#[test]
fn vblank_raises_nmi() {
    let mut cpu = Cpu::new(bus());
    cpu.memory.write_addr(0x2000, 0x80);
    for _ in 0..(241 * 341) {
        assert!(!cpu.step_ppu());
    }
    assert_eq!(cpu.pc, 0x8000);
    cpu.step_ppu();
    assert_eq!(cpu.pc, 0x9000);
    assert!(cpu.interrupt);
    assert_eq!(cpu.memory.read_addr(0x2002) & 0x80, 0x80);
}

#[test]
fn no_nmi_when_disabled() {
    let mut cpu = Cpu::new(bus());
    for _ in 0..(241 * 341 + 1) {
        cpu.step_ppu();
    }
    assert_eq!(cpu.pc, 0x8000);
    assert_eq!(cpu.memory.read_addr(0x2002) & 0x80, 0x80);
}

#[test]
fn frame_is_ready_after_one_frame() {
    let mut cpu = Cpu::new(bus());
    let mut frames = 0;
    for _ in 0..(262 * 341) {
        if cpu.step_ppu() {
            frames += 1;
        }
    }
    assert_eq!(frames, 1);
}

#[test]
fn status_read_clears_vblank() {
    let mut cpu = Cpu::new(bus());
    for _ in 0..(241 * 341 + 1) {
        cpu.step_ppu();
    }
    assert_eq!(cpu.memory.read_addr(0x2002) & 0x80, 0x80);
    assert_eq!(cpu.memory.read_addr(0x2002) & 0x80, 0);
}

#[test]
fn prerender_line_clears_vblank() {
    let mut cpu = Cpu::new(bus());
    for _ in 0..(261 * 341 + 2) {
        cpu.step_ppu();
    }
    assert_eq!(cpu.memory.read_addr(0x2002) & 0x80, 0);
}
