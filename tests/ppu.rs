use nesemu::ppu::{mux, reverse_bits, sprite_fine, vram_addr};
use nesemu::{Ppu, Tick};

fn ppu(vertical: bool) -> Ppu {
    let chr: Vec<u8> = (0..0x2000u32).map(|i| (i % 251) as u8).collect();
    Ppu::new(chr, 0x2000, vertical)
}

fn set_address(p: &mut Ppu, addr: u16) {
    p.read_addr(0x2002);
    p.write_addr(0x2006, (addr >> 8) as u8);
    p.write_addr(0x2006, (addr & 0xFF) as u8);
}

#[test]
fn palette_mirror_both_ways() {
    let mut p = ppu(false);
    for k in 0..4u16 {
        set_address(&mut p, 0x3F10 + 4 * k);
        p.write_addr(0x2007, 0x20 + k as u8);
        set_address(&mut p, 0x3F00 + 4 * k);
        assert_eq!(p.read_addr(0x2007), 0x20 + k as u8);
        set_address(&mut p, 0x3F00 + 4 * k);
        p.write_addr(0x2007, 0x30 + k as u8);
        set_address(&mut p, 0x3F10 + 4 * k);
        assert_eq!(p.read_addr(0x2007), 0x30 + k as u8);
    }
}

#[test]
fn ppudata_reads_are_buffered() {
    let mut p = ppu(false);
    set_address(&mut p, 0x2000);
    p.write_addr(0x2007, 0x55);
    p.write_addr(0x2007, 0x66);
    set_address(&mut p, 0x2000);
    assert_eq!(p.read_addr(0x2007), 0);
    assert_eq!(p.read_addr(0x2007), 0x55);
    assert_eq!(p.read_addr(0x2007), 0x66);
}

#[test]
fn chr_rom_reads_and_ignores_writes() {
    let mut p = ppu(false);
    set_address(&mut p, 0x0005);
    p.write_addr(0x2007, 0xEE);
    set_address(&mut p, 0x0005);
    p.read_addr(0x2007);
    assert_eq!(p.read_addr(0x2007), 5);
}

#[test]
fn increment_32_with_ctrl_bit_2() {
    let mut p = ppu(false);
    p.write_addr(0x2000, 0x04);
    set_address(&mut p, 0x2000);
    p.write_addr(0x2007, 1);
    p.write_addr(0x2007, 2);
    p.write_addr(0x2000, 0x00);
    set_address(&mut p, 0x2000);
    p.read_addr(0x2007);
    assert_eq!(p.read_addr(0x2007), 1);
    assert_eq!(p.read_addr(0x2007), 0);
    set_address(&mut p, 0x2020);
    p.read_addr(0x2007);
    assert_eq!(p.read_addr(0x2007), 2);
}

#[test]
fn nametable_mirroring_follows_header() {
    let mut v = ppu(true);
    set_address(&mut v, 0x2005);
    v.write_addr(0x2007, 0x42);
    set_address(&mut v, 0x2805);
    v.read_addr(0x2007);
    assert_eq!(v.read_addr(0x2007), 0x42);
    let mut h = ppu(false);
    set_address(&mut h, 0x2005);
    h.write_addr(0x2007, 0x42);
    set_address(&mut h, 0x2405);
    h.read_addr(0x2007);
    assert_eq!(h.read_addr(0x2007), 0x42);
    assert_eq!(vram_addr(0x3000, true), vram_addr(0x2000, true));
}

#[test]
fn oamdata_write_increments() {
    let mut p = ppu(false);
    p.write_addr(0x2003, 0xFF);
    p.write_addr(0x2004, 0x12);
    p.write_addr(0x2004, 0x34);
    p.write_addr(0x2003, 0xFF);
    assert_eq!(p.read_addr(0x2004), 0x12);
    assert_eq!(p.read_addr(0x2004), 0x12);
    p.write_addr(0x2003, 0x00);
    assert_eq!(p.read_addr(0x2004), 0x34);
}

#[test]
fn tick_reports_nmi_once() {
    let mut p = ppu(false);
    p.write_addr(0x2000, 0x80);
    let mut nmis = 0;
    let mut at = 0;
    for i in 1..=(262 * 341 * 2) {
        let t: Tick = p.cycle();
        if t.nmi {
            nmis += 1;
            if at == 0 {
                at = i;
            }
        }
    }
    assert_eq!(nmis, 2);
    assert_eq!(at, 241 * 341 + 1);
    assert!(p.nmi_interrupt());
}

#[test]
fn frame_buffer_has_rgb_pixels() {
    let mut p = ppu(false);
    set_address(&mut p, 0x3F00);
    p.write_addr(0x2007, 0x30);
    for _ in 0..(262 * 341) {
        p.cycle();
    }
    let data = p.pixel_data();
    assert_eq!(data.len(), 256 * 240 * 3);
    assert_eq!(&data[0..3], &[0xFE, 0xFF, 0xFF]);
    assert_eq!(&data[data.len() - 3..], &[0xFE, 0xFF, 0xFF]);
}

#[test]
fn reverse_bits_examples() {
    assert_eq!(reverse_bits(0x01), 0x80);
    assert_eq!(reverse_bits(0xF0), 0x0F);
    assert_eq!(reverse_bits(0b1011_0010), 0b0100_1101);
}

#[test]
fn pixel_priority() {
    assert_eq!(mux(0, 5, 0, 9, true), (5, false));
    assert_eq!(mux(0, 5, 2, 9, false), (9, false));
    assert_eq!(mux(1, 5, 0, 9, true), (5, false));
    assert_eq!(mux(1, 5, 3, 9, true), (9, true));
    assert_eq!(mux(1, 5, 3, 9, false), (5, true));
}

#[test]
fn sprite_rows_wrap() {
    assert_eq!(sprite_fine(10, 8, 8), 2);
    assert_eq!(sprite_fine(3, 5, 8), 6);
    assert_eq!(sprite_fine(20, 5, 16), 15);
}

/// Pattern tile 1 is solid colour 1; the universal background is black and
/// sprite palette 0 colour 1 is white.
fn scene(mask: u8, fill_nametable: bool) -> Ppu {
    let mut chr = vec![0u8; 0x2000];
    for b in chr.iter_mut().skip(0x10).take(8) {
        *b = 0xFF;
    }
    let mut p = Ppu::new(chr, 0x2000, false);
    set_address(&mut p, 0x3F00);
    p.write_addr(0x2007, 0x0F);
    set_address(&mut p, 0x3F11);
    p.write_addr(0x2007, 0x30);
    if fill_nametable {
        set_address(&mut p, 0x2000);
        for _ in 0..960 {
            p.write_addr(0x2007, 1);
        }
    }
    p.write_addr(0x2003, 0);
    for b in [9u8, 1, 0, 20] {
        p.write_addr(0x2004, b);
    }
    set_address(&mut p, 0x0000);
    p.write_addr(0x2001, mask);
    p
}

fn pixel(p: &Ppu, x: usize, y: usize) -> [u8; 3] {
    let d = p.pixel_data();
    let o = y * 768 + x * 3;
    [d[o], d[o + 1], d[o + 2]]
}

#[test]
fn sprite_is_drawn_below_its_y() {
    let mut p = scene(0x10, false);
    for _ in 0..(262 * 341) {
        p.cycle();
    }
    assert_eq!(pixel(&p, 22, 12), [0xFE, 0xFF, 0xFF]);
    assert_eq!(pixel(&p, 20, 10), [0xFE, 0xFF, 0xFF]);
    assert_eq!(pixel(&p, 27, 17), [0xFE, 0xFF, 0xFF]);
    assert_eq!(pixel(&p, 19, 12), [0, 0, 0]);
    assert_eq!(pixel(&p, 28, 12), [0, 0, 0]);
    assert_eq!(pixel(&p, 22, 9), [0, 0, 0]);
    assert_eq!(pixel(&p, 22, 18), [0, 0, 0]);
}

#[test]
fn sprite_zero_hit_over_background() {
    let mut p = scene(0x18, true);
    for _ in 0..(30 * 341) {
        p.cycle();
    }
    assert_eq!(p.read_addr(0x2002) & 0x40, 0x40);
}

#[test]
fn no_sprite_zero_hit_without_background() {
    let mut p = scene(0x10, true);
    for _ in 0..(30 * 341) {
        p.cycle();
    }
    assert_eq!(p.read_addr(0x2002) & 0x40, 0);
}

#[test]
fn ninth_sprite_on_a_line_sets_overflow() {
    let mut p = ppu(false);
    p.write_addr(0x2003, 0);
    for i in 0..64u8 {
        let y = if i < 9 { 5 } else { 0xF0 };
        for b in [y, 0, 0, i] {
            p.write_addr(0x2004, b);
        }
    }
    p.write_addr(0x2001, 0x10);
    for _ in 0..(8 * 341) {
        p.cycle();
    }
    assert_eq!(p.read_addr(0x2002) & 0x20, 0x20);
}

#[test]
fn eight_sprites_do_not_overflow() {
    let mut p = ppu(false);
    p.write_addr(0x2003, 0);
    for i in 0..64u8 {
        let entry = if i < 8 { [5, 0, 0, i] } else { [0xF0; 4] };
        for b in entry {
            p.write_addr(0x2004, b);
        }
    }
    p.write_addr(0x2001, 0x10);
    for _ in 0..(8 * 341) {
        p.cycle();
    }
    assert_eq!(p.read_addr(0x2002) & 0x20, 0);
}

#[test]
fn overflow_search_reads_the_wrong_byte() {
    let mut p = ppu(false);
    p.write_addr(0x2003, 0);
    for i in 0..64u8 {
        let entry = if i < 8 { [5, 0, 0, i] } else if i == 9 { [0xF0, 3, 0xF0, 0xF0] } else { [0xF0; 4] };
        for b in entry {
            p.write_addr(0x2004, b);
        }
    }
    p.write_addr(0x2001, 0x10);
    for _ in 0..(8 * 341) {
        p.cycle();
    }
    assert_eq!(p.read_addr(0x2002) & 0x20, 0x20);
}

#[test]
fn scroll_copies_happen_with_rendering_off() {
    let mut p = ppu(false);
    set_address(&mut p, 0x2000);
    p.write_addr(0x2007, 0xAA);
    p.write_addr(0x2007, 0xBB);
    set_address(&mut p, 0x2000);
    p.read_addr(0x2007);
    // Dots 0 to 257 of line 0: coarse X wraps round, fine Y moves on at
    // dot 256 and dot 257 brings back the horizontal bits of t.
    for _ in 0..258 {
        p.cycle();
    }
    p.read_addr(0x2007);
    assert_eq!(p.read_addr(0x2007), 0xAA);
}
