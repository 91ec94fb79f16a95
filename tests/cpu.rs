use nesemu::{Cpu, DecodeError, Mapper0, MemoryDevice};

/// A 32 KiB PRG-ROM holding `program` at `$8000` and the given vectors.
fn rom(program: &[u8], reset: u16, nmi: u16, irq: u16) -> Vec<u8> {
    let mut prg = vec![0u8; 0x8000];
    prg[..program.len()].copy_from_slice(program);
    prg[0x7FFA] = (nmi & 0xFF) as u8;
    prg[0x7FFB] = (nmi >> 8) as u8;
    prg[0x7FFC] = (reset & 0xFF) as u8;
    prg[0x7FFD] = (reset >> 8) as u8;
    prg[0x7FFE] = (irq & 0xFF) as u8;
    prg[0x7FFF] = (irq >> 8) as u8;
    prg
}

fn cpu_with(program: &[u8]) -> Cpu<Mapper0> {
    let prg = rom(program, 0x8000, 0x9000, 0xA000);
    Cpu::new(Mapper0::new(prg, 0x8000, vec![0u8; 0x2000], 0x2000, false))
}

#[test]
fn reset_vector_then_nop() {
    let prg = rom(&[], 0x1234, 0, 0);
    let mut mapper = Mapper0::new(prg, 0x8000, vec![0u8; 0x2000], 0x2000, false);
    mapper.write_addr(0x1234, 0xEA);
    let mut cpu = Cpu::new(mapper);
    assert_eq!(cpu.pc, 0x1234);
    assert_eq!(cpu.run_instruction(), Ok(2));
    assert_eq!(cpu.pc, 0x1235);
    assert_eq!((cpu.a, cpu.x, cpu.y, cpu.sp), (0, 0, 0, 0xFD));
    assert_eq!(cpu.status_byte(false), 0x34 & 0xCF | 0x10);
    assert!(cpu.interrupt);
}

#[test]
fn lda_immediate_flags() {
    let mut cpu = cpu_with(&[0xA9, 0x00, 0xA9, 0x80]);
    cpu.run_instruction().unwrap();
    assert!(cpu.zero && !cpu.negative);
    assert_eq!(cpu.a, 0);
    cpu.run_instruction().unwrap();
    assert!(!cpu.zero && cpu.negative);
    assert_eq!(cpu.a, 0x80);
}

#[test]
fn jsr_rts_round_trip() {
    let mut cpu = cpu_with(&[0x20, 0x06, 0x80, 0xEA, 0xEA, 0xEA, 0x60]);
    assert_eq!(cpu.sp, 0xFD);
    assert_eq!(cpu.run_instruction(), Ok(6));
    assert_eq!(cpu.pc, 0x8006);
    assert_eq!(cpu.sp, 0xFB);
    assert_eq!(cpu.memory.read_addr(0x01FC), 0x02);
    assert_eq!(cpu.memory.read_addr(0x01FD), 0x80);
    cpu.run_instruction().unwrap();
    assert_eq!(cpu.pc, 0x8003);
    assert_eq!(cpu.sp, 0xFD);
}

#[test]
fn indirect_jmp_page_bug() {
    let mut cpu = cpu_with(&[0x6C, 0xFF, 0x02]);
    cpu.memory.write_addr(0x02FF, 0x34);
    cpu.memory.write_addr(0x0200, 0x12);
    cpu.memory.write_addr(0x0300, 0xCD);
    assert_eq!(cpu.run_instruction(), Ok(5));
    assert_eq!(cpu.pc, 0x1234);
}

#[test]
fn indirect_jmp_within_page() {
    let mut cpu = cpu_with(&[0x6C, 0x10, 0x02]);
    cpu.memory.write_addr(0x0210, 0x78);
    cpu.memory.write_addr(0x0211, 0x56);
    cpu.run_instruction().unwrap();
    assert_eq!(cpu.pc, 0x5678);
}

#[test]
fn status_packing_every_byte() {
    let mut cpu = cpu_with(&[]);
    for b in 0..=255u8 {
        cpu.set_status_byte(b);
        assert_eq!(cpu.status_byte(true), b | 0x30);
        assert_eq!(cpu.status_byte(false), (b & 0xCF) | 0x10);
    }
}

#[test]
fn plp_ignores_break_bits() {
    let mut cpu = cpu_with(&[0xA9, 0xFF, 0x48, 0x28, 0x08]);
    cpu.run_instruction().unwrap();
    cpu.run_instruction().unwrap();
    cpu.run_instruction().unwrap();
    assert!(cpu.carry && cpu.zero && cpu.interrupt && cpu.decimal && cpu.overflow && cpu.negative);
    assert!(!cpu.brk);
    cpu.run_instruction().unwrap();
    assert_eq!(cpu.memory.read_addr(0x01FD), 0xFF);
}

#[test]
fn stack_wraps_after_257_pushes() {
    let mut cpu = cpu_with(&[]);
    let start = cpu.sp;
    for i in 0..257u32 {
        cpu.push((i % 251) as u8);
    }
    assert_eq!(cpu.sp, start.wrapping_sub(1));
    let top = 0x0100 + cpu.sp.wrapping_add(1) as u16;
    assert_eq!(cpu.memory.read_addr(top), (256 % 251) as u8);
    assert_eq!(cpu.pop(), (256 % 251) as u8);
}

#[test]
fn adc_then_sbc_restores_a() {
    let mut cpu = cpu_with(&[]);
    cpu.a = 200;
    cpu.carry = false;
    cpu.adc(100);
    assert_eq!(cpu.a, 44);
    assert!(cpu.carry);
    cpu.sbc(100);
    assert_eq!(cpu.a, 200);
}

#[test]
fn adc_overflow_table() {
    let mut cpu = cpu_with(&[]);
    cpu.a = 0x50;
    cpu.carry = false;
    cpu.adc(0x50);
    assert_eq!(cpu.a, 0xA0);
    assert!(cpu.overflow && !cpu.carry && cpu.negative);
    cpu.a = 0xD0;
    cpu.carry = false;
    cpu.adc(0x90);
    assert_eq!(cpu.a, 0x60);
    assert!(cpu.overflow && cpu.carry);
    cpu.a = 0x50;
    cpu.carry = true;
    cpu.sbc(0xB0);
    assert_eq!(cpu.a, 0xA0);
    assert!(cpu.overflow && !cpu.carry);
    cpu.a = 0x01;
    cpu.carry = true;
    cpu.adc(0xFF);
    assert_eq!(cpu.a, 0x01);
    assert!(cpu.carry && !cpu.overflow && !cpu.zero);
}

#[test]
fn compare_flags() {
    let mut cpu = cpu_with(&[]);
    cpu.a = 0x10;
    cpu.cmp(0x20);
    assert!(!cpu.carry && !cpu.zero && cpu.negative);
    cpu.cmp(0x10);
    assert!(cpu.carry && cpu.zero && !cpu.negative);
    cpu.x = 0x90;
    cpu.cpx(0x10);
    assert!(cpu.carry && !cpu.zero && cpu.negative);
    cpu.y = 0;
    cpu.cpy(0);
    assert!(cpu.carry && cpu.zero);
}

#[test]
fn branch_backwards_and_forwards() {
    let mut cpu = cpu_with(&[0xD0, 0xFE]);
    cpu.zero = false;
    cpu.run_instruction().unwrap();
    assert_eq!(cpu.pc, 0x8000);
    cpu.zero = true;
    cpu.run_instruction().unwrap();
    assert_eq!(cpu.pc, 0x8002);
}

#[test]
fn shifts_and_rotates() {
    let mut cpu = cpu_with(&[0x0A, 0x2A, 0x6A, 0x4A]);
    cpu.a = 0x81;
    cpu.carry = false;
    cpu.run_instruction().unwrap();
    assert_eq!(cpu.a, 0x02);
    assert!(cpu.carry);
    cpu.run_instruction().unwrap();
    assert_eq!(cpu.a, 0x05);
    assert!(!cpu.carry);
    cpu.run_instruction().unwrap();
    assert_eq!(cpu.a, 0x02);
    assert!(cpu.carry);
    cpu.run_instruction().unwrap();
    assert_eq!(cpu.a, 0x01);
    assert!(!cpu.carry);
}

#[test]
fn memory_increment_and_store() {
    let mut cpu = cpu_with(&[0xE6, 0x10, 0xA6, 0x10, 0x96, 0x20, 0xC6, 0x11]);
    cpu.memory.write_addr(0x0010, 0xFF);
    cpu.run_instruction().unwrap();
    assert_eq!(cpu.memory.read_addr(0x0010), 0x00);
    assert!(cpu.zero);
    cpu.run_instruction().unwrap();
    assert_eq!(cpu.x, 0);
    cpu.y = 0xF0;
    cpu.run_instruction().unwrap();
    assert_eq!(cpu.memory.read_addr(0x0010), 0x00);
    cpu.run_instruction().unwrap();
    assert_eq!(cpu.memory.read_addr(0x0011), 0xFF);
    assert!(cpu.negative);
}

#[test]
fn indexed_indirect_addressing() {
    let mut cpu = cpu_with(&[0xA1, 0xFE, 0xB1, 0xFF]);
    cpu.x = 1;
    cpu.y = 2;
    cpu.memory.write_addr(0x00FF, 0x00);
    cpu.memory.write_addr(0x0000, 0x03);
    cpu.memory.write_addr(0x0300, 0x42);
    cpu.memory.write_addr(0x0302, 0x43);
    cpu.run_instruction().unwrap();
    assert_eq!(cpu.a, 0x42);
    cpu.run_instruction().unwrap();
    assert_eq!(cpu.a, 0x43);
}

#[test]
fn undocumented_opcode_is_refused() {
    let mut cpu = cpu_with(&[0x02]);
    assert_eq!(cpu.run_instruction(), Err(DecodeError { opcode: 0x02, pc: 0x8000 }));
    assert_eq!(cpu.pc, 0x8000);
}

#[test]
fn brk_and_rti() {
    let mut cpu = cpu_with(&[0x00, 0xEA]);
    let mut irq = rom(&[0x00, 0xEA], 0x8000, 0x9000, 0xA000);
    irq[0x2000] = 0x40;
    let mut cpu2 = Cpu::new(Mapper0::new(irq, 0x8000, vec![0u8; 0x2000], 0x2000, false));
    cpu.run_instruction().unwrap();
    assert_eq!(cpu.pc, 0xA000);
    assert!(cpu.interrupt);
    assert_eq!(cpu.memory.read_addr(0x01FD), 0x80);
    assert_eq!(cpu.memory.read_addr(0x01FC), 0x02);
    assert_eq!(cpu.memory.read_addr(0x01FB) & 0x30, 0x30);
    cpu2.run_instruction().unwrap();
    cpu2.run_instruction().unwrap();
    assert_eq!(cpu2.pc, 0x8002);
    assert_eq!(cpu2.sp, 0xFD);
}

#[test]
fn nmi_pushes_state() {
    let mut cpu = cpu_with(&[]);
    cpu.carry = true;
    cpu.interrupt = false;
    cpu.nmi_interrupt();
    assert_eq!(cpu.pc, 0x9000);
    assert!(cpu.interrupt);
    assert_eq!(cpu.sp, 0xFA);
    assert_eq!(cpu.memory.read_addr(0x01FD), 0x80);
    assert_eq!(cpu.memory.read_addr(0x01FC), 0x00);
    assert_eq!(cpu.memory.read_addr(0x01FB), 0x11);
}

#[test]
fn transfers_and_counters() {
    let mut cpu = cpu_with(&[0xAA, 0xCA, 0x9A, 0xBA, 0xC8, 0x98]);
    cpu.a = 0x01;
    cpu.y = 0xFF;
    cpu.run_instruction().unwrap();
    assert_eq!(cpu.x, 0x01);
    cpu.run_instruction().unwrap();
    assert_eq!(cpu.x, 0x00);
    assert!(cpu.zero);
    cpu.run_instruction().unwrap();
    assert_eq!(cpu.sp, 0x00);
    cpu.run_instruction().unwrap();
    assert!(cpu.zero);
    cpu.run_instruction().unwrap();
    assert_eq!(cpu.y, 0);
    cpu.run_instruction().unwrap();
    assert_eq!(cpu.a, 0);
    assert!(cpu.zero);
}

#[test]
fn bit_test_flags() {
    let mut cpu = cpu_with(&[0x24, 0x10]);
    cpu.memory.write_addr(0x0010, 0xC0);
    cpu.a = 0x01;
    cpu.run_instruction().unwrap();
    assert!(cpu.negative && cpu.overflow && cpu.zero);
}
