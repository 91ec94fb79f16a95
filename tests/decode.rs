use nesemu::{read_instruction, Addressing, Instruction, Mapper0, MemoryDevice, OpCode};

fn bus(program: &[u8]) -> Mapper0 {
    let mut prg = vec![0u8; 0x4000];
    prg[..program.len()].copy_from_slice(program);
    Mapper0::new(prg, 0x4000, vec![0u8; 0x2000], 0x2000, true)
}

#[test]
fn decodes_each_operand_width() {
    let mut m = bus(&[0xEA, 0xA9, 0x07, 0x6C, 0x34, 0x12, 0xB6, 0x80]);
    assert_eq!(read_instruction(&mut m, 0x8000), Ok((OpCode(Instruction::Nop, Addressing::Implied), 0x8001, 2)));
    assert_eq!(read_instruction(&mut m, 0x8001), Ok((OpCode(Instruction::Lda, Addressing::Immediate(7)), 0x8003, 2)));
    assert_eq!(read_instruction(&mut m, 0x8003), Ok((OpCode(Instruction::Jmp, Addressing::Indirect(0x1234)), 0x8006, 5)));
    assert_eq!(read_instruction(&mut m, 0x8006), Ok((OpCode(Instruction::Ldx, Addressing::ZeroPageY(0x80)), 0x8008, 4)));
}

#[test]
fn refuses_undocumented_opcodes() {
    let mut m = bus(&[0xFF, 0x02]);
    assert_eq!(read_instruction(&mut m, 0x8000), Err(0xFF));
    assert_eq!(read_instruction(&mut m, 0x8001), Err(0x02));
}

#[test]
fn sixteen_kib_rom_is_mirrored() {
    let mut m = bus(&[0x4C, 0x00, 0x80]);
    assert_eq!(m.read_addr(0xC000), 0x4C);
    assert_eq!(read_instruction(&mut m, 0xC000), Ok((OpCode(Instruction::Jmp, Addressing::Absolute(0x8000)), 0xC003, 3)));
}

#[test]
fn official_opcode_count() {
    let mut valid = 0;
    for b in 0..=255u8 {
        let mut m = bus(&[b, 0, 0]);
        if read_instruction(&mut m, 0x8000).is_ok() {
            valid += 1;
        }
    }
    assert_eq!(valid, 151);
}
