use vstd::prelude::*;

use crate::cpu::MemoryDevice;

verus! {

/// A decoded instruction: what it does and where its operand comes from.
#[derive(Debug, Clone, Copy, PartialEq, Eq, Hash)]
pub struct OpCode(pub Instruction, pub Addressing);

/// The official 6502 instructions.
#[derive(Debug, Clone, Copy, PartialEq, Eq, Hash, Structural)]
pub enum Instruction {
    Adc,
    And,
    Asl,
    Bcc,
    Bcs,
    Beq,
    Bit,
    Bmi,
    Bne,
    Bpl,
    Brk,
    Bvc,
    Bvs,
    Clc,
    Cld,
    Cli,
    Clv,
    Cmp,
    Cpx,
    Cpy,
    Dec,
    Dex,
    Dey,
    Eor,
    Inc,
    Inx,
    Iny,
    Jmp,
    Jsr,
    Lda,
    Ldx,
    Ldy,
    Lsr,
    Nop,
    Ora,
    Pha,
    Php,
    Pla,
    Plp,
    Rol,
    Ror,
    Rti,
    Rts,
    Sbc,
    Sec,
    Sed,
    Sei,
    Sta,
    Stx,
    Sty,
    Tax,
    Tay,
    Tsx,
    Txa,
    Txs,
    Tya,
}

/// An addressing mode together with the operand bytes that follow the opcode.
#[derive(Debug, Clone, Copy, PartialEq, Eq, Hash, Structural)]
pub enum Addressing {
    Implied,
    Accumulator,
    Immediate(u8),
    ZeroPage(u8),
    ZeroPageX(u8),
    ZeroPageY(u8),
    Relative(u8),
    Absolute(u16),
    AbsoluteX(u16),
    AbsoluteY(u16),
    Indirect(u16),
    IndirectX(u8),
    IndirectY(u8),
}

/// An addressing mode without its operand.
#[derive(Debug, Clone, Copy, PartialEq, Eq, Hash, Structural)]
pub enum Mode {
    Implied,
    Accumulator,
    Immediate,
    ZeroPage,
    ZeroPageX,
    ZeroPageY,
    Relative,
    Absolute,
    AbsoluteX,
    AbsoluteY,
    Indirect,
    IndirectX,
    IndirectY,
}

/// The opcode matrix: instruction, addressing mode and base cycle count of
/// each official opcode byte; `None` for the undocumented ones.
pub open spec fn opcode_table(b: u8) -> Option<(Instruction, Mode, usize)> {
    match b {
        0x69u8 => Some((Instruction::Adc, Mode::Immediate, 2)),
        0x65u8 => Some((Instruction::Adc, Mode::ZeroPage, 3)),
        0x75u8 => Some((Instruction::Adc, Mode::ZeroPageX, 4)),
        0x6Du8 => Some((Instruction::Adc, Mode::Absolute, 4)),
        0x7Du8 => Some((Instruction::Adc, Mode::AbsoluteX, 4)),
        0x79u8 => Some((Instruction::Adc, Mode::AbsoluteY, 4)),
        0x61u8 => Some((Instruction::Adc, Mode::IndirectX, 6)),
        0x71u8 => Some((Instruction::Adc, Mode::IndirectY, 5)),
        0x29u8 => Some((Instruction::And, Mode::Immediate, 2)),
        0x25u8 => Some((Instruction::And, Mode::ZeroPage, 3)),
        0x35u8 => Some((Instruction::And, Mode::ZeroPageX, 4)),
        0x2Du8 => Some((Instruction::And, Mode::Absolute, 4)),
        0x3Du8 => Some((Instruction::And, Mode::AbsoluteX, 4)),
        0x39u8 => Some((Instruction::And, Mode::AbsoluteY, 4)),
        0x21u8 => Some((Instruction::And, Mode::IndirectX, 6)),
        0x31u8 => Some((Instruction::And, Mode::IndirectY, 5)),
        0x0Au8 => Some((Instruction::Asl, Mode::Accumulator, 2)),
        0x06u8 => Some((Instruction::Asl, Mode::ZeroPage, 5)),
        0x16u8 => Some((Instruction::Asl, Mode::ZeroPageX, 6)),
        0x0Eu8 => Some((Instruction::Asl, Mode::Absolute, 6)),
        0x1Eu8 => Some((Instruction::Asl, Mode::AbsoluteX, 7)),
        0x90u8 => Some((Instruction::Bcc, Mode::Relative, 2)),
        0xB0u8 => Some((Instruction::Bcs, Mode::Relative, 2)),
        0xF0u8 => Some((Instruction::Beq, Mode::Relative, 2)),
        0x24u8 => Some((Instruction::Bit, Mode::ZeroPage, 3)),
        0x2Cu8 => Some((Instruction::Bit, Mode::Absolute, 4)),
        0x30u8 => Some((Instruction::Bmi, Mode::Relative, 2)),
        0xD0u8 => Some((Instruction::Bne, Mode::Relative, 2)),
        0x10u8 => Some((Instruction::Bpl, Mode::Relative, 2)),
        0x00u8 => Some((Instruction::Brk, Mode::Implied, 7)),
        0x50u8 => Some((Instruction::Bvc, Mode::Relative, 2)),
        0x70u8 => Some((Instruction::Bvs, Mode::Relative, 2)),
        0x18u8 => Some((Instruction::Clc, Mode::Implied, 2)),
        0xD8u8 => Some((Instruction::Cld, Mode::Implied, 2)),
        0x58u8 => Some((Instruction::Cli, Mode::Implied, 2)),
        0xB8u8 => Some((Instruction::Clv, Mode::Implied, 2)),
        0xC9u8 => Some((Instruction::Cmp, Mode::Immediate, 2)),
        0xC5u8 => Some((Instruction::Cmp, Mode::ZeroPage, 3)),
        0xD5u8 => Some((Instruction::Cmp, Mode::ZeroPageX, 4)),
        0xCDu8 => Some((Instruction::Cmp, Mode::Absolute, 4)),
        0xDDu8 => Some((Instruction::Cmp, Mode::AbsoluteX, 4)),
        0xD9u8 => Some((Instruction::Cmp, Mode::AbsoluteY, 4)),
        0xC1u8 => Some((Instruction::Cmp, Mode::IndirectX, 6)),
        0xD1u8 => Some((Instruction::Cmp, Mode::IndirectY, 5)),
        0xE0u8 => Some((Instruction::Cpx, Mode::Immediate, 2)),
        0xE4u8 => Some((Instruction::Cpx, Mode::ZeroPage, 3)),
        0xECu8 => Some((Instruction::Cpx, Mode::Absolute, 4)),
        0xC0u8 => Some((Instruction::Cpy, Mode::Immediate, 2)),
        0xC4u8 => Some((Instruction::Cpy, Mode::ZeroPage, 3)),
        0xCCu8 => Some((Instruction::Cpy, Mode::Absolute, 4)),
        0xC6u8 => Some((Instruction::Dec, Mode::ZeroPage, 5)),
        0xD6u8 => Some((Instruction::Dec, Mode::ZeroPageX, 6)),
        0xCEu8 => Some((Instruction::Dec, Mode::Absolute, 6)),
        0xDEu8 => Some((Instruction::Dec, Mode::AbsoluteX, 7)),
        0xCAu8 => Some((Instruction::Dex, Mode::Implied, 2)),
        0x88u8 => Some((Instruction::Dey, Mode::Implied, 2)),
        0x49u8 => Some((Instruction::Eor, Mode::Immediate, 2)),
        0x45u8 => Some((Instruction::Eor, Mode::ZeroPage, 3)),
        0x55u8 => Some((Instruction::Eor, Mode::ZeroPageX, 4)),
        0x4Du8 => Some((Instruction::Eor, Mode::Absolute, 4)),
        0x5Du8 => Some((Instruction::Eor, Mode::AbsoluteX, 4)),
        0x59u8 => Some((Instruction::Eor, Mode::AbsoluteY, 4)),
        0x41u8 => Some((Instruction::Eor, Mode::IndirectX, 6)),
        0x51u8 => Some((Instruction::Eor, Mode::IndirectY, 5)),
        0xE6u8 => Some((Instruction::Inc, Mode::ZeroPage, 5)),
        0xF6u8 => Some((Instruction::Inc, Mode::ZeroPageX, 6)),
        0xEEu8 => Some((Instruction::Inc, Mode::Absolute, 6)),
        0xFEu8 => Some((Instruction::Inc, Mode::AbsoluteX, 7)),
        0xE8u8 => Some((Instruction::Inx, Mode::Implied, 2)),
        0xC8u8 => Some((Instruction::Iny, Mode::Implied, 2)),
        0x4Cu8 => Some((Instruction::Jmp, Mode::Absolute, 3)),
        0x6Cu8 => Some((Instruction::Jmp, Mode::Indirect, 5)),
        0x20u8 => Some((Instruction::Jsr, Mode::Absolute, 6)),
        0xA9u8 => Some((Instruction::Lda, Mode::Immediate, 2)),
        0xA5u8 => Some((Instruction::Lda, Mode::ZeroPage, 3)),
        0xB5u8 => Some((Instruction::Lda, Mode::ZeroPageX, 4)),
        0xADu8 => Some((Instruction::Lda, Mode::Absolute, 4)),
        0xBDu8 => Some((Instruction::Lda, Mode::AbsoluteX, 4)),
        0xB9u8 => Some((Instruction::Lda, Mode::AbsoluteY, 4)),
        0xA1u8 => Some((Instruction::Lda, Mode::IndirectX, 6)),
        0xB1u8 => Some((Instruction::Lda, Mode::IndirectY, 5)),
        0xA2u8 => Some((Instruction::Ldx, Mode::Immediate, 2)),
        0xA6u8 => Some((Instruction::Ldx, Mode::ZeroPage, 3)),
        0xB6u8 => Some((Instruction::Ldx, Mode::ZeroPageY, 4)),
        0xAEu8 => Some((Instruction::Ldx, Mode::Absolute, 4)),
        0xBEu8 => Some((Instruction::Ldx, Mode::AbsoluteY, 4)),
        0xA0u8 => Some((Instruction::Ldy, Mode::Immediate, 2)),
        0xA4u8 => Some((Instruction::Ldy, Mode::ZeroPage, 3)),
        0xB4u8 => Some((Instruction::Ldy, Mode::ZeroPageX, 4)),
        0xACu8 => Some((Instruction::Ldy, Mode::Absolute, 4)),
        0xBCu8 => Some((Instruction::Ldy, Mode::AbsoluteX, 4)),
        0x4Au8 => Some((Instruction::Lsr, Mode::Accumulator, 2)),
        0x46u8 => Some((Instruction::Lsr, Mode::ZeroPage, 5)),
        0x56u8 => Some((Instruction::Lsr, Mode::ZeroPageX, 6)),
        0x4Eu8 => Some((Instruction::Lsr, Mode::Absolute, 6)),
        0x5Eu8 => Some((Instruction::Lsr, Mode::AbsoluteX, 7)),
        0xEAu8 => Some((Instruction::Nop, Mode::Implied, 2)),
        0x09u8 => Some((Instruction::Ora, Mode::Immediate, 2)),
        0x05u8 => Some((Instruction::Ora, Mode::ZeroPage, 3)),
        0x15u8 => Some((Instruction::Ora, Mode::ZeroPageX, 4)),
        0x0Du8 => Some((Instruction::Ora, Mode::Absolute, 4)),
        0x1Du8 => Some((Instruction::Ora, Mode::AbsoluteX, 4)),
        0x19u8 => Some((Instruction::Ora, Mode::AbsoluteY, 4)),
        0x01u8 => Some((Instruction::Ora, Mode::IndirectX, 6)),
        0x11u8 => Some((Instruction::Ora, Mode::IndirectY, 5)),
        0x48u8 => Some((Instruction::Pha, Mode::Implied, 3)),
        0x08u8 => Some((Instruction::Php, Mode::Implied, 3)),
        0x68u8 => Some((Instruction::Pla, Mode::Implied, 4)),
        0x28u8 => Some((Instruction::Plp, Mode::Implied, 4)),
        0x2Au8 => Some((Instruction::Rol, Mode::Accumulator, 2)),
        0x26u8 => Some((Instruction::Rol, Mode::ZeroPage, 5)),
        0x36u8 => Some((Instruction::Rol, Mode::ZeroPageX, 6)),
        0x2Eu8 => Some((Instruction::Rol, Mode::Absolute, 6)),
        0x3Eu8 => Some((Instruction::Rol, Mode::AbsoluteX, 7)),
        0x6Au8 => Some((Instruction::Ror, Mode::Accumulator, 2)),
        0x66u8 => Some((Instruction::Ror, Mode::ZeroPage, 5)),
        0x76u8 => Some((Instruction::Ror, Mode::ZeroPageX, 6)),
        0x6Eu8 => Some((Instruction::Ror, Mode::Absolute, 6)),
        0x7Eu8 => Some((Instruction::Ror, Mode::AbsoluteX, 7)),
        0x40u8 => Some((Instruction::Rti, Mode::Implied, 6)),
        0x60u8 => Some((Instruction::Rts, Mode::Implied, 6)),
        0xE9u8 => Some((Instruction::Sbc, Mode::Immediate, 2)),
        0xE5u8 => Some((Instruction::Sbc, Mode::ZeroPage, 3)),
        0xF5u8 => Some((Instruction::Sbc, Mode::ZeroPageX, 4)),
        0xEDu8 => Some((Instruction::Sbc, Mode::Absolute, 4)),
        0xFDu8 => Some((Instruction::Sbc, Mode::AbsoluteX, 4)),
        0xF9u8 => Some((Instruction::Sbc, Mode::AbsoluteY, 4)),
        0xE1u8 => Some((Instruction::Sbc, Mode::IndirectX, 6)),
        0xF1u8 => Some((Instruction::Sbc, Mode::IndirectY, 5)),
        0x38u8 => Some((Instruction::Sec, Mode::Implied, 2)),
        0xF8u8 => Some((Instruction::Sed, Mode::Implied, 2)),
        0x78u8 => Some((Instruction::Sei, Mode::Implied, 2)),
        0x85u8 => Some((Instruction::Sta, Mode::ZeroPage, 3)),
        0x95u8 => Some((Instruction::Sta, Mode::ZeroPageX, 4)),
        0x8Du8 => Some((Instruction::Sta, Mode::Absolute, 4)),
        0x9Du8 => Some((Instruction::Sta, Mode::AbsoluteX, 5)),
        0x99u8 => Some((Instruction::Sta, Mode::AbsoluteY, 5)),
        0x81u8 => Some((Instruction::Sta, Mode::IndirectX, 6)),
        0x91u8 => Some((Instruction::Sta, Mode::IndirectY, 6)),
        0x86u8 => Some((Instruction::Stx, Mode::ZeroPage, 3)),
        0x96u8 => Some((Instruction::Stx, Mode::ZeroPageY, 4)),
        0x8Eu8 => Some((Instruction::Stx, Mode::Absolute, 4)),
        0x84u8 => Some((Instruction::Sty, Mode::ZeroPage, 3)),
        0x94u8 => Some((Instruction::Sty, Mode::ZeroPageX, 4)),
        0x8Cu8 => Some((Instruction::Sty, Mode::Absolute, 4)),
        0xAAu8 => Some((Instruction::Tax, Mode::Implied, 2)),
        0xA8u8 => Some((Instruction::Tay, Mode::Implied, 2)),
        0xBAu8 => Some((Instruction::Tsx, Mode::Implied, 2)),
        0x8Au8 => Some((Instruction::Txa, Mode::Implied, 2)),
        0x9Au8 => Some((Instruction::Txs, Mode::Implied, 2)),
        0x98u8 => Some((Instruction::Tya, Mode::Implied, 2)),
        _ => None,
    }
}

/// How many operand bytes follow an opcode in mode `m`.
pub open spec fn operand_len(m: Mode) -> nat {
    match m {
        Mode::Implied | Mode::Accumulator => 0,
        Mode::Absolute | Mode::AbsoluteX | Mode::AbsoluteY | Mode::Indirect => 2,
        _ => 1,
    }
}

/// The addressing of mode `m` with operand bytes `lo` and `hi` (little endian).
pub open spec fn with_operand(m: Mode, lo: u8, hi: u8) -> Addressing {
    let w = (hi as int * 256 + lo as int) as u16;
    match m {
        Mode::Implied => Addressing::Implied,
        Mode::Accumulator => Addressing::Accumulator,
        Mode::Immediate => Addressing::Immediate(lo),
        Mode::ZeroPage => Addressing::ZeroPage(lo),
        Mode::ZeroPageX => Addressing::ZeroPageX(lo),
        Mode::ZeroPageY => Addressing::ZeroPageY(lo),
        Mode::Relative => Addressing::Relative(lo),
        Mode::Absolute => Addressing::Absolute(w),
        Mode::AbsoluteX => Addressing::AbsoluteX(w),
        Mode::AbsoluteY => Addressing::AbsoluteY(w),
        Mode::Indirect => Addressing::Indirect(w),
        Mode::IndirectX => Addressing::IndirectX(lo),
        Mode::IndirectY => Addressing::IndirectY(lo),
    }
}

/// `a + k` on the 16-bit address bus.
pub open spec fn add16(a: u16, k: int) -> u16 {
    ((a as int + k) % 0x10000) as u16
}

/// Decoding the instruction at `index` of device `m`: the result that
/// `read_instruction` returns, and the device after the reads it makes (the
/// opcode byte, then each operand byte in turn).
pub open spec fn decode_spec<M: MemoryDevice>(m: M, index: u16) -> (Result<(OpCode, u16, usize), u8>, M) {
    let b = m.peek(index);
    let m1 = m.after_read(index);
    match opcode_table(b) {
        None => (Err(b), m1),
        Some((ins, mode, cycles)) => {
            let n = operand_len(mode);
            if n == 0 {
                (Ok((OpCode(ins, with_operand(mode, 0, 0)), add16(index, 1), cycles)), m1)
            } else {
                let lo = m1.peek(add16(index, 1));
                let m2 = m1.after_read(add16(index, 1));
                if n == 1 {
                    (Ok((OpCode(ins, with_operand(mode, lo, 0)), add16(index, 2), cycles)), m2)
                } else {
                    let hi = m2.peek(add16(index, 2));
                    let m3 = m2.after_read(add16(index, 2));
                    (Ok((OpCode(ins, with_operand(mode, lo, hi)), add16(index, 3), cycles)), m3)
                }
            }
        }
    }
}

/// Looks up an opcode byte in the opcode matrix.
pub fn opcode_entry(b: u8) -> (r: Option<(Instruction, Mode, usize)>)
    ensures
        r == opcode_table(b),
{
    match b {
        0x69u8 => Some((Instruction::Adc, Mode::Immediate, 2)),
        0x65u8 => Some((Instruction::Adc, Mode::ZeroPage, 3)),
        0x75u8 => Some((Instruction::Adc, Mode::ZeroPageX, 4)),
        0x6Du8 => Some((Instruction::Adc, Mode::Absolute, 4)),
        0x7Du8 => Some((Instruction::Adc, Mode::AbsoluteX, 4)),
        0x79u8 => Some((Instruction::Adc, Mode::AbsoluteY, 4)),
        0x61u8 => Some((Instruction::Adc, Mode::IndirectX, 6)),
        0x71u8 => Some((Instruction::Adc, Mode::IndirectY, 5)),
        0x29u8 => Some((Instruction::And, Mode::Immediate, 2)),
        0x25u8 => Some((Instruction::And, Mode::ZeroPage, 3)),
        0x35u8 => Some((Instruction::And, Mode::ZeroPageX, 4)),
        0x2Du8 => Some((Instruction::And, Mode::Absolute, 4)),
        0x3Du8 => Some((Instruction::And, Mode::AbsoluteX, 4)),
        0x39u8 => Some((Instruction::And, Mode::AbsoluteY, 4)),
        0x21u8 => Some((Instruction::And, Mode::IndirectX, 6)),
        0x31u8 => Some((Instruction::And, Mode::IndirectY, 5)),
        0x0Au8 => Some((Instruction::Asl, Mode::Accumulator, 2)),
        0x06u8 => Some((Instruction::Asl, Mode::ZeroPage, 5)),
        0x16u8 => Some((Instruction::Asl, Mode::ZeroPageX, 6)),
        0x0Eu8 => Some((Instruction::Asl, Mode::Absolute, 6)),
        0x1Eu8 => Some((Instruction::Asl, Mode::AbsoluteX, 7)),
        0x90u8 => Some((Instruction::Bcc, Mode::Relative, 2)),
        0xB0u8 => Some((Instruction::Bcs, Mode::Relative, 2)),
        0xF0u8 => Some((Instruction::Beq, Mode::Relative, 2)),
        0x24u8 => Some((Instruction::Bit, Mode::ZeroPage, 3)),
        0x2Cu8 => Some((Instruction::Bit, Mode::Absolute, 4)),
        0x30u8 => Some((Instruction::Bmi, Mode::Relative, 2)),
        0xD0u8 => Some((Instruction::Bne, Mode::Relative, 2)),
        0x10u8 => Some((Instruction::Bpl, Mode::Relative, 2)),
        0x00u8 => Some((Instruction::Brk, Mode::Implied, 7)),
        0x50u8 => Some((Instruction::Bvc, Mode::Relative, 2)),
        0x70u8 => Some((Instruction::Bvs, Mode::Relative, 2)),
        0x18u8 => Some((Instruction::Clc, Mode::Implied, 2)),
        0xD8u8 => Some((Instruction::Cld, Mode::Implied, 2)),
        0x58u8 => Some((Instruction::Cli, Mode::Implied, 2)),
        0xB8u8 => Some((Instruction::Clv, Mode::Implied, 2)),
        0xC9u8 => Some((Instruction::Cmp, Mode::Immediate, 2)),
        0xC5u8 => Some((Instruction::Cmp, Mode::ZeroPage, 3)),
        0xD5u8 => Some((Instruction::Cmp, Mode::ZeroPageX, 4)),
        0xCDu8 => Some((Instruction::Cmp, Mode::Absolute, 4)),
        0xDDu8 => Some((Instruction::Cmp, Mode::AbsoluteX, 4)),
        0xD9u8 => Some((Instruction::Cmp, Mode::AbsoluteY, 4)),
        0xC1u8 => Some((Instruction::Cmp, Mode::IndirectX, 6)),
        0xD1u8 => Some((Instruction::Cmp, Mode::IndirectY, 5)),
        0xE0u8 => Some((Instruction::Cpx, Mode::Immediate, 2)),
        0xE4u8 => Some((Instruction::Cpx, Mode::ZeroPage, 3)),
        0xECu8 => Some((Instruction::Cpx, Mode::Absolute, 4)),
        0xC0u8 => Some((Instruction::Cpy, Mode::Immediate, 2)),
        0xC4u8 => Some((Instruction::Cpy, Mode::ZeroPage, 3)),
        0xCCu8 => Some((Instruction::Cpy, Mode::Absolute, 4)),
        0xC6u8 => Some((Instruction::Dec, Mode::ZeroPage, 5)),
        0xD6u8 => Some((Instruction::Dec, Mode::ZeroPageX, 6)),
        0xCEu8 => Some((Instruction::Dec, Mode::Absolute, 6)),
        0xDEu8 => Some((Instruction::Dec, Mode::AbsoluteX, 7)),
        0xCAu8 => Some((Instruction::Dex, Mode::Implied, 2)),
        0x88u8 => Some((Instruction::Dey, Mode::Implied, 2)),
        0x49u8 => Some((Instruction::Eor, Mode::Immediate, 2)),
        0x45u8 => Some((Instruction::Eor, Mode::ZeroPage, 3)),
        0x55u8 => Some((Instruction::Eor, Mode::ZeroPageX, 4)),
        0x4Du8 => Some((Instruction::Eor, Mode::Absolute, 4)),
        0x5Du8 => Some((Instruction::Eor, Mode::AbsoluteX, 4)),
        0x59u8 => Some((Instruction::Eor, Mode::AbsoluteY, 4)),
        0x41u8 => Some((Instruction::Eor, Mode::IndirectX, 6)),
        0x51u8 => Some((Instruction::Eor, Mode::IndirectY, 5)),
        0xE6u8 => Some((Instruction::Inc, Mode::ZeroPage, 5)),
        0xF6u8 => Some((Instruction::Inc, Mode::ZeroPageX, 6)),
        0xEEu8 => Some((Instruction::Inc, Mode::Absolute, 6)),
        0xFEu8 => Some((Instruction::Inc, Mode::AbsoluteX, 7)),
        0xE8u8 => Some((Instruction::Inx, Mode::Implied, 2)),
        0xC8u8 => Some((Instruction::Iny, Mode::Implied, 2)),
        0x4Cu8 => Some((Instruction::Jmp, Mode::Absolute, 3)),
        0x6Cu8 => Some((Instruction::Jmp, Mode::Indirect, 5)),
        0x20u8 => Some((Instruction::Jsr, Mode::Absolute, 6)),
        0xA9u8 => Some((Instruction::Lda, Mode::Immediate, 2)),
        0xA5u8 => Some((Instruction::Lda, Mode::ZeroPage, 3)),
        0xB5u8 => Some((Instruction::Lda, Mode::ZeroPageX, 4)),
        0xADu8 => Some((Instruction::Lda, Mode::Absolute, 4)),
        0xBDu8 => Some((Instruction::Lda, Mode::AbsoluteX, 4)),
        0xB9u8 => Some((Instruction::Lda, Mode::AbsoluteY, 4)),
        0xA1u8 => Some((Instruction::Lda, Mode::IndirectX, 6)),
        0xB1u8 => Some((Instruction::Lda, Mode::IndirectY, 5)),
        0xA2u8 => Some((Instruction::Ldx, Mode::Immediate, 2)),
        0xA6u8 => Some((Instruction::Ldx, Mode::ZeroPage, 3)),
        0xB6u8 => Some((Instruction::Ldx, Mode::ZeroPageY, 4)),
        0xAEu8 => Some((Instruction::Ldx, Mode::Absolute, 4)),
        0xBEu8 => Some((Instruction::Ldx, Mode::AbsoluteY, 4)),
        0xA0u8 => Some((Instruction::Ldy, Mode::Immediate, 2)),
        0xA4u8 => Some((Instruction::Ldy, Mode::ZeroPage, 3)),
        0xB4u8 => Some((Instruction::Ldy, Mode::ZeroPageX, 4)),
        0xACu8 => Some((Instruction::Ldy, Mode::Absolute, 4)),
        0xBCu8 => Some((Instruction::Ldy, Mode::AbsoluteX, 4)),
        0x4Au8 => Some((Instruction::Lsr, Mode::Accumulator, 2)),
        0x46u8 => Some((Instruction::Lsr, Mode::ZeroPage, 5)),
        0x56u8 => Some((Instruction::Lsr, Mode::ZeroPageX, 6)),
        0x4Eu8 => Some((Instruction::Lsr, Mode::Absolute, 6)),
        0x5Eu8 => Some((Instruction::Lsr, Mode::AbsoluteX, 7)),
        0xEAu8 => Some((Instruction::Nop, Mode::Implied, 2)),
        0x09u8 => Some((Instruction::Ora, Mode::Immediate, 2)),
        0x05u8 => Some((Instruction::Ora, Mode::ZeroPage, 3)),
        0x15u8 => Some((Instruction::Ora, Mode::ZeroPageX, 4)),
        0x0Du8 => Some((Instruction::Ora, Mode::Absolute, 4)),
        0x1Du8 => Some((Instruction::Ora, Mode::AbsoluteX, 4)),
        0x19u8 => Some((Instruction::Ora, Mode::AbsoluteY, 4)),
        0x01u8 => Some((Instruction::Ora, Mode::IndirectX, 6)),
        0x11u8 => Some((Instruction::Ora, Mode::IndirectY, 5)),
        0x48u8 => Some((Instruction::Pha, Mode::Implied, 3)),
        0x08u8 => Some((Instruction::Php, Mode::Implied, 3)),
        0x68u8 => Some((Instruction::Pla, Mode::Implied, 4)),
        0x28u8 => Some((Instruction::Plp, Mode::Implied, 4)),
        0x2Au8 => Some((Instruction::Rol, Mode::Accumulator, 2)),
        0x26u8 => Some((Instruction::Rol, Mode::ZeroPage, 5)),
        0x36u8 => Some((Instruction::Rol, Mode::ZeroPageX, 6)),
        0x2Eu8 => Some((Instruction::Rol, Mode::Absolute, 6)),
        0x3Eu8 => Some((Instruction::Rol, Mode::AbsoluteX, 7)),
        0x6Au8 => Some((Instruction::Ror, Mode::Accumulator, 2)),
        0x66u8 => Some((Instruction::Ror, Mode::ZeroPage, 5)),
        0x76u8 => Some((Instruction::Ror, Mode::ZeroPageX, 6)),
        0x6Eu8 => Some((Instruction::Ror, Mode::Absolute, 6)),
        0x7Eu8 => Some((Instruction::Ror, Mode::AbsoluteX, 7)),
        0x40u8 => Some((Instruction::Rti, Mode::Implied, 6)),
        0x60u8 => Some((Instruction::Rts, Mode::Implied, 6)),
        0xE9u8 => Some((Instruction::Sbc, Mode::Immediate, 2)),
        0xE5u8 => Some((Instruction::Sbc, Mode::ZeroPage, 3)),
        0xF5u8 => Some((Instruction::Sbc, Mode::ZeroPageX, 4)),
        0xEDu8 => Some((Instruction::Sbc, Mode::Absolute, 4)),
        0xFDu8 => Some((Instruction::Sbc, Mode::AbsoluteX, 4)),
        0xF9u8 => Some((Instruction::Sbc, Mode::AbsoluteY, 4)),
        0xE1u8 => Some((Instruction::Sbc, Mode::IndirectX, 6)),
        0xF1u8 => Some((Instruction::Sbc, Mode::IndirectY, 5)),
        0x38u8 => Some((Instruction::Sec, Mode::Implied, 2)),
        0xF8u8 => Some((Instruction::Sed, Mode::Implied, 2)),
        0x78u8 => Some((Instruction::Sei, Mode::Implied, 2)),
        0x85u8 => Some((Instruction::Sta, Mode::ZeroPage, 3)),
        0x95u8 => Some((Instruction::Sta, Mode::ZeroPageX, 4)),
        0x8Du8 => Some((Instruction::Sta, Mode::Absolute, 4)),
        0x9Du8 => Some((Instruction::Sta, Mode::AbsoluteX, 5)),
        0x99u8 => Some((Instruction::Sta, Mode::AbsoluteY, 5)),
        0x81u8 => Some((Instruction::Sta, Mode::IndirectX, 6)),
        0x91u8 => Some((Instruction::Sta, Mode::IndirectY, 6)),
        0x86u8 => Some((Instruction::Stx, Mode::ZeroPage, 3)),
        0x96u8 => Some((Instruction::Stx, Mode::ZeroPageY, 4)),
        0x8Eu8 => Some((Instruction::Stx, Mode::Absolute, 4)),
        0x84u8 => Some((Instruction::Sty, Mode::ZeroPage, 3)),
        0x94u8 => Some((Instruction::Sty, Mode::ZeroPageX, 4)),
        0x8Cu8 => Some((Instruction::Sty, Mode::Absolute, 4)),
        0xAAu8 => Some((Instruction::Tax, Mode::Implied, 2)),
        0xA8u8 => Some((Instruction::Tay, Mode::Implied, 2)),
        0xBAu8 => Some((Instruction::Tsx, Mode::Implied, 2)),
        0x8Au8 => Some((Instruction::Txa, Mode::Implied, 2)),
        0x9Au8 => Some((Instruction::Txs, Mode::Implied, 2)),
        0x98u8 => Some((Instruction::Tya, Mode::Implied, 2)),
        _ => None,
    }
}

/// Reads the instruction at `index`: the decoded instruction, the address of
/// the one after it and its base cycle count; an undocumented opcode is
/// refused with its byte.
pub fn read_instruction<M: MemoryDevice>(pmem: &mut M, index: u16) -> (r: Result<(OpCode, u16, usize), u8>)
    requires
        old(pmem).inv(),
    ensures
        final(pmem).inv(),
        (r, *final(pmem)) == decode_spec(*old(pmem), index),
{
    let b = pmem.read_addr(index);
    match opcode_entry(b) {
        None => Err(b),
        Some((ins, mode, cycles)) => {
            match mode {
                Mode::Implied => Ok((OpCode(ins, Addressing::Implied), index.wrapping_add(1), cycles)),
                Mode::Accumulator => Ok((OpCode(ins, Addressing::Accumulator), index.wrapping_add(1), cycles)),
                Mode::Absolute | Mode::AbsoluteX | Mode::AbsoluteY | Mode::Indirect => {
                    let lo = pmem.read_addr(index.wrapping_add(1));
                    let hi = pmem.read_addr(index.wrapping_add(2));
                    let w: u16 = (hi as u16) * 256 + lo as u16;
                    let a = match mode {
                        Mode::Absolute => Addressing::Absolute(w),
                        Mode::AbsoluteX => Addressing::AbsoluteX(w),
                        Mode::AbsoluteY => Addressing::AbsoluteY(w),
                        _ => Addressing::Indirect(w),
                    };
                    Ok((OpCode(ins, a), index.wrapping_add(3), cycles))
                }
                _ => {
                    let lo = pmem.read_addr(index.wrapping_add(1));
                    let a = match mode {
                        Mode::Immediate => Addressing::Immediate(lo),
                        Mode::ZeroPage => Addressing::ZeroPage(lo),
                        Mode::ZeroPageX => Addressing::ZeroPageX(lo),
                        Mode::ZeroPageY => Addressing::ZeroPageY(lo),
                        Mode::Relative => Addressing::Relative(lo),
                        Mode::IndirectX => Addressing::IndirectX(lo),
                        _ => Addressing::IndirectY(lo),
                    };
                    Ok((OpCode(ins, a), index.wrapping_add(2), cycles))
                }
            }
        }
    }
}

} // verus!
