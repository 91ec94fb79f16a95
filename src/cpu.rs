use vstd::prelude::*;

use crate::opcode::{add16, decode_spec, read_instruction, Addressing, Instruction, OpCode};

verus! {

/// A device on the CPU's 16-bit address bus.
///
/// Reads may change the device (a status register that clears, a controller
/// that shifts), so both operations take `&mut self`. Each is described by
/// spec functions: the value a read returns, and the device after a read or
/// a write.
pub trait MemoryDevice: Sized {
    /// The device's own well-formedness.
    spec fn inv(&self) -> bool;

    /// The byte that a read of `addr` returns.
    spec fn peek(&self, addr: u16) -> u8;

    /// The device after a read of `addr`.
    spec fn after_read(&self, addr: u16) -> Self;

    /// The device after `val` is written to `addr`.
    spec fn after_write(&self, addr: u16, val: u8) -> Self;

    fn read_addr(&mut self, addr: u16) -> (r: u8)
        requires
            old(self).inv(),
        ensures
            final(self).inv(),
            r == old(self).peek(addr),
            *final(self) == old(self).after_read(addr),
    ;

    fn write_addr(&mut self, addr: u16, val: u8)
        requires
            old(self).inv(),
        ensures
            final(self).inv(),
            *final(self) == old(self).after_write(addr, val),
    ;
}

/// An undocumented opcode met at `pc`: the emulator cannot go on.
#[derive(Debug, Clone, Copy, PartialEq, Eq, Structural)]
pub struct DecodeError {
    pub opcode: u8,
    pub pc: u16,
}

/// The little-endian word of bytes `lo` and `hi`.
pub open spec fn word(lo: u8, hi: u8) -> u16 {
    (hi as int * 256 + lo as int) as u16
}

/// Where `JMP (ptr)` fetches its high byte: the carry out of the low byte of
/// `ptr` is lost, so the fetch stays in the page of `ptr`.
pub open spec fn indirect_hi_addr(ptr: u16) -> u16 {
    ((ptr as int / 256) * 256 + (ptr as int % 256 + 1) % 256) as u16
}

/// The target of a branch with displacement byte `off` taken at `pc`: the
/// byte is a signed two's-complement offset.
pub open spec fn branch_target(pc: u16, off: u8) -> u16 {
    add16(pc, if off < 128 { off as int } else { off as int - 256 })
}

/// Flags packed into a status byte, bit 4 set.
pub open spec fn pack_status(c: bool, z: bool, i: bool, d: bool, b: bool, v: bool, n: bool) -> u8 {
    (if c { 0x01u8 } else { 0u8 }) | (if z { 0x02u8 } else { 0u8 }) | (if i { 0x04u8 } else { 0u8 })
        | (if d { 0x08u8 } else { 0u8 }) | 0x10u8 | (if b { 0x20u8 } else { 0u8 }) | (if v {
        0x40u8
    } else {
        0u8
    }) | (if n { 0x80u8 } else { 0u8 })
}

/// The 6502 register file and the bus it drives.
pub struct Cpu<M: MemoryDevice> {
    pub pc: u16,
    pub sp: u8,
    pub a: u8,
    pub x: u8,
    pub y: u8,
    pub carry: bool,
    pub zero: bool,
    pub interrupt: bool,
    pub decimal: bool,
    pub brk: bool,
    pub overflow: bool,
    pub negative: bool,
    pub memory: M,
}

impl<M: MemoryDevice> Cpu<M> {
    pub open spec fn inv(&self) -> bool {
        self.memory.inv()
    }

    /// A bus read: the value and the CPU with the device after the read.
    pub open spec fn read_spec(self, addr: u16) -> (u8, Self) {
        (self.memory.peek(addr), Cpu { memory: self.memory.after_read(addr), ..self })
    }

    pub open spec fn write_spec(self, addr: u16, val: u8) -> Self {
        Cpu { memory: self.memory.after_write(addr, val), ..self }
    }

    /// The packed status byte: C, Z, I, D in bits 0 to 3, bit 4 always set,
    /// `brk` in bit 5, V and N in bits 6 and 7.
    pub open spec fn status_spec(&self, brk: bool) -> u8 {
        pack_status(self.carry, self.zero, self.interrupt, self.decimal, brk, self.overflow, self.negative)
    }

    /// The flags unpacked from status byte `b`; the B flag and bit 4 are not flags.
    pub open spec fn with_status(self, b: u8) -> Self {
        Cpu {
            carry: b & 0x01 != 0,
            zero: b & 0x02 != 0,
            interrupt: b & 0x04 != 0,
            decimal: b & 0x08 != 0,
            overflow: b & 0x40 != 0,
            negative: b & 0x80 != 0,
            ..self
        }
    }

    /// Z and N set from `v`.
    pub open spec fn nz(self, v: u8) -> Self {
        Cpu { zero: v == 0, negative: v >= 0x80, ..self }
    }

    /// Writes `b` at `$0100 + SP`, then decrements SP modulo 256.
    pub open spec fn push_spec(self, b: u8) -> Self {
        Cpu {
            sp: ((self.sp as int + 255) % 256) as u8,
            ..self.write_spec((0x100 + self.sp as int) as u16, b)
        }
    }

    /// Increments SP modulo 256, then reads `$0100 + SP`.
    pub open spec fn pop_spec(self) -> (u8, Self) {
        let sp = ((self.sp as int + 1) % 256) as u8;
        Cpu { sp, ..self }.read_spec((0x100 + sp as int) as u16)
    }

    /// The effective address of a memory operand, and the CPU after the
    /// pointer reads that the mode makes.
    pub open spec fn addr_spec(self, m: Addressing) -> (u16, Self) {
        match m {
            Addressing::ZeroPage(z) => (z as u16, self),
            Addressing::ZeroPageX(z) => (((z as int + self.x as int) % 256) as u16, self),
            Addressing::ZeroPageY(z) => (((z as int + self.y as int) % 256) as u16, self),
            Addressing::Absolute(w) => (w, self),
            Addressing::AbsoluteX(w) => (add16(w, self.x as int), self),
            Addressing::AbsoluteY(w) => (add16(w, self.y as int), self),
            Addressing::Indirect(p) => {
                let (lo, c1) = self.read_spec(p);
                let (hi, c2) = c1.read_spec(indirect_hi_addr(p));
                (word(lo, hi), c2)
            },
            Addressing::IndirectX(z) => {
                let zp = (z as int + self.x as int) % 256;
                let (lo, c1) = self.read_spec(zp as u16);
                let (hi, c2) = c1.read_spec(((zp + 1) % 256) as u16);
                (word(lo, hi), c2)
            },
            Addressing::IndirectY(z) => {
                let (lo, c1) = self.read_spec(z as u16);
                let (hi, c2) = c1.read_spec(((z as int + 1) % 256) as u16);
                (add16(word(lo, hi), self.y as int), c2)
            },
            _ => (0, self),
        }
    }

    /// The operand value: A, the immediate byte, or the byte at the
    /// effective address.
    pub open spec fn arg_spec(self, m: Addressing) -> (u8, Self) {
        match m {
            Addressing::Accumulator => (self.a, self),
            Addressing::Immediate(n) => (n, self),
            Addressing::Implied | Addressing::Relative(_) => (0, self),
            _ => {
                let (addr, c1) = self.addr_spec(m);
                c1.read_spec(addr)
            },
        }
    }

    /// Binary add with carry: A + n + C, carry out past bit 7, overflow when
    /// two operands of one sign give a result of the other.
    pub open spec fn adc_spec(self, n: u8) -> Self {
        let sum = self.a as int + n as int + if self.carry { 1int } else { 0int };
        let r = (sum % 256) as u8;
        Cpu {
            a: r,
            carry: sum >= 256,
            overflow: (self.a < 0x80) == (n < 0x80) && (r < 0x80) != (self.a < 0x80),
            ..self
        }.nz(r)
    }

    /// Subtract with borrow: add with carry of the complement of `n`.
    pub open spec fn sbc_spec(self, n: u8) -> Self {
        self.adc_spec((255 - n) as u8)
    }

    /// Flags of a comparison of `reg` with `n`.
    pub open spec fn compare_spec(self, reg: u8, n: u8) -> Self {
        Cpu {
            carry: reg >= n,
            zero: reg == n,
            negative: (reg as int - n as int + 256) % 256 >= 0x80,
            ..self
        }
    }

    pub open spec fn branch_spec(self, cond: bool, m: Addressing) -> Self {
        match m {
            Addressing::Relative(off) => if cond {
                Cpu { pc: branch_target(self.pc, off), ..self }
            } else {
                self
            },
            _ => self,
        }
    }

    /// Pushes a return address, high byte first.
    pub open spec fn push_word_spec(self, w: u16) -> Self {
        self.push_spec((w as int / 256) as u8).push_spec((w as int % 256) as u8)
    }

    /// Interrupt entry: pushes PC and the status byte with B = `brk`, sets
    /// I and jumps through the vector at `vector`, `vector + 1`.
    pub open spec fn interrupt_spec(self, brk: bool, vector: u16) -> Self {
        let c1 = self.push_word_spec(self.pc);
        let c2 = c1.push_spec(c1.status_spec(brk));
        let (lo, c3) = c2.read_spec(vector);
        let (hi, c4) = c3.read_spec(add16(vector, 1));
        Cpu { pc: word(lo, hi), interrupt: true, ..c4 }
    }

    /// Servicing a non-maskable interrupt.
    pub open spec fn nmi_spec(self) -> Self {
        self.interrupt_spec(false, 0xFFFA)
    }

    /// The result and carry out of a read-modify-write instruction on `v`.
    pub open spec fn modify_spec(ins: Instruction, v: u8, carry: bool) -> (u8, bool) {
        let c = if carry { 1int } else { 0int };
        match ins {
            Instruction::Asl => (((v as int * 2) % 256) as u8, v >= 0x80),
            Instruction::Lsr => ((v / 2) as u8, v % 2 == 1),
            Instruction::Rol => (((v as int * 2 + c) % 256) as u8, v >= 0x80),
            Instruction::Ror => ((v as int / 2 + 128 * c) as u8, v % 2 == 1),
            Instruction::Inc => (((v as int + 1) % 256) as u8, carry),
            _ => (((v as int + 255) % 256) as u8, carry),
        }
    }

    /// A read-modify-write instruction on A or on memory.
    pub open spec fn rmw_spec(self, ins: Instruction, m: Addressing) -> Self {
        match m {
            Addressing::Accumulator => {
                let (r, c) = Self::modify_spec(ins, self.a, self.carry);
                Cpu { a: r, carry: c, ..self }.nz(r)
            },
            _ => {
                let (addr, c1) = self.addr_spec(m);
                let (v, c2) = c1.read_spec(addr);
                let (r, c) = Self::modify_spec(ins, v, self.carry);
                Cpu { carry: c, ..c2.write_spec(addr, r) }.nz(r)
            },
        }
    }

    /// The register update of an instruction that takes an operand value `n`.
    pub open spec fn operand_spec(self, ins: Instruction, n: u8) -> Self {
        match ins {
            Instruction::Adc => self.adc_spec(n),
            Instruction::Sbc => self.sbc_spec(n),
            Instruction::And => Cpu { a: self.a & n, ..self }.nz(self.a & n),
            Instruction::Ora => Cpu { a: self.a | n, ..self }.nz(self.a | n),
            Instruction::Eor => Cpu { a: self.a ^ n, ..self }.nz(self.a ^ n),
            Instruction::Lda => Cpu { a: n, ..self }.nz(n),
            Instruction::Ldx => Cpu { x: n, ..self }.nz(n),
            Instruction::Ldy => Cpu { y: n, ..self }.nz(n),
            Instruction::Cmp => self.compare_spec(self.a, n),
            Instruction::Cpx => self.compare_spec(self.x, n),
            Instruction::Cpy => self.compare_spec(self.y, n),
            _ => Cpu { overflow: (n / 64) % 2 == 1, negative: n >= 0x80, zero: self.a & n == 0, ..self },
        }
    }

    /// The condition under which branch instruction `ins` is taken.
    pub open spec fn branch_condition(self, ins: Instruction) -> bool {
        match ins {
            Instruction::Bcc => !self.carry,
            Instruction::Bcs => self.carry,
            Instruction::Beq => self.zero,
            Instruction::Bne => !self.zero,
            Instruction::Bmi => self.negative,
            Instruction::Bpl => !self.negative,
            Instruction::Bvc => !self.overflow,
            _ => self.overflow,
        }
    }

    /// Instructions that only touch registers and flags.
    pub open spec fn register_spec(self, ins: Instruction) -> Self {
        match ins {
            Instruction::Clc => Cpu { carry: false, ..self },
            Instruction::Cld => Cpu { decimal: false, ..self },
            Instruction::Cli => Cpu { interrupt: false, ..self },
            Instruction::Clv => Cpu { overflow: false, ..self },
            Instruction::Sec => Cpu { carry: true, ..self },
            Instruction::Sed => Cpu { decimal: true, ..self },
            Instruction::Sei => Cpu { interrupt: true, ..self },
            Instruction::Dex => {
                let r = ((self.x as int + 255) % 256) as u8;
                Cpu { x: r, ..self }.nz(r)
            },
            Instruction::Dey => {
                let r = ((self.y as int + 255) % 256) as u8;
                Cpu { y: r, ..self }.nz(r)
            },
            Instruction::Inx => {
                let r = ((self.x as int + 1) % 256) as u8;
                Cpu { x: r, ..self }.nz(r)
            },
            Instruction::Iny => {
                let r = ((self.y as int + 1) % 256) as u8;
                Cpu { y: r, ..self }.nz(r)
            },
            Instruction::Tax => Cpu { x: self.a, ..self }.nz(self.a),
            Instruction::Tay => Cpu { y: self.a, ..self }.nz(self.a),
            Instruction::Tsx => Cpu { x: self.sp, ..self }.nz(self.sp),
            Instruction::Txa => Cpu { a: self.x, ..self }.nz(self.x),
            Instruction::Tya => Cpu { a: self.y, ..self }.nz(self.y),
            Instruction::Txs => Cpu { sp: self.x, ..self },
            _ => self,
        }
    }

    /// BRK and the stack instructions.
    pub open spec fn stack_spec(self, ins: Instruction) -> Self {
        match ins {
            Instruction::Brk => Cpu { pc: add16(self.pc, 1), ..self }.interrupt_spec(true, 0xFFFE),
            Instruction::Pha => self.push_spec(self.a),
            Instruction::Php => self.push_spec(self.status_spec(true)),
            Instruction::Pla => {
                let (v, c) = self.pop_spec();
                Cpu { a: v, ..c }.nz(v)
            },
            Instruction::Plp => {
                let (v, c) = self.pop_spec();
                c.with_status(v)
            },
            Instruction::Rti => {
                let (s, c1) = self.pop_spec();
                let (lo, c2) = c1.pop_spec();
                let (hi, c3) = c2.pop_spec();
                Cpu { pc: word(lo, hi), ..c3 }.with_status(s)
            },
            _ => {
                let (lo, c1) = self.pop_spec();
                let (hi, c2) = c1.pop_spec();
                Cpu { pc: add16(word(lo, hi), 1), ..c2 }
            },
        }
    }

    /// Jumps and stores: instructions that use an effective address.
    pub open spec fn address_spec(self, ins: Instruction, m: Addressing) -> Self {
        let (addr, c) = self.addr_spec(m);
        match ins {
            Instruction::Jmp => Cpu { pc: addr, ..c },
            Instruction::Jsr => Cpu { pc: addr, ..c.push_word_spec(add16(c.pc, -1)) },
            Instruction::Sta => c.write_spec(addr, c.a),
            Instruction::Stx => c.write_spec(addr, c.x),
            _ => c.write_spec(addr, c.y),
        }
    }

    /// Executing `op` once PC has moved past it.
    pub open spec fn exec_spec(self, op: OpCode) -> Self {
        let m = op.1;
        match op.0 {
            Instruction::Adc | Instruction::Sbc | Instruction::And | Instruction::Ora
            | Instruction::Eor | Instruction::Lda | Instruction::Ldx | Instruction::Ldy
            | Instruction::Cmp | Instruction::Cpx | Instruction::Cpy | Instruction::Bit => {
                let (n, c) = self.arg_spec(m);
                c.operand_spec(op.0, n)
            },
            Instruction::Asl | Instruction::Lsr | Instruction::Rol | Instruction::Ror
            | Instruction::Inc | Instruction::Dec => self.rmw_spec(op.0, m),
            Instruction::Bcc | Instruction::Bcs | Instruction::Beq | Instruction::Bne
            | Instruction::Bmi | Instruction::Bpl | Instruction::Bvc | Instruction::Bvs => {
                self.branch_spec(self.branch_condition(op.0), m)
            },
            Instruction::Brk | Instruction::Pha | Instruction::Php | Instruction::Pla
            | Instruction::Plp | Instruction::Rti | Instruction::Rts => self.stack_spec(op.0),
            Instruction::Jmp | Instruction::Jsr | Instruction::Sta | Instruction::Stx
            | Instruction::Sty => self.address_spec(op.0, m),
            _ => self.register_spec(op.0),
        }
    }

    /// One instruction: decode at PC, move PC past it, execute it; the base
    /// cycle count, or the undocumented opcode with PC left on it.
    pub open spec fn step_spec(self) -> (Self, Result<usize, DecodeError>) {
        let (d, m1) = decode_spec(self.memory, self.pc);
        match d {
            Err(b) => (Cpu { memory: m1, ..self }, Err(DecodeError { opcode: b, pc: self.pc })),
            Ok((op, next, cycles)) => (Cpu { memory: m1, pc: next, ..self }.exec_spec(op), Ok(cycles)),
        }
    }
}

impl<M: MemoryDevice> Cpu<M> {
    /// Resets a CPU onto `memory`, reading the reset vector.
    pub fn new(memory: M) -> (r: Self)
        requires
            memory.inv(),
        ensures
            r.inv(),
            r == reset_spec(memory),
    {
        let mut cpu = Cpu {
            pc: 0,
            sp: 0,
            a: 0,
            x: 0,
            y: 0,
            carry: false,
            zero: false,
            interrupt: false,
            decimal: false,
            brk: false,
            overflow: false,
            negative: false,
            memory,
        };
        cpu.set_status_byte(0x34);
        assert(0x34u8 & 0x01 == 0 && 0x34u8 & 0x02 == 0 && 0x34u8 & 0x04 != 0 && 0x34u8 & 0x08 == 0
            && 0x34u8 & 0x40 == 0 && 0x34u8 & 0x80 == 0) by (bit_vector);
        cpu.sp = 0xFD;
        let lo = cpu.memory.read_addr(0xFFFC);
        let hi = cpu.memory.read_addr(0xFFFD);
        cpu.pc = (hi as u16) * 256 + lo as u16;
        cpu
    }

    /// Reads the byte at `addr` on the bus.
    fn read(&mut self, addr: u16) -> (r: u8)
        requires
            old(self).inv(),
        ensures
            final(self).inv(),
            (r, *final(self)) == old(self).read_spec(addr),
    {
        self.memory.read_addr(addr)
    }

    /// Writes `val` at `addr` on the bus.
    fn write(&mut self, addr: u16, val: u8)
        requires
            old(self).inv(),
        ensures
            final(self).inv(),
            *final(self) == old(self).write_spec(addr, val),
    {
        self.memory.write_addr(addr, val)
    }

    /// The effective address of a memory operand.
    pub fn get_addr(&mut self, addressing: Addressing) -> (r: u16)
        requires
            old(self).inv(),
        ensures
            final(self).inv(),
            (r, *final(self)) == old(self).addr_spec(addressing),
    {
        match addressing {
            Addressing::ZeroPage(z) => z as u16,
            Addressing::ZeroPageX(z) => (z as u16 + self.x as u16) % 256,
            Addressing::ZeroPageY(z) => (z as u16 + self.y as u16) % 256,
            Addressing::Absolute(w) => w,
            Addressing::AbsoluteX(w) => w.wrapping_add(self.x as u16),
            Addressing::AbsoluteY(w) => w.wrapping_add(self.y as u16),
            Addressing::Indirect(p) => {
                let lo = self.read(p);
                let hi = self.read((p / 256) * 256 + (p % 256 + 1) % 256);
                (hi as u16) * 256 + lo as u16
            },
            Addressing::IndirectX(z) => {
                let zp: u16 = (z as u16 + self.x as u16) % 256;
                let lo = self.read(zp);
                let hi = self.read((zp + 1) % 256);
                (hi as u16) * 256 + lo as u16
            },
            Addressing::IndirectY(z) => {
                let lo = self.read(z as u16);
                let hi = self.read((z as u16 + 1) % 256);
                ((hi as u16) * 256 + lo as u16).wrapping_add(self.y as u16)
            },
            _ => 0,
        }
    }

    /// The operand value of an instruction.
    pub fn read_arg(&mut self, addressing: Addressing) -> (r: u8)
        requires
            old(self).inv(),
        ensures
            final(self).inv(),
            (r, *final(self)) == old(self).arg_spec(addressing),
    {
        match addressing {
            Addressing::Accumulator => self.a,
            Addressing::Immediate(n) => n,
            Addressing::Implied | Addressing::Relative(_) => 0,
            _ => {
                let addr = self.get_addr(addressing);
                self.read(addr)
            },
        }
    }

    /// The packed status byte, with `brk` as the B flag.
    pub fn status_byte(&self, brk: bool) -> (r: u8)
        ensures
            r == self.status_spec(brk),
    {
        (if self.carry { 0x01u8 } else { 0u8 }) | (if self.zero { 0x02u8 } else { 0u8 }) | (
        if self.interrupt {
            0x04u8
        } else {
            0u8
        }) | (if self.decimal { 0x08u8 } else { 0u8 }) | 0x10u8 | (if brk {
            0x20u8
        } else {
            0u8
        }) | (if self.overflow { 0x40u8 } else { 0u8 }) | (if self.negative {
            0x80u8
        } else {
            0u8
        })
    }

    /// Loads the flags from status byte `b` (B and bit 4 are ignored).
    pub fn set_status_byte(&mut self, b: u8)
        ensures
            *final(self) == old(self).with_status(b),
    {
        self.carry = b & 0x01 != 0;
        self.zero = b & 0x02 != 0;
        self.interrupt = b & 0x04 != 0;
        self.decimal = b & 0x08 != 0;
        self.overflow = b & 0x40 != 0;
        self.negative = b & 0x80 != 0;
    }

    fn set_nz(&mut self, v: u8)
        ensures
            *final(self) == old(self).nz(v),
    {
        self.zero = v == 0;
        self.negative = v >= 0x80;
    }

    /// Pushes a byte onto the stack.
    pub fn push(&mut self, b: u8)
        requires
            old(self).inv(),
        ensures
            final(self).inv(),
            *final(self) == old(self).push_spec(b),
    {
        let addr: u16 = 0x100 + self.sp as u16;
        self.write(addr, b);
        self.sp = self.sp.wrapping_sub(1);
    }

    /// Pops a byte off the stack.
    pub fn pop(&mut self) -> (r: u8)
        requires
            old(self).inv(),
        ensures
            final(self).inv(),
            (r, *final(self)) == old(self).pop_spec(),
    {
        self.sp = self.sp.wrapping_add(1);
        let addr: u16 = 0x100 + self.sp as u16;
        self.read(addr)
    }

    fn push_word(&mut self, w: u16)
        requires
            old(self).inv(),
        ensures
            final(self).inv(),
            *final(self) == old(self).push_word_spec(w),
    {
        self.push((w / 256) as u8);
        self.push((w % 256) as u8);
    }

    fn interrupt(&mut self, brk: bool, vector: u16)
        requires
            old(self).inv(),
            vector < 0xFFFF,
        ensures
            final(self).inv(),
            *final(self) == old(self).interrupt_spec(brk, vector),
    {
        let pc = self.pc;
        self.push_word(pc);
        let status = self.status_byte(brk);
        self.push(status);
        let lo = self.read(vector);
        let hi = self.read(vector + 1);
        self.pc = (hi as u16) * 256 + lo as u16;
        self.interrupt = true;
    }

    /// Services a non-maskable interrupt: pushes PC and the status byte with
    /// B clear, sets I, and jumps through the vector at `$FFFA`.
    pub fn nmi_interrupt(&mut self)
        requires
            old(self).inv(),
        ensures
            final(self).inv(),
            *final(self) == old(self).nmi_spec(),
    {
        self.interrupt(false, 0xFFFA);
    }

    pub fn adc(&mut self, n: u8)
        ensures
            *final(self) == old(self).adc_spec(n),
    {
        let sum: u16 = self.a as u16 + n as u16 + if self.carry { 1 } else { 0 };
        let r = (sum % 256) as u8;
        self.overflow = (self.a < 0x80) == (n < 0x80) && (r < 0x80) != (self.a < 0x80);
        self.carry = sum >= 256;
        self.a = r;
        self.set_nz(r);
    }

    pub fn sbc(&mut self, n: u8)
        ensures
            *final(self) == old(self).sbc_spec(n),
    {
        self.adc(255 - n);
    }

    pub fn and(&mut self, n: u8)
        ensures
            *final(self) == (Cpu { a: old(self).a & n, ..*old(self) }).nz(old(self).a & n),
    {
        self.a = self.a & n;
        let a = self.a;
        self.set_nz(a);
    }

    pub fn ora(&mut self, n: u8)
        ensures
            *final(self) == (Cpu { a: old(self).a | n, ..*old(self) }).nz(old(self).a | n),
    {
        self.a = self.a | n;
        let a = self.a;
        self.set_nz(a);
    }

    pub fn eor(&mut self, n: u8)
        ensures
            *final(self) == (Cpu { a: old(self).a ^ n, ..*old(self) }).nz(old(self).a ^ n),
    {
        self.a = self.a ^ n;
        let a = self.a;
        self.set_nz(a);
    }

    pub fn lda(&mut self, n: u8)
        ensures
            *final(self) == (Cpu { a: n, ..*old(self) }).nz(n),
    {
        self.a = n;
        self.set_nz(n);
    }

    pub fn ldx(&mut self, n: u8)
        ensures
            *final(self) == (Cpu { x: n, ..*old(self) }).nz(n),
    {
        self.x = n;
        self.set_nz(n);
    }

    pub fn ldy(&mut self, n: u8)
        ensures
            *final(self) == (Cpu { y: n, ..*old(self) }).nz(n),
    {
        self.y = n;
        self.set_nz(n);
    }

    fn compare(&mut self, reg: u8, n: u8)
        ensures
            *final(self) == old(self).compare_spec(reg, n),
    {
        self.carry = reg >= n;
        self.zero = reg == n;
        self.negative = reg.wrapping_sub(n) >= 0x80;
    }

    pub fn cmp(&mut self, n: u8)
        ensures
            *final(self) == old(self).compare_spec(old(self).a, n),
    {
        let a = self.a;
        self.compare(a, n);
    }

    pub fn cpx(&mut self, n: u8)
        ensures
            *final(self) == old(self).compare_spec(old(self).x, n),
    {
        let x = self.x;
        self.compare(x, n);
    }

    pub fn cpy(&mut self, n: u8)
        ensures
            *final(self) == old(self).compare_spec(old(self).y, n),
    {
        let y = self.y;
        self.compare(y, n);
    }

    /// Adds the relative displacement to PC when `condition` holds.
    pub fn branch(&mut self, condition: bool, addressing: Addressing)
        ensures
            *final(self) == old(self).branch_spec(condition, addressing),
    {
        match addressing {
            Addressing::Relative(off) => {
                if condition {
                    let d: u16 = if off < 128 { off as u16 } else { off as u16 + 0xFF00 };
                    self.pc = self.pc.wrapping_add(d);
                }
            },
            _ => {},
        }
    }
    fn modify(ins: Instruction, v: u8, carry: bool) -> (r: (u8, bool))
        ensures
            r == Self::modify_spec(ins, v, carry),
    {
        let c: u16 = if carry { 1 } else { 0 };
        match ins {
            Instruction::Asl => (((v as u16 * 2) % 256) as u8, v >= 0x80),
            Instruction::Lsr => (v / 2, v % 2 == 1),
            Instruction::Rol => (((v as u16 * 2 + c) % 256) as u8, v >= 0x80),
            Instruction::Ror => ((v as u16 / 2 + 128 * c) as u8, v % 2 == 1),
            Instruction::Inc => (v.wrapping_add(1), carry),
            _ => (v.wrapping_sub(1), carry),
        }
    }

    /// A read-modify-write instruction (shift, rotate, increment, decrement).
    fn rmw(&mut self, ins: Instruction, addressing: Addressing)
        requires
            old(self).inv(),
        ensures
            final(self).inv(),
            *final(self) == old(self).rmw_spec(ins, addressing),
    {
        match addressing {
            Addressing::Accumulator => {
                let (r, c) = Self::modify(ins, self.a, self.carry);
                self.a = r;
                self.carry = c;
                self.set_nz(r);
            },
            _ => {
                let addr = self.get_addr(addressing);
                let v = self.read(addr);
                let (r, c) = Self::modify(ins, v, self.carry);
                self.write(addr, r);
                self.carry = c;
                self.set_nz(r);
            },
        }
    }

    /// An instruction that takes an operand value `n`.
    fn apply_operand(&mut self, ins: Instruction, n: u8)
        ensures
            *final(self) == old(self).operand_spec(ins, n),
    {
        match ins {
            Instruction::Adc => self.adc(n),
            Instruction::Sbc => self.sbc(n),
            Instruction::And => self.and(n),
            Instruction::Ora => self.ora(n),
            Instruction::Eor => self.eor(n),
            Instruction::Lda => self.lda(n),
            Instruction::Ldx => self.ldx(n),
            Instruction::Ldy => self.ldy(n),
            Instruction::Cmp => self.cmp(n),
            Instruction::Cpx => self.cpx(n),
            Instruction::Cpy => self.cpy(n),
            _ => {
                self.overflow = (n / 64) % 2 == 1;
                self.negative = n >= 0x80;
                self.zero = self.a & n == 0;
            },
        }
    }

    fn branch_taken(&self, ins: Instruction) -> (r: bool)
        ensures
            r == self.branch_condition(ins),
    {
        match ins {
            Instruction::Bcc => !self.carry,
            Instruction::Bcs => self.carry,
            Instruction::Beq => self.zero,
            Instruction::Bne => !self.zero,
            Instruction::Bmi => self.negative,
            Instruction::Bpl => !self.negative,
            Instruction::Bvc => !self.overflow,
            _ => self.overflow,
        }
    }

    /// Instructions that only touch registers and flags.
    fn apply_register(&mut self, ins: Instruction)
        ensures
            *final(self) == old(self).register_spec(ins),
    {
        match ins {
            Instruction::Clc => self.carry = false,
            Instruction::Cld => self.decimal = false,
            Instruction::Cli => self.interrupt = false,
            Instruction::Clv => self.overflow = false,
            Instruction::Sec => self.carry = true,
            Instruction::Sed => self.decimal = true,
            Instruction::Sei => self.interrupt = true,
            Instruction::Dex => {
                self.x = self.x.wrapping_sub(1);
                let v = self.x;
                self.set_nz(v);
            },
            Instruction::Dey => {
                self.y = self.y.wrapping_sub(1);
                let v = self.y;
                self.set_nz(v);
            },
            Instruction::Inx => {
                self.x = self.x.wrapping_add(1);
                let v = self.x;
                self.set_nz(v);
            },
            Instruction::Iny => {
                self.y = self.y.wrapping_add(1);
                let v = self.y;
                self.set_nz(v);
            },
            Instruction::Tax => {
                let v = self.a;
                self.x = v;
                self.set_nz(v);
            },
            Instruction::Tay => {
                let v = self.a;
                self.y = v;
                self.set_nz(v);
            },
            Instruction::Tsx => {
                let v = self.sp;
                self.x = v;
                self.set_nz(v);
            },
            Instruction::Txa => {
                let v = self.x;
                self.a = v;
                self.set_nz(v);
            },
            Instruction::Tya => {
                let v = self.y;
                self.a = v;
                self.set_nz(v);
            },
            Instruction::Txs => self.sp = self.x,
            _ => {},
        }
    }

    /// BRK and the stack instructions.
    fn apply_stack(&mut self, ins: Instruction)
        requires
            old(self).inv(),
        ensures
            final(self).inv(),
            *final(self) == old(self).stack_spec(ins),
    {
        match ins {
            Instruction::Brk => {
                self.pc = self.pc.wrapping_add(1);
                self.interrupt(true, 0xFFFE);
            },
            Instruction::Pha => {
                let a = self.a;
                self.push(a);
            },
            Instruction::Php => {
                let s = self.status_byte(true);
                self.push(s);
            },
            Instruction::Pla => {
                let v = self.pop();
                self.a = v;
                self.set_nz(v);
            },
            Instruction::Plp => {
                let v = self.pop();
                self.set_status_byte(v);
            },
            Instruction::Rti => {
                let s = self.pop();
                let lo = self.pop();
                let hi = self.pop();
                self.pc = (hi as u16) * 256 + lo as u16;
                self.set_status_byte(s);
            },
            _ => {
                let lo = self.pop();
                let hi = self.pop();
                self.pc = ((hi as u16) * 256 + lo as u16).wrapping_add(1);
            },
        }
    }

    /// Jumps and stores: instructions that use an effective address.
    fn apply_address(&mut self, ins: Instruction, m: Addressing)
        requires
            old(self).inv(),
        ensures
            final(self).inv(),
            *final(self) == old(self).address_spec(ins, m),
    {
        let addr = self.get_addr(m);
        match ins {
            Instruction::Jmp => self.pc = addr,
            Instruction::Jsr => {
                let ret = self.pc.wrapping_sub(1);
                self.push_word(ret);
                self.pc = addr;
            },
            Instruction::Sta => {
                let v = self.a;
                self.write(addr, v);
            },
            Instruction::Stx => {
                let v = self.x;
                self.write(addr, v);
            },
            _ => {
                let v = self.y;
                self.write(addr, v);
            },
        }
    }

    /// Executes `opcode`, PC having moved past it.
    fn execute(&mut self, opcode: OpCode)
        requires
            old(self).inv(),
        ensures
            final(self).inv(),
            *final(self) == old(self).exec_spec(opcode),
    {
        let m = opcode.1;
        match opcode.0 {
            Instruction::Adc | Instruction::Sbc | Instruction::And | Instruction::Ora
            | Instruction::Eor | Instruction::Lda | Instruction::Ldx | Instruction::Ldy
            | Instruction::Cmp | Instruction::Cpx | Instruction::Cpy | Instruction::Bit => {
                let n = self.read_arg(m);
                self.apply_operand(opcode.0, n);
            },
            Instruction::Asl | Instruction::Lsr | Instruction::Rol | Instruction::Ror
            | Instruction::Inc | Instruction::Dec => self.rmw(opcode.0, m),
            Instruction::Bcc | Instruction::Bcs | Instruction::Beq | Instruction::Bne
            | Instruction::Bmi | Instruction::Bpl | Instruction::Bvc | Instruction::Bvs => {
                let c = self.branch_taken(opcode.0);
                self.branch(c, m);
            },
            Instruction::Brk | Instruction::Pha | Instruction::Php | Instruction::Pla
            | Instruction::Plp | Instruction::Rti | Instruction::Rts => self.apply_stack(opcode.0),
            Instruction::Jmp | Instruction::Jsr | Instruction::Sta | Instruction::Stx
            | Instruction::Sty => self.apply_address(opcode.0, m),
            _ => self.apply_register(opcode.0),
        }
    }

    /// Executes one instruction and returns its base cycle count; an
    /// undocumented opcode stops the CPU with PC left on it.
    pub fn run_instruction(&mut self) -> (r: Result<usize, DecodeError>)
        requires
            old(self).inv(),
        ensures
            final(self).inv(),
            (*final(self), r) == old(self).step_spec(),
    {
        let pc = self.pc;
        let (opcode, next_pc, cycles) = match read_instruction(&mut self.memory, pc) {
            Ok(d) => d,
            Err(b) => {
                return Err(DecodeError { opcode: b, pc });
            },
        };
        self.pc = next_pc;
        self.execute(opcode);
        Ok(cycles)
    }
}

/// The CPU after reset on `memory`: status `0x34`, A = X = Y = 0,
/// SP = `0xFD`, PC from the reset vector at `$FFFC`, `$FFFD`.
pub open spec fn reset_spec<M: MemoryDevice>(memory: M) -> Cpu<M> {
    let lo = memory.peek(0xFFFC);
    let m1 = memory.after_read(0xFFFC);
    let hi = m1.peek(0xFFFD);
    let m2 = m1.after_read(0xFFFD);
    Cpu {
        pc: word(lo, hi),
        sp: 0xFD,
        a: 0,
        x: 0,
        y: 0,
        carry: false,
        zero: false,
        interrupt: true,
        decimal: false,
        brk: false,
        overflow: false,
        negative: false,
        memory: m2,
    }
}

/// Loading the flags from any status byte `b` and packing them again gives
/// `b` with bits 4 and 5 set when B is set, and `b` with bit 4 set and bit 5
/// clear when it is not.
pub proof fn lemma_status_round_trip<M: MemoryDevice>(c: Cpu<M>, b: u8)
    ensures
        c.with_status(b).status_spec(true) == b | 0x30,
        c.with_status(b).status_spec(false) == (b & 0xCF) | 0x10,
{
    assert(pack_status(b & 0x01 != 0, b & 0x02 != 0, b & 0x04 != 0, b & 0x08 != 0, true, b & 0x40 != 0, b & 0x80 != 0) == b | 0x30
        && pack_status(b & 0x01 != 0, b & 0x02 != 0, b & 0x04 != 0, b & 0x08 != 0, false, b & 0x40 != 0, b & 0x80 != 0) == (b & 0xCF) | 0x10) by (bit_vector);
}

/// Adding `n` with carry and then subtracting `n` with the carry that the
/// addition left restores A, whenever the addition changed the carry.
pub proof fn lemma_adc_sbc_inverse<M: MemoryDevice>(c: Cpu<M>, n: u8)
    requires
        c.adc_spec(n).carry != c.carry,
    ensures
        c.adc_spec(n).sbc_spec(n).a == c.a,
{
}

/// `JMP ($xxFF)` takes its high byte from `$xx00`, in the same page, and not
/// from the first byte of the next page.
pub proof fn lemma_indirect_page_wrap<M: MemoryDevice>(c: Cpu<M>, ptr: u16)
    requires
        ptr % 256 == 255,
    ensures
        indirect_hi_addr(ptr) == ptr - 255,
        c.addr_spec(Addressing::Indirect(ptr)).0 == word(
            c.memory.peek(ptr),
            c.memory.after_read(ptr).peek((ptr - 255) as u16),
        ),
{
}

/// The CPU after pushing `bytes` in order.
pub open spec fn push_all<M: MemoryDevice>(c: Cpu<M>, bytes: Seq<u8>) -> Cpu<M>
    decreases bytes.len(),
{
    if bytes.len() == 0 {
        c
    } else {
        push_all(c, bytes.drop_last()).push_spec(bytes.last())
    }
}

/// Each push moves SP down by one, modulo 256.
pub proof fn lemma_push_all_sp<M: MemoryDevice>(c: Cpu<M>, bytes: Seq<u8>)
    ensures
        push_all(c, bytes).sp as int == (c.sp as int - bytes.len()) % 256,
    decreases bytes.len(),
{
    if bytes.len() > 0 {
        lemma_push_all_sp(c, bytes.drop_last());
    }
}

} // verus!
