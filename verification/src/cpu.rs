//! The execution engine: a fetch-decode-execute state machine over the
//! register file, program counter, stack pointer, flags and halt bit.
//!
//! [`CPU::step`] advances the machine by exactly one instruction. Its result
//! is pinned to the specification-level transition function [`spec_step`]:
//! on success the machine and memory equal the specified next state, and on a
//! fault (unknown opcode, register operand out of range, division by zero)
//! nothing has changed.

use crate::instructions::OP_ADD_RI;
use crate::instructions::OP_ADD_RR;
use crate::instructions::OP_CALL;
use crate::instructions::OP_CMP_RI;
use crate::instructions::OP_CMP_RR;
use crate::instructions::OP_DIV;
use crate::instructions::OP_HLT;
use crate::instructions::OP_JMP;
use crate::instructions::OP_JNZ;
use crate::instructions::OP_JZ;
use crate::instructions::OP_MOV_RI;
use crate::instructions::OP_MOV_RR;
use crate::instructions::OP_MUL;
use crate::instructions::OP_RET;
use crate::instructions::OP_SUB_RI;
use crate::instructions::OP_SUB_RR;
use crate::memory::Memory;
use vstd::prelude::*;

verus! {

/// The machine state outside memory: four 8-bit registers, 16-bit program
/// counter and stack pointer, the two condition flags, and the halt bit.
#[derive(Clone, Copy, PartialEq, Eq, Structural, Debug)]
pub struct CPU {
    pub a: u8,
    pub b: u8,
    pub c: u8,
    pub d: u8,
    pub pc: u16,
    pub sp: u16,
    pub zero: bool,
    pub carry: bool,
    pub halted: bool,
}

/// A fault raised by a single step: the machine state is left exactly as it
/// was, and the host decides whether to halt, log or trap.
#[derive(Clone, Copy, PartialEq, Eq, Structural, Debug)]
pub enum Fault {
    /// The fetched opcode byte matches no instruction table entry.
    UnknownOpcode(u8),
    /// A register operand byte does not name one of the four registers.
    InvalidRegister(u8),
    /// A `div` whose divisor register holds 0.
    DivideByZero,
}

/// Reduction of an address computation into the 16-bit address space; defined
/// for one wrap in either direction, which covers every use here (`pc` and
/// `sp` moved by at most 2).
pub open spec fn wrap16(i: int) -> u16 {
    if i >= 65536 {
        (i - 65536) as u16
    } else if i < 0 {
        (i + 65536) as u16
    } else {
        i as u16
    }
}

/// The 16-bit value stored little-endian as `lo` then `hi`.
pub open spec fn le16(lo: u8, hi: u8) -> u16 {
    (hi as int * 256 + lo as int) as u16
}

/// The value of register `r`; meaningful for `r < 4`.
pub open spec fn reg_spec(c: CPU, r: u8) -> u8 {
    if r == 0 {
        c.a
    } else if r == 1 {
        c.b
    } else if r == 2 {
        c.c
    } else {
        c.d
    }
}

/// The machine with register `r` set to `v`; meaningful for `r < 4`.
pub open spec fn with_reg(c: CPU, r: u8, v: u8) -> CPU {
    if r == 0 {
        CPU { a: v, ..c }
    } else if r == 1 {
        CPU { b: v, ..c }
    } else if r == 2 {
        CPU { c: v, ..c }
    } else {
        CPU { d: v, ..c }
    }
}

/// 8-bit wrapping sum.
pub open spec fn add8(x: u8, y: u8) -> u8 {
    ((x + y) % 256) as u8
}

/// 8-bit wrapping difference.
pub open spec fn sub8(x: u8, y: u8) -> u8 {
    (((x - y) + 256) % 256) as u8
}

/// Low 8 bits of the 16-bit product.
pub open spec fn mul8(x: u8, y: u8) -> u8 {
    ((x * y) % 256) as u8
}

/// `mov dst, imm`, entered with `c.pc` at the first operand byte: the
/// destination register takes the immediate, `zero` tracks the moved value,
/// `carry` is untouched.
pub open spec fn spec_mov_ri(c: CPU, m: Seq<u8>) -> Result<CPU, Fault> {
    let r = m[c.pc as int];
    let v = m[wrap16(c.pc + 1) as int];
    if r >= 4 {
        Err(Fault::InvalidRegister(r))
    } else {
        Ok(CPU { pc: wrap16(c.pc + 2), zero: v == 0, ..with_reg(c, r, v) })
    }
}

/// `mov dst, src`: the destination register takes the source register's
/// value, `zero` tracks it, `carry` is untouched. The source operand is
/// checked first, then the destination.
pub open spec fn spec_mov_rr(c: CPU, m: Seq<u8>) -> Result<CPU, Fault> {
    let dst = m[c.pc as int];
    let src = m[wrap16(c.pc + 1) as int];
    if src >= 4 {
        Err(Fault::InvalidRegister(src))
    } else if dst >= 4 {
        Err(Fault::InvalidRegister(dst))
    } else {
        let v = reg_spec(c, src);
        Ok(CPU { pc: wrap16(c.pc + 2), zero: v == 0, ..with_reg(c, dst, v) })
    }
}

/// `add dst, src`: 8-bit wrapping sum into the destination; `zero` tracks the
/// result, `carry` the unsigned overflow.
pub open spec fn spec_add_rr(c: CPU, m: Seq<u8>) -> Result<CPU, Fault> {
    let dst = m[c.pc as int];
    let src = m[wrap16(c.pc + 1) as int];
    if dst >= 4 {
        Err(Fault::InvalidRegister(dst))
    } else if src >= 4 {
        Err(Fault::InvalidRegister(src))
    } else {
        let x = reg_spec(c, dst);
        let y = reg_spec(c, src);
        Ok(
            CPU {
                pc: wrap16(c.pc + 2),
                zero: add8(x, y) == 0,
                carry: x + y > 255,
                ..with_reg(c, dst, add8(x, y))
            },
        )
    }
}

/// `add dst, imm`: as [`spec_add_rr`] with an immediate operand.
pub open spec fn spec_add_ri(c: CPU, m: Seq<u8>) -> Result<CPU, Fault> {
    let dst = m[c.pc as int];
    let y = m[wrap16(c.pc + 1) as int];
    if dst >= 4 {
        Err(Fault::InvalidRegister(dst))
    } else {
        let x = reg_spec(c, dst);
        Ok(
            CPU {
                pc: wrap16(c.pc + 2),
                zero: add8(x, y) == 0,
                carry: x + y > 255,
                ..with_reg(c, dst, add8(x, y))
            },
        )
    }
}

/// `sub dst, src`: 8-bit wrapping difference into the destination; `zero`
/// tracks the result, `carry` the borrow.
pub open spec fn spec_sub_rr(c: CPU, m: Seq<u8>) -> Result<CPU, Fault> {
    let dst = m[c.pc as int];
    let src = m[wrap16(c.pc + 1) as int];
    if dst >= 4 {
        Err(Fault::InvalidRegister(dst))
    } else if src >= 4 {
        Err(Fault::InvalidRegister(src))
    } else {
        let x = reg_spec(c, dst);
        let y = reg_spec(c, src);
        Ok(
            CPU {
                pc: wrap16(c.pc + 2),
                zero: sub8(x, y) == 0,
                carry: x < y,
                ..with_reg(c, dst, sub8(x, y))
            },
        )
    }
}

/// `sub dst, imm`: as [`spec_sub_rr`] with an immediate operand.
pub open spec fn spec_sub_ri(c: CPU, m: Seq<u8>) -> Result<CPU, Fault> {
    let dst = m[c.pc as int];
    let y = m[wrap16(c.pc + 1) as int];
    if dst >= 4 {
        Err(Fault::InvalidRegister(dst))
    } else {
        let x = reg_spec(c, dst);
        Ok(
            CPU {
                pc: wrap16(c.pc + 2),
                zero: sub8(x, y) == 0,
                carry: x < y,
                ..with_reg(c, dst, sub8(x, y))
            },
        )
    }
}

/// `cmp r1, src`: sets the flags exactly as `sub` would, stores nothing.
pub open spec fn spec_cmp_rr(c: CPU, m: Seq<u8>) -> Result<CPU, Fault> {
    let r1 = m[c.pc as int];
    let r2 = m[wrap16(c.pc + 1) as int];
    if r1 >= 4 {
        Err(Fault::InvalidRegister(r1))
    } else if r2 >= 4 {
        Err(Fault::InvalidRegister(r2))
    } else {
        let x = reg_spec(c, r1);
        let y = reg_spec(c, r2);
        Ok(CPU { pc: wrap16(c.pc + 2), zero: sub8(x, y) == 0, carry: x < y, ..c })
    }
}

/// `cmp r1, imm`: as [`spec_cmp_rr`] with an immediate operand.
pub open spec fn spec_cmp_ri(c: CPU, m: Seq<u8>) -> Result<CPU, Fault> {
    let r1 = m[c.pc as int];
    let y = m[wrap16(c.pc + 1) as int];
    if r1 >= 4 {
        Err(Fault::InvalidRegister(r1))
    } else {
        let x = reg_spec(c, r1);
        Ok(CPU { pc: wrap16(c.pc + 2), zero: sub8(x, y) == 0, carry: x < y, ..c })
    }
}

/// `mul dst, src`: low 8 bits of the 16-bit product into the destination;
/// `zero` tracks the stored byte, `carry` is set exactly when the full
/// product exceeds 255.
pub open spec fn spec_mul(c: CPU, m: Seq<u8>) -> Result<CPU, Fault> {
    let dst = m[c.pc as int];
    let src = m[wrap16(c.pc + 1) as int];
    if dst >= 4 {
        Err(Fault::InvalidRegister(dst))
    } else if src >= 4 {
        Err(Fault::InvalidRegister(src))
    } else {
        let x = reg_spec(c, dst);
        let y = reg_spec(c, src);
        Ok(
            CPU {
                pc: wrap16(c.pc + 2),
                zero: mul8(x, y) == 0,
                carry: x * y > 255,
                ..with_reg(c, dst, mul8(x, y))
            },
        )
    }
}

/// `div dst, src`: unsigned integer quotient into the destination; `zero`
/// tracks the quotient, `carry` is untouched; a zero divisor is a fault.
pub open spec fn spec_div(c: CPU, m: Seq<u8>) -> Result<CPU, Fault> {
    let dst = m[c.pc as int];
    let src = m[wrap16(c.pc + 1) as int];
    if dst >= 4 {
        Err(Fault::InvalidRegister(dst))
    } else if src >= 4 {
        Err(Fault::InvalidRegister(src))
    } else if reg_spec(c, src) == 0 {
        Err(Fault::DivideByZero)
    } else {
        let q = (reg_spec(c, dst) / reg_spec(c, src)) as u8;
        Ok(CPU { pc: wrap16(c.pc + 2), zero: q == 0, ..with_reg(c, dst, q) })
    }
}

/// `jmp addr`: the program counter takes the little-endian operand address.
pub open spec fn spec_jmp(c: CPU, m: Seq<u8>) -> CPU {
    let target = le16(m[c.pc as int], m[wrap16(c.pc + 1) as int]);
    CPU { pc: target, ..c }
}

/// `jz addr`: as `jmp` when `zero` is set, otherwise fall through past the
/// operand bytes.
pub open spec fn spec_jz(c: CPU, m: Seq<u8>) -> CPU {
    let target = le16(m[c.pc as int], m[wrap16(c.pc + 1) as int]);
    if c.zero {
        CPU { pc: target, ..c }
    } else {
        CPU { pc: wrap16(c.pc + 2), ..c }
    }
}

/// `jnz addr`: as `jmp` when `zero` is clear, otherwise fall through.
pub open spec fn spec_jnz(c: CPU, m: Seq<u8>) -> CPU {
    let target = le16(m[c.pc as int], m[wrap16(c.pc + 1) as int]);
    if !c.zero {
        CPU { pc: target, ..c }
    } else {
        CPU { pc: wrap16(c.pc + 2), ..c }
    }
}

/// Push of a 16-bit value: `sp` steps down before each byte; the high byte
/// lands at the higher of the two addresses, the low byte below it.
pub open spec fn spec_push16(c: CPU, m: Seq<u8>, val: u16) -> (CPU, Seq<u8>) {
    let sp1 = wrap16(c.sp - 1);
    let m1 = m.update(sp1 as int, (val / 256) as u8);
    let sp2 = wrap16(sp1 - 1);
    let m2 = m1.update(sp2 as int, (val % 256) as u8);
    (CPU { sp: sp2, ..c }, m2)
}

/// Pop of a 16-bit value: the low byte is read at `sp`, the high byte above
/// it, `sp` stepping up after each byte; exactly inverse to [`spec_push16`].
pub open spec fn spec_pop16(c: CPU, m: Seq<u8>) -> (CPU, u16) {
    let lo = m[c.sp as int];
    let sp1 = wrap16(c.sp + 1);
    let hi = m[sp1 as int];
    let sp2 = wrap16(sp1 + 1);
    (CPU { sp: sp2, ..c }, le16(lo, hi))
}

/// `call addr`: reads the target, pushes the address of the byte after the
/// operand bytes (the return address), and jumps to the target.
pub open spec fn spec_call(c: CPU, m: Seq<u8>) -> (CPU, Seq<u8>) {
    let target = le16(m[c.pc as int], m[wrap16(c.pc + 1) as int]);
    let ret = wrap16(c.pc + 2);
    let pushed = spec_push16(CPU { pc: ret, ..c }, m, ret);
    (CPU { pc: target, ..pushed.0 }, pushed.1)
}

/// `ret`: pops a 16-bit address and jumps to it.
pub open spec fn spec_ret(c: CPU, m: Seq<u8>) -> CPU {
    let popped = spec_pop16(c, m);
    CPU { pc: popped.1, ..popped.0 }
}

/// The machine's transition function: fetch the opcode at `c.pc`, advance
/// past it, and apply the matching handler. `Err` faults leave no trace: the
/// caller's state is unchanged.
pub open spec fn spec_step(c: CPU, m: Seq<u8>) -> Result<(CPU, Seq<u8>), Fault> {
    let op = m[c.pc as int];
    let c1 = CPU { pc: wrap16(c.pc + 1), ..c };
    if op == OP_MOV_RI {
        match spec_mov_ri(c1, m) {
            Ok(c2) => Ok((c2, m)),
            Err(f) => Err(f),
        }
    } else if op == OP_MOV_RR {
        match spec_mov_rr(c1, m) {
            Ok(c2) => Ok((c2, m)),
            Err(f) => Err(f),
        }
    } else if op == OP_ADD_RR {
        match spec_add_rr(c1, m) {
            Ok(c2) => Ok((c2, m)),
            Err(f) => Err(f),
        }
    } else if op == OP_ADD_RI {
        match spec_add_ri(c1, m) {
            Ok(c2) => Ok((c2, m)),
            Err(f) => Err(f),
        }
    } else if op == OP_SUB_RR {
        match spec_sub_rr(c1, m) {
            Ok(c2) => Ok((c2, m)),
            Err(f) => Err(f),
        }
    } else if op == OP_SUB_RI {
        match spec_sub_ri(c1, m) {
            Ok(c2) => Ok((c2, m)),
            Err(f) => Err(f),
        }
    } else if op == OP_JMP {
        Ok((spec_jmp(c1, m), m))
    } else if op == OP_JZ {
        Ok((spec_jz(c1, m), m))
    } else if op == OP_JNZ {
        Ok((spec_jnz(c1, m), m))
    } else if op == OP_CMP_RI {
        match spec_cmp_ri(c1, m) {
            Ok(c2) => Ok((c2, m)),
            Err(f) => Err(f),
        }
    } else if op == OP_CMP_RR {
        match spec_cmp_rr(c1, m) {
            Ok(c2) => Ok((c2, m)),
            Err(f) => Err(f),
        }
    } else if op == OP_MUL {
        match spec_mul(c1, m) {
            Ok(c2) => Ok((c2, m)),
            Err(f) => Err(f),
        }
    } else if op == OP_DIV {
        match spec_div(c1, m) {
            Ok(c2) => Ok((c2, m)),
            Err(f) => Err(f),
        }
    } else if op == OP_CALL {
        Ok(spec_call(c1, m))
    } else if op == OP_RET {
        Ok((spec_ret(c1, m), m))
    } else if op == OP_HLT {
        Ok((CPU { halted: true, ..c1 }, m))
    } else {
        Err(Fault::UnknownOpcode(op))
    }
}

impl Default for CPU {
    /// The machine as constructed: everything zero, flags clear, running.
    fn default() -> (c: CPU)
        ensures
            c == (CPU {
                a: 0,
                b: 0,
                c: 0,
                d: 0,
                pc: 0,
                sp: 0,
                zero: false,
                carry: false,
                halted: false,
            }),
    {
        CPU { a: 0, b: 0, c: 0, d: 0, pc: 0, sp: 0, zero: false, carry: false, halted: false }
    }
}

impl CPU {
    /// The value of register `r`.
    fn get_reg(&self, r: u8) -> (v: u8)
        requires
            r < 4,
        ensures
            v == reg_spec(*self, r),
    {
        match r {
            0 => self.a,
            1 => self.b,
            2 => self.c,
            _ => self.d,
        }
    }

    /// Sets register `r` to `val`.
    fn set_reg(&mut self, r: u8, val: u8)
        requires
            r < 4,
        ensures
            *final(self) == with_reg(*old(self), r, val),
    {
        match r {
            0 => self.a = val,
            1 => self.b = val,
            2 => self.c = val,
            _ => self.d = val,
        }
    }

    /// Advances the program counter by one byte, wrapping in the 16-bit
    /// address space.
    pub fn inc_pc(&mut self)
        ensures
            *final(self) == (CPU { pc: wrap16(old(self).pc + 1), ..*old(self) }),
    {
        self.pc = self.pc.wrapping_add(1);
    }

    /// Steps the stack pointer up by one byte, wrapping.
    pub fn inc_sp(&mut self)
        ensures
            *final(self) == (CPU { sp: wrap16(old(self).sp + 1), ..*old(self) }),
    {
        self.sp = self.sp.wrapping_add(1);
    }

    /// Steps the stack pointer down by one byte, wrapping.
    pub fn dec_sp(&mut self)
        ensures
            *final(self) == (CPU { sp: wrap16(old(self).sp - 1), ..*old(self) }),
    {
        self.sp = self.sp.wrapping_sub(1);
    }

    /// Sets the halt bit; nothing else changes, and no instruction clears it.
    pub fn halt(&mut self)
        ensures
            *final(self) == (CPU { halted: true, ..*old(self) }),
    {
        self.halted = true;
    }

    fn push16(&mut self, mem: &mut Memory, val: u16)
        requires
            old(mem).wf(),
        ensures
            final(mem).wf(),
            *final(self) == spec_push16(*old(self), old(mem)@, val).0,
            final(mem)@ == spec_push16(*old(self), old(mem)@, val).1,
    {
        self.dec_sp();
        mem.write(self.sp, (val / 256) as u8);
        self.dec_sp();
        mem.write(self.sp, (val % 256) as u8);
    }

    fn pop16(&mut self, mem: &Memory) -> (val: u16)
        requires
            mem.wf(),
        ensures
            *final(self) == spec_pop16(*old(self), mem@).0,
            val == spec_pop16(*old(self), mem@).1,
    {
        let lo = mem.read(self.sp);
        self.inc_sp();
        let hi = mem.read(self.sp);
        self.inc_sp();
        (hi as u16) * 256 + (lo as u16)
    }

    /// Register-immediate `mov`, entered with `pc` at the first operand byte.
    pub fn mov_ri(&mut self, mem: &Memory) -> (r: Result<(), Fault>)
        requires
            mem.wf(),
        ensures
            (match spec_mov_ri(*old(self), mem@) {
                Ok(c2) => r is Ok && *final(self) == c2,
                Err(f) => r == Err::<(), Fault>(f) && *final(self) == *old(self),
            }),
    {
        let reg = mem.read(self.pc);
        let val = mem.read(self.pc.wrapping_add(1));
        if reg >= 4 {
            return Err(Fault::InvalidRegister(reg));
        }
        self.inc_pc();
        self.inc_pc();
        self.set_reg(reg, val);
        self.zero = val == 0;
        Ok(())
    }

    /// Register-register `mov`.
    pub fn mov_rr(&mut self, mem: &Memory) -> (r: Result<(), Fault>)
        requires
            mem.wf(),
        ensures
            (match spec_mov_rr(*old(self), mem@) {
                Ok(c2) => r is Ok && *final(self) == c2,
                Err(f) => r == Err::<(), Fault>(f) && *final(self) == *old(self),
            }),
    {
        let dst = mem.read(self.pc);
        let src = mem.read(self.pc.wrapping_add(1));
        if src >= 4 {
            return Err(Fault::InvalidRegister(src));
        }
        if dst >= 4 {
            return Err(Fault::InvalidRegister(dst));
        }
        self.inc_pc();
        self.inc_pc();
        let val = self.get_reg(src);
        self.set_reg(dst, val);
        self.zero = val == 0;
        Ok(())
    }

    /// Register-register `add`.
    #[verifier::rlimit(60)]
    pub fn add_rr(&mut self, mem: &Memory) -> (r: Result<(), Fault>)
        requires
            mem.wf(),
        ensures
            (match spec_add_rr(*old(self), mem@) {
                Ok(c2) => r is Ok && *final(self) == c2,
                Err(f) => r == Err::<(), Fault>(f) && *final(self) == *old(self),
            }),
    {
        let dst = mem.read(self.pc);
        let src = mem.read(self.pc.wrapping_add(1));
        if dst >= 4 {
            return Err(Fault::InvalidRegister(dst));
        }
        if src >= 4 {
            return Err(Fault::InvalidRegister(src));
        }
        self.inc_pc();
        self.inc_pc();
        let x = self.get_reg(dst);
        let y = self.get_reg(src);
        let result = x.wrapping_add(y);
        let carry = (x as u16) + (y as u16) > 255;
        self.set_reg(dst, result);
        self.zero = result == 0;
        self.carry = carry;
        Ok(())
    }

    /// Register-immediate `add`.
    pub fn add_ri(&mut self, mem: &Memory) -> (r: Result<(), Fault>)
        requires
            mem.wf(),
        ensures
            (match spec_add_ri(*old(self), mem@) {
                Ok(c2) => r is Ok && *final(self) == c2,
                Err(f) => r == Err::<(), Fault>(f) && *final(self) == *old(self),
            }),
    {
        let dst = mem.read(self.pc);
        let imm = mem.read(self.pc.wrapping_add(1));
        if dst >= 4 {
            return Err(Fault::InvalidRegister(dst));
        }
        self.inc_pc();
        self.inc_pc();
        let x = self.get_reg(dst);
        let result = x.wrapping_add(imm);
        let carry = (x as u16) + (imm as u16) > 255;
        self.set_reg(dst, result);
        self.zero = result == 0;
        self.carry = carry;
        Ok(())
    }

    /// Register-register `sub`.
    pub fn sub_rr(&mut self, mem: &Memory) -> (r: Result<(), Fault>)
        requires
            mem.wf(),
        ensures
            (match spec_sub_rr(*old(self), mem@) {
                Ok(c2) => r is Ok && *final(self) == c2,
                Err(f) => r == Err::<(), Fault>(f) && *final(self) == *old(self),
            }),
    {
        let dst = mem.read(self.pc);
        let src = mem.read(self.pc.wrapping_add(1));
        if dst >= 4 {
            return Err(Fault::InvalidRegister(dst));
        }
        if src >= 4 {
            return Err(Fault::InvalidRegister(src));
        }
        self.inc_pc();
        self.inc_pc();
        let x = self.get_reg(dst);
        let y = self.get_reg(src);
        let result = x.wrapping_sub(y);
        let borrow = x < y;
        self.set_reg(dst, result);
        self.zero = result == 0;
        self.carry = borrow;
        Ok(())
    }

    /// Register-immediate `sub`.
    pub fn sub_ri(&mut self, mem: &Memory) -> (r: Result<(), Fault>)
        requires
            mem.wf(),
        ensures
            (match spec_sub_ri(*old(self), mem@) {
                Ok(c2) => r is Ok && *final(self) == c2,
                Err(f) => r == Err::<(), Fault>(f) && *final(self) == *old(self),
            }),
    {
        let dst = mem.read(self.pc);
        let imm = mem.read(self.pc.wrapping_add(1));
        if dst >= 4 {
            return Err(Fault::InvalidRegister(dst));
        }
        self.inc_pc();
        self.inc_pc();
        let x = self.get_reg(dst);
        let result = x.wrapping_sub(imm);
        let borrow = x < imm;
        self.set_reg(dst, result);
        self.zero = result == 0;
        self.carry = borrow;
        Ok(())
    }

    /// Unconditional jump; never faults.
    pub fn jmp(&mut self, mem: &Memory)
        requires
            mem.wf(),
        ensures
            *final(self) == spec_jmp(*old(self), mem@),
    {
        let lo = mem.read(self.pc);
        self.inc_pc();
        let hi = mem.read(self.pc);
        self.inc_pc();
        self.pc = (hi as u16) * 256 + (lo as u16);
    }

    /// Jump taken exactly when the zero flag is set.
    pub fn jz(&mut self, mem: &Memory)
        requires
            mem.wf(),
        ensures
            *final(self) == spec_jz(*old(self), mem@),
    {
        let lo = mem.read(self.pc);
        self.inc_pc();
        let hi = mem.read(self.pc);
        self.inc_pc();
        if self.zero {
            self.pc = (hi as u16) * 256 + (lo as u16);
        }
    }

    /// Jump taken exactly when the zero flag is clear.
    pub fn jnz(&mut self, mem: &Memory)
        requires
            mem.wf(),
        ensures
            *final(self) == spec_jnz(*old(self), mem@),
    {
        let lo = mem.read(self.pc);
        self.inc_pc();
        let hi = mem.read(self.pc);
        self.inc_pc();
        if !self.zero {
            self.pc = (hi as u16) * 256 + (lo as u16);
        }
    }

    /// Register-register `cmp`: flags as `sub`, no store.
    pub fn cmp_rr(&mut self, mem: &Memory) -> (r: Result<(), Fault>)
        requires
            mem.wf(),
        ensures
            (match spec_cmp_rr(*old(self), mem@) {
                Ok(c2) => r is Ok && *final(self) == c2,
                Err(f) => r == Err::<(), Fault>(f) && *final(self) == *old(self),
            }),
    {
        let r1 = mem.read(self.pc);
        let r2 = mem.read(self.pc.wrapping_add(1));
        if r1 >= 4 {
            return Err(Fault::InvalidRegister(r1));
        }
        if r2 >= 4 {
            return Err(Fault::InvalidRegister(r2));
        }
        self.inc_pc();
        self.inc_pc();
        let x = self.get_reg(r1);
        let y = self.get_reg(r2);
        let result = x.wrapping_sub(y);
        let borrow = x < y;
        self.zero = result == 0;
        self.carry = borrow;
        Ok(())
    }

    /// Register-immediate `cmp`.
    pub fn cmp_ri(&mut self, mem: &Memory) -> (r: Result<(), Fault>)
        requires
            mem.wf(),
        ensures
            (match spec_cmp_ri(*old(self), mem@) {
                Ok(c2) => r is Ok && *final(self) == c2,
                Err(f) => r == Err::<(), Fault>(f) && *final(self) == *old(self),
            }),
    {
        let r1 = mem.read(self.pc);
        let imm = mem.read(self.pc.wrapping_add(1));
        if r1 >= 4 {
            return Err(Fault::InvalidRegister(r1));
        }
        self.inc_pc();
        self.inc_pc();
        let x = self.get_reg(r1);
        let result = x.wrapping_sub(imm);
        let borrow = x < imm;
        self.zero = result == 0;
        self.carry = borrow;
        Ok(())
    }

    /// `mul`: low byte of the 16-bit product; `carry` records whether the
    /// product exceeded 8 bits.
    pub fn mul(&mut self, mem: &Memory) -> (r: Result<(), Fault>)
        requires
            mem.wf(),
        ensures
            (match spec_mul(*old(self), mem@) {
                Ok(c2) => r is Ok && *final(self) == c2,
                Err(f) => r == Err::<(), Fault>(f) && *final(self) == *old(self),
            }),
    {
        let dst = mem.read(self.pc);
        let src = mem.read(self.pc.wrapping_add(1));
        if dst >= 4 {
            return Err(Fault::InvalidRegister(dst));
        }
        if src >= 4 {
            return Err(Fault::InvalidRegister(src));
        }
        self.inc_pc();
        self.inc_pc();
        let x = self.get_reg(dst);
        let y = self.get_reg(src);
        assert(x * y <= 255 * 255) by (nonlinear_arith)
            requires
                x <= 255,
                y <= 255,
        ;
        let product: u16 = (x as u16) * (y as u16);
        let low: u8 = (product % 256) as u8;
        self.set_reg(dst, low);
        self.zero = low == 0;
        self.carry = product > 255;
        Ok(())
    }

    /// `div`: unsigned quotient; a zero divisor faults and changes nothing.
    pub fn div(&mut self, mem: &Memory) -> (r: Result<(), Fault>)
        requires
            mem.wf(),
        ensures
            (match spec_div(*old(self), mem@) {
                Ok(c2) => r is Ok && *final(self) == c2,
                Err(f) => r == Err::<(), Fault>(f) && *final(self) == *old(self),
            }),
    {
        let dst = mem.read(self.pc);
        let src = mem.read(self.pc.wrapping_add(1));
        if dst >= 4 {
            return Err(Fault::InvalidRegister(dst));
        }
        if src >= 4 {
            return Err(Fault::InvalidRegister(src));
        }
        let x = self.get_reg(dst);
        let y = self.get_reg(src);
        if y == 0 {
            return Err(Fault::DivideByZero);
        }
        self.inc_pc();
        self.inc_pc();
        let q = x / y;
        self.set_reg(dst, q);
        self.zero = q == 0;
        Ok(())
    }

    /// Advances the machine by exactly one instruction: fetch the opcode at
    /// `pc`, decode, execute. On `Ok` the machine and memory are the state
    /// that [`spec_step`] gives; on `Err` both are exactly as before the
    /// call. The caller keeps the machine from stepping once halted.
    pub fn step(&mut self, mem: &mut Memory) -> (r: Result<(), Fault>)
        requires
            old(mem).wf(),
            !old(self).halted,
        ensures
            final(mem).wf(),
            (match spec_step(*old(self), old(mem)@) {
                Ok(cm) => r is Ok && *final(self) == cm.0 && final(mem)@ == cm.1,
                Err(f) => r == Err::<(), Fault>(f) && *final(self) == *old(self)
                    && final(mem)@ == old(mem)@,
            }),
    {
        let saved = *self;
        let opcode = mem.read(self.pc);
        self.inc_pc();
        let r: Result<(), Fault> = if opcode == OP_MOV_RI {
            self.mov_ri(mem)
        } else if opcode == OP_MOV_RR {
            self.mov_rr(mem)
        } else if opcode == OP_ADD_RR {
            self.add_rr(mem)
        } else if opcode == OP_ADD_RI {
            self.add_ri(mem)
        } else if opcode == OP_SUB_RR {
            self.sub_rr(mem)
        } else if opcode == OP_SUB_RI {
            self.sub_ri(mem)
        } else if opcode == OP_JMP {
            self.jmp(mem);
            Ok(())
        } else if opcode == OP_JZ {
            self.jz(mem);
            Ok(())
        } else if opcode == OP_JNZ {
            self.jnz(mem);
            Ok(())
        } else if opcode == OP_CMP_RI {
            self.cmp_ri(mem)
        } else if opcode == OP_CMP_RR {
            self.cmp_rr(mem)
        } else if opcode == OP_MUL {
            self.mul(mem)
        } else if opcode == OP_DIV {
            self.div(mem)
        } else if opcode == OP_CALL {
            let lo = mem.read(self.pc);
            self.inc_pc();
            let hi = mem.read(self.pc);
            self.inc_pc();
            let target = (hi as u16) * 256 + (lo as u16);
            let ret = self.pc;
            self.push16(mem, ret);
            self.pc = target;
            Ok(())
        } else if opcode == OP_RET {
            let addr = self.pop16(mem);
            self.pc = addr;
            Ok(())
        } else if opcode == OP_HLT {
            self.halt();
            Ok(())
        } else {
            Err(Fault::UnknownOpcode(opcode))
        };
        match r {
            Ok(u) => Ok(u),
            Err(f) => {
                *self = saved;
                Err(f)
            },
        }
    }
}

} // verus!
