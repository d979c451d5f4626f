//! The SM83 instruction interpreter: fetch, decode and execute one
//! instruction, with the cycle count of the opcode table.
use crate::cpu::{
    add_spec, daa_spec, dec_spec, inc_spec, base_cycles, base_cycles_spec, cb_cycles, cb_cycles_spec, flag_set, flags_spec,
    illegal_spec, is_illegal, sub_spec, Cpu, FLAG_C, FLAG_H, FLAG_N, FLAG_Z,
};
use crate::util::{has_carry, has_half_carry, sign_extend, sign_extended};
use crate::interrupt::{pending, pending_spec};
use crate::mem::{MemView, Memory};
use vstd::prelude::*;

verus! {

/// Whether the condition of a conditional jump, call or return holds: bits
/// 3-4 of the opcode select NZ, Z, NC or C.
pub open spec fn taken_spec(op: u8, f: u8) -> bool {
    let cc = (op / 8) % 4;
    if cc == 0 {
        !flag_set(f, FLAG_Z)
    } else if cc == 1 {
        flag_set(f, FLAG_Z)
    } else if cc == 2 {
        !flag_set(f, FLAG_C)
    } else {
        flag_set(f, FLAG_C)
    }
}

/// Register `idx` (B, C, D, E, H, L, (HL), A) as the instruction reads it.
pub open spec fn r8_spec(c: Cpu, m: MemView, idx: u8) -> u8 {
    let i = idx % 8;
    if i == 0 {
        c.b
    } else if i == 1 {
        c.c
    } else if i == 2 {
        c.d
    } else if i == 3 {
        c.e
    } else if i == 4 {
        c.h
    } else if i == 5 {
        c.l
    } else if i == 6 {
        m.read((c.h * 0x100 + c.l) as u16)
    } else {
        c.a
    }
}

/// The registers after register `idx` (not (HL)) takes `v`.
pub open spec fn with_r8(c: Cpu, idx: u8, v: u8) -> Cpu {
    let i = idx % 8;
    if i == 0 {
        Cpu { b: v, ..c }
    } else if i == 1 {
        Cpu { c: v, ..c }
    } else if i == 2 {
        Cpu { d: v, ..c }
    } else if i == 3 {
        Cpu { e: v, ..c }
    } else if i == 4 {
        Cpu { h: v, ..c }
    } else if i == 5 {
        Cpu { l: v, ..c }
    } else if i == 6 {
        c
    } else {
        Cpu { a: v, ..c }
    }
}

/// Accumulator operation `kind` (ADD, ADC, SUB, SBC, AND, XOR, OR, CP) with
/// operand `v`.
pub open spec fn alu_spec(kind: u8, c: Cpu, v: u8) -> Cpu {
    let k = kind % 8;
    let carry = flag_set(c.f, FLAG_C);
    if k == 0 {
        Cpu { a: add_spec(c.a, v, false).0, f: add_spec(c.a, v, false).1, ..c }
    } else if k == 1 {
        Cpu { a: add_spec(c.a, v, carry).0, f: add_spec(c.a, v, carry).1, ..c }
    } else if k == 2 {
        Cpu { a: sub_spec(c.a, v, false).0, f: sub_spec(c.a, v, false).1, ..c }
    } else if k == 3 {
        Cpu { a: sub_spec(c.a, v, carry).0, f: sub_spec(c.a, v, carry).1, ..c }
    } else if k == 4 {
        Cpu { a: c.a & v, f: flags_spec(c.a & v == 0, false, true, false), ..c }
    } else if k == 5 {
        Cpu { a: c.a ^ v, f: flags_spec(c.a ^ v == 0, false, false, false), ..c }
    } else if k == 6 {
        Cpu { a: c.a | v, f: flags_spec(c.a | v == 0, false, false, false), ..c }
    } else {
        Cpu { f: sub_spec(c.a, v, false).1, ..c }
    }
}

/// The bytes of immediate data that follow an opcode.
pub open spec fn immediate_bytes(op: u8) -> int {
    let lo = op % 16;
    if op < 0x40 {
        if lo == 1 || op == 0x08 {
            2
        } else if op % 8 == 6 || op == 0x10 || op == 0x18 || (op % 8 == 0 && op >= 0x20) {
            1
        } else {
            0
        }
    } else if op < 0xC0 {
        0
    } else if op == 0xCB || lo == 6 || lo == 0xE || op == 0xE0 || op == 0xF0 || op == 0xE8 || op
        == 0xF8 {
        1
    } else if op == 0xC2 || op == 0xCA || op == 0xD2 || op == 0xDA || op == 0xC3 || op == 0xC4
        || op == 0xCC || op == 0xD4 || op == 0xDC || op == 0xCD || op == 0xEA || op == 0xFA {
        2
    } else {
        0
    }
}

/// The instruction sets PC itself: a jump, call, return or restart, or a
/// conditional one whose condition holds.
pub open spec fn jumps(op: u8, taken: bool) -> bool {
    let lo = op % 16;
    ||| op == 0x18 || op == 0xC3 || op == 0xCD || op == 0xC9 || op == 0xD9 || op == 0xE9
    ||| op >= 0xC0 && (lo == 7 || lo == 0xF)
    ||| taken && (op == 0x20 || op == 0x28 || op == 0x30 || op == 0x38 || op == 0xC0 || op == 0xC8
        || op == 0xD0 || op == 0xD8 || op == 0xC2 || op == 0xCA || op == 0xD2 || op == 0xDA || op
        == 0xC4 || op == 0xCC || op == 0xD4 || op == 0xDC)
}

/// The little-endian 16-bit word at `addr`.
pub open spec fn word_at(m: MemView, addr: u16) -> u16 {
    (m.read(addr) + m.read(((addr + 1) % 0x10000) as u16) * 0x100) as u16
}

/// The bus after a push of `v` below `sp`.
pub open spec fn pushed(m: MemView, sp: u16, v: u16) -> MemView {
    m.write(((sp + 0xFFFF) % 0x10000) as u16, (v / 0x100) as u8).write(
        ((sp + 0xFFFE) % 0x10000) as u16,
        (v % 0x100) as u8,
    )
}

/// The rotates and shifts of the CB table (RLC, RRC, RL, RR, SLA, SRA, SWAP,
/// SRL) on `v` with carry in `carry`: the result and the carry out.
pub open spec fn shift_spec(kind: u8, v: u8, carry: bool) -> (u8, bool) {
    let k = kind % 8;
    let cin: u8 = if carry {
        1
    } else {
        0
    };
    if k == 0 {
        ((v << 1u8) | (v >> 7u8), v >> 7u8 == 1)
    } else if k == 1 {
        ((v >> 1u8) | (v << 7u8), v & 1 == 1)
    } else if k == 2 {
        ((v << 1u8) | cin, v >> 7u8 == 1)
    } else if k == 3 {
        ((v >> 1u8) | (cin << 7u8), v & 1 == 1)
    } else if k == 4 {
        (v << 1u8, v >> 7u8 == 1)
    } else if k == 5 {
        ((v >> 1u8) | (v & 0x80), v & 1 == 1)
    } else if k == 6 {
        ((v << 4u8) | (v >> 4u8), false)
    } else {
        (v >> 1u8, v & 1 == 1)
    }
}

/// The registers after a CB-prefixed instruction on a register (not (HL)).
pub open spec fn cb_spec(c: Cpu, m: MemView, op: u8) -> Cpu {
    let idx = op % 8;
    let bit = (op / 8) % 8;
    let v = r8_spec(c, m, idx);
    if op < 0x40 {
        let (r, carry) = shift_spec(op / 8, v, flag_set(c.f, FLAG_C));
        Cpu { f: flags_spec(r == 0, false, false, carry), ..with_r8(c, idx, r) }
    } else if op < 0x80 {
        Cpu { f: flags_spec((v >> bit) & 1 == 0, false, true, flag_set(c.f, FLAG_C)), ..c }
    } else if op < 0xC0 {
        with_r8(c, idx, v & !(1u8 << bit))
    } else {
        with_r8(c, idx, v | (1u8 << bit))
    }
}

/// The accumulator and flag instructions of opcodes 0x07-0x3F ending in 7
/// or F: RLCA, RRCA, RLA, RRA, DAA, CPL, SCF, CCF.
pub open spec fn acc_misc_spec(c: Cpu, op: u8) -> Cpu {
    let z = flag_set(c.f, FLAG_Z);
    let carry = flag_set(c.f, FLAG_C);
    if op == 0x27 {
        Cpu { a: daa_spec(c.a, c.f).0, f: daa_spec(c.a, c.f).1, ..c }
    } else if op == 0x2F {
        Cpu { a: !c.a, f: flags_spec(z, true, true, carry), ..c }
    } else if op == 0x37 {
        Cpu { f: flags_spec(z, false, false, true), ..c }
    } else if op == 0x3F {
        Cpu { f: flags_spec(z, false, false, !carry), ..c }
    } else {
        Cpu {
            a: shift_spec(op / 8, c.a, carry).0,
            f: flags_spec(false, false, false, shift_spec(op / 8, c.a, carry).1),
            ..c
        }
    }
}

/// Register pair `idx` of BC, DE, HL, SP.
pub open spec fn r16_spec(c: Cpu, idx: u8) -> u16 {
    let i = idx % 4;
    if i == 0 {
        (c.b * 0x100 + c.c) as u16
    } else if i == 1 {
        (c.d * 0x100 + c.e) as u16
    } else if i == 2 {
        (c.h * 0x100 + c.l) as u16
    } else {
        c.sp
    }
}

/// A conditional relative jump, jump, call or return.
pub open spec fn conditional(op: u8) -> bool {
    op == 0x20 || op == 0x28 || op == 0x30 || op == 0x38 || op == 0xC0 || op == 0xC8 || op
        == 0xD0 || op == 0xD8 || op == 0xC2 || op == 0xCA || op == 0xD2 || op == 0xDA || op
        == 0xC4 || op == 0xCC || op == 0xD4 || op == 0xDC
}

/// The registers once the opcode byte was fetched.
pub open spec fn after_fetch(c: Cpu) -> Cpu {
    Cpu {
        pc: if c.halt_bug {
            c.pc
        } else {
            ((c.pc + 1) % 0x10000) as u16
        },
        halt_bug: false,
        ..c
    }
}

/// The clock cycles that the next instruction takes: one machine cycle when
/// locked or halted, else the table entry of the opcode at PC (taken or not
/// by the current flags), or of the CB opcode after it.
pub open spec fn instruction_cycles(c: Cpu, m: MemView) -> u32 {
    if c.locked || c.halted {
        4
    } else {
        let op = m.read(c.pc);
        if op == 0xCB {
            cb_cycles_spec(m.read(after_fetch(c).pc))
        } else {
            base_cycles_spec(op, taken_spec(op, c.f))
        }
    }
}

/// A scheduled EI takes effect once the instruction after it completed.
pub open spec fn ei_applied(before: Cpu, c: Cpu) -> Cpu {
    if before.ime_scheduled {
        Cpu { ime: true, ime_scheduled: false, ..c }
    } else {
        c
    }
}

impl Cpu {
    fn condition(&self, op: u8) -> (r: bool)
        ensures
            r == taken_spec(op, self.f),
    {
        proof {
            crate::cpu::lemma_flag_bits(self.f);
        }
        let cc: u8 = (op / 8) % 4;
        if cc == 0 {
            self.f & FLAG_Z == 0
        } else if cc == 1 {
            self.f & FLAG_Z != 0
        } else if cc == 2 {
            self.f & FLAG_C == 0
        } else {
            self.f & FLAG_C != 0
        }
    }

    fn fetch8(&mut self, mem: &Memory) -> (r: u8)
        requires
            mem@.wf(),
        ensures
            r == mem@.read(old(self).pc),
            *final(self) == after_fetch(*old(self)),
    {
        let r: u8 = mem.read_byte(self.pc);
        if self.halt_bug {
            self.halt_bug = false;
        } else {
            self.pc = self.pc.wrapping_add(1);
        }
        r
    }

    fn fetch16(&mut self, mem: &Memory) -> (r: u16)
        requires
            mem@.wf(),
            !old(self).halt_bug,
        ensures
            *final(self) == (Cpu { pc: ((old(self).pc + 2) % 0x10000) as u16, ..*old(self) }),
            r == word_at(mem@, old(self).pc),
    {
        let lo: u8 = self.fetch8(mem);
        let hi: u8 = self.fetch8(mem);
        hi as u16 * 0x100 + lo as u16
    }

    /// Register `idx` of B, C, D, E, H, L, (HL), A.
    fn read_r8(&self, mem: &Memory, idx: u8) -> (r: u8)
        requires
            mem@.wf(),
        ensures
            r == r8_spec(*self, mem@, idx),
    {
        match idx % 8 {
            0 => self.b,
            1 => self.c,
            2 => self.d,
            3 => self.e,
            4 => self.h,
            5 => self.l,
            6 => mem.read_byte(self.hl()),
            _ => self.a,
        }
    }

    fn write_r8(&mut self, mem: &mut Memory, idx: u8, v: u8)
        requires
            old(mem)@.wf(),
        ensures
            final(mem)@.wf(),
            *final(self) == with_r8(*old(self), idx, v),
            idx % 8 != 6 ==> final(mem)@ == old(mem)@,
            idx % 8 == 6 ==> final(mem)@ == old(mem)@.write(
                (old(self).h * 0x100 + old(self).l) as u16,
                v,
            ),
    {
        match idx % 8 {
            0 => {
                self.b = v;
            },
            1 => {
                self.c = v;
            },
            2 => {
                self.d = v;
            },
            3 => {
                self.e = v;
            },
            4 => {
                self.h = v;
            },
            5 => {
                self.l = v;
            },
            6 => {
                mem.write_byte(self.hl(), v);
            },
            _ => {
                self.a = v;
            },
        }
    }

    /// Register pair `idx` of BC, DE, HL, SP.
    fn read_r16(&self, idx: u8) -> (r: u16)
        ensures
            r == r16_spec(*self, idx),
    {
        match idx % 4 {
            0 => self.bc(),
            1 => self.de(),
            2 => self.hl(),
            _ => self.sp,
        }
    }

    fn write_r16(&mut self, idx: u8, v: u16)
        ensures
            final(self).f == old(self).f,
            final(self).locked == old(self).locked,
            final(self).halt_bug == old(self).halt_bug,
            final(self).pc == old(self).pc,
    {
        let hi: u8 = (v / 0x100) as u8;
        let lo: u8 = (v % 0x100) as u8;
        match idx % 4 {
            0 => {
                self.b = hi;
                self.c = lo;
            },
            1 => {
                self.d = hi;
                self.e = lo;
            },
            2 => {
                self.h = hi;
                self.l = lo;
            },
            _ => {
                self.sp = v;
            },
        }
    }

    fn push16(&mut self, mem: &mut Memory, v: u16)
        requires
            old(mem)@.wf(),
        ensures
            final(mem)@.wf(),
            *final(self) == (Cpu { sp: ((old(self).sp + 0xFFFE) % 0x10000) as u16, ..*old(self) }),
            final(mem)@ == pushed(old(mem)@, old(self).sp, v),
    {
        self.sp = self.sp.wrapping_sub(1);
        mem.write_byte(self.sp, (v / 0x100) as u8);
        self.sp = self.sp.wrapping_sub(1);
        mem.write_byte(self.sp, (v % 0x100) as u8);
    }

    fn pop16(&mut self, mem: &Memory) -> (r: u16)
        requires
            mem@.wf(),
        ensures
            *final(self) == (Cpu { sp: ((old(self).sp + 2) % 0x10000) as u16, ..*old(self) }),
            r == word_at(mem@, old(self).sp),
    {
        let lo: u8 = mem.read_byte(self.sp);
        self.sp = self.sp.wrapping_add(1);
        let hi: u8 = mem.read_byte(self.sp);
        self.sp = self.sp.wrapping_add(1);
        hi as u16 * 0x100 + lo as u16
    }

    /// The eight accumulator operations: ADD, ADC, SUB, SBC, AND, XOR, OR, CP.
    fn alu(&mut self, kind: u8, v: u8)
        ensures
            *final(self) == alu_spec(kind, *old(self), v),
    {
        match kind % 8 {
            0 => self.add(v, false),
            1 => self.add(v, true),
            2 => self.sub(v, false),
            3 => self.sub(v, true),
            4 => self.and(v),
            5 => self.xor(v),
            6 => self.or(v),
            _ => self.cp(v),
        }
    }

    /// The rotates and shifts of the CB table (RLC, RRC, RL, RR, SLA, SRA,
    /// SWAP, SRL): the result and the carry out.
    fn shift_op(&self, kind: u8, v: u8) -> (r: (u8, bool))
        ensures
            r == shift_spec(kind, v, flag_set(self.f, FLAG_C)),
    {
        proof {
            crate::cpu::lemma_flag_bits(self.f);
        }
        let carry_in: u8 = if self.f & FLAG_C != 0 { 1 } else { 0 };
        match kind % 8 {
            0 => ((v << 1) | (v >> 7), v >> 7 == 1),
            1 => ((v >> 1) | (v << 7), v & 1 == 1),
            2 => ((v << 1) | carry_in, v >> 7 == 1),
            3 => ((v >> 1) | (carry_in << 7), v & 1 == 1),
            4 => (v << 1, v >> 7 == 1),
            5 => ((v >> 1) | (v & 0x80), v & 1 == 1),
            6 => ((v << 4) | (v >> 4), false),
            _ => (v >> 1, v & 1 == 1),
        }
    }

    fn set_flags(&mut self, z: bool, n: bool, h: bool, c: bool)
        ensures
            *final(self) == (Cpu { f: flags_spec(z, n, h, c), ..*old(self) }),
    {
        let mut f: u8 = 0;
        if z {
            f = f + FLAG_Z;
        }
        if n {
            f = f + FLAG_N;
        }
        if h {
            f = f + FLAG_H;
        }
        if c {
            f = f + FLAG_C;
        }
        self.f = f;
    }

    /// A CB-prefixed instruction.
    fn execute_cb(&mut self, mem: &mut Memory, op: u8)
        requires
            old(mem)@.wf(),
        ensures
            final(mem)@.wf(),
            final(self).locked == old(self).locked,
            final(self).pc == old(self).pc,
            op % 8 != 6 ==> final(mem)@ == old(mem)@ && *final(self) == cb_spec(
                *old(self),
                old(mem)@,
                op,
            ),
    {
        proof {
            crate::cpu::lemma_flag_bits(self.f);
        }
        let idx: u8 = op % 8;
        let bit: u8 = (op / 8) % 8;
        let v: u8 = self.read_r8(mem, idx);
        if op < 0x40 {
            let (r, carry) = self.shift_op(op / 8, v);
            self.write_r8(mem, idx, r);
            self.set_flags(r == 0, false, false, carry);
        } else if op < 0x80 {
            let carry: bool = self.f & FLAG_C != 0;
            self.set_flags((v >> bit) & 1 == 0, false, true, carry);
        } else if op < 0xC0 {
            self.write_r8(mem, idx, v & !(1u8 << bit));
        } else {
            self.write_r8(mem, idx, v | (1u8 << bit));
        }
    }

    /// Opcodes 0x00-0x3F: loads of immediates, 16-bit arithmetic, INC/DEC,
    /// relative jumps and the accumulator rotates.
    #[verifier::rlimit(40)]
    fn execute_block0(&mut self, mem: &mut Memory, op: u8, taken: bool)
        requires
            old(mem)@.wf(),
            op < 0x40,
            !old(self).halt_bug,
        ensures
            final(mem)@.wf(),
            final(self).locked == old(self).locked,
            !jumps(op, taken) ==> final(self).pc == (old(self).pc + immediate_bytes(op)) % 0x10000,
            op == 0x18 || (conditional(op) && taken) ==> final(self).pc == (old(self).pc + 1
                + sign_extended(old(mem)@.read(old(self).pc))) % 0x10000,
            op % 8 == 7 ==> final(mem)@ == old(mem)@ && *final(self) == acc_misc_spec(
                *old(self),
                op,
            ),
            op % 8 == 4 && (op / 8) % 8 != 6 ==> final(mem)@ == old(mem)@ && *final(self) == (Cpu {
                f: inc_spec(r8_spec(*old(self), old(mem)@, op / 8), old(self).f).1,
                ..with_r8(
                    *old(self),
                    op / 8,
                    inc_spec(r8_spec(*old(self), old(mem)@, op / 8), old(self).f).0,
                )
            }),
            op % 8 == 5 && (op / 8) % 8 != 6 ==> final(mem)@ == old(mem)@ && *final(self) == (Cpu {
                f: dec_spec(r8_spec(*old(self), old(mem)@, op / 8), old(self).f).1,
                ..with_r8(
                    *old(self),
                    op / 8,
                    dec_spec(r8_spec(*old(self), old(mem)@, op / 8), old(self).f).0,
                )
            }),
            op % 8 == 6 && (op / 8) % 8 != 6 ==> final(mem)@ == old(mem)@ && *final(self)
                == with_r8(
                Cpu { pc: ((old(self).pc + 1) % 0x10000) as u16, ..*old(self) },
                op / 8,
                old(mem)@.read(old(self).pc),
            ),
    {
        proof {
            crate::cpu::lemma_flag_bits(self.f);
        }
        let lo: u8 = op % 8;
        let row: u8 = op / 16;
        if op == 0x00 {
        } else if op == 0x08 {
            let addr: u16 = self.fetch16(mem);
            mem.write_byte(addr, (self.sp % 0x100) as u8);
            mem.write_byte(addr.wrapping_add(1), (self.sp / 0x100) as u8);
        } else if op == 0x10 {
            let _ = self.fetch8(mem);
            let key1: u8 = mem.io_reg(0x4D);
            if key1 % 2 == 1 {
                mem.set_io(0x4D, (key1 ^ 0x80) & 0xFE);
            }
        } else if op == 0x18 || (lo == 0 && taken) {
            let d: u8 = self.fetch8(mem);
            self.pc = self.pc.wrapping_add(sign_extend(d));
        } else if lo == 0 {
            let _ = self.fetch8(mem);
        } else if lo == 1 {
            if op % 16 == 1 {
                let v: u16 = self.fetch16(mem);
                self.write_r16(row, v);
            } else {
                let v: u16 = self.read_r16(row);
                self.add_hl(v);
            }
        } else if lo == 2 {
            let addr: u16 = if row == 0 {
                self.bc()
            } else if row == 1 {
                self.de()
            } else {
                self.hl()
            };
            if row == 2 {
                self.set_hl(addr.wrapping_add(1));
            } else if row == 3 {
                self.set_hl(addr.wrapping_sub(1));
            }
            if op % 16 == 2 {
                mem.write_byte(addr, self.a);
            } else {
                self.a = mem.read_byte(addr);
            }
        } else if lo == 3 {
            let v: u16 = self.read_r16(row);
            if op % 16 == 3 {
                self.write_r16(row, v.wrapping_add(1));
            } else {
                self.write_r16(row, v.wrapping_sub(1));
            }
        } else if lo == 4 || lo == 5 {
            let idx: u8 = op / 8;
            let v: u8 = self.read_r8(mem, idx);
            let (r, f) = if lo == 4 { self.inc8(v) } else { self.dec8(v) };
            self.write_r8(mem, idx, r);
            self.f = f;
        } else if lo == 6 {
            let v: u8 = self.fetch8(mem);
            self.write_r8(mem, op / 8, v);
        } else if op == 0x27 {
            self.daa();
        } else if op == 0x2F {
            self.a = !self.a;
            let z: bool = self.f & FLAG_Z != 0;
            let c: bool = self.f & FLAG_C != 0;
            self.set_flags(z, true, true, c);
        } else if op == 0x37 {
            let z: bool = self.f & FLAG_Z != 0;
            self.set_flags(z, false, false, true);
        } else if op == 0x3F {
            let z: bool = self.f & FLAG_Z != 0;
            let c: bool = self.f & FLAG_C != 0;
            self.set_flags(z, false, false, !c);
        } else {
            let (r, carry) = self.shift_op(op / 8, self.a);
            self.a = r;
            self.set_flags(false, false, false, carry);
        }
    }

    /// Opcodes 0xC0-0xFF: control flow, stack, I/O page loads, immediate
    /// arithmetic and interrupt control.
    #[verifier::rlimit(40)]
    fn execute_block3(&mut self, mem: &mut Memory, op: u8, taken: bool)
        requires
            old(mem)@.wf(),
            op >= 0xC0,
            op != 0xCB,
            !old(self).halt_bug,
        ensures
            final(mem)@.wf(),
            illegal_spec(op) ==> final(self).locked,
            !jumps(op, taken) ==> final(self).pc == (old(self).pc + immediate_bytes(op)) % 0x10000,
            op == 0xC3 || (conditional(op) && op % 8 == 2 && taken) ==> final(self).pc == word_at(
                old(mem)@,
                old(self).pc,
            ),
            conditional(op) && op % 8 == 4 && taken ==> final(self).pc == word_at(
                old(mem)@,
                old(self).pc,
            ) && final(mem)@ == pushed(
                old(mem)@,
                old(self).sp,
                ((old(self).pc + 2) % 0x10000) as u16,
            ),
            op == 0xD9 || (conditional(op) && op % 8 == 0 && taken) ==> final(self).pc == word_at(
                old(mem)@,
                old(self).sp,
            ) && final(self).sp == (old(self).sp + 2) % 0x10000,
            op == 0xD9 ==> final(self).ime,
            op % 16 == 5 ==> final(mem)@ == pushed(
                old(mem)@,
                old(self).sp,
                if op == 0xF5 {
                    (old(self).a * 0x100 + old(self).f) as u16
                } else {
                    r16_spec(*old(self), (op / 16) % 4)
                },
            ),
            op == 0xCD ==> final(self).pc == word_at(old(mem)@, old(self).pc) && final(self).sp == (
            old(self).sp + 0xFFFE) % 0x10000 && final(mem)@ == pushed(
                old(mem)@,
                old(self).sp,
                ((old(self).pc + 2) % 0x10000) as u16,
            ),
            op == 0xC9 ==> final(self).pc == word_at(old(mem)@, old(self).sp) && final(self).sp == (
            old(self).sp + 2) % 0x10000,
            op >= 0xC0 && (op % 16 == 7 || op % 16 == 0xF) ==> final(self).pc == (op & 0x38) as u16
                && final(mem)@ == pushed(old(mem)@, old(self).sp, old(self).pc),
    {
        let lo: u8 = op % 16;
        if is_illegal(op) {
            self.locked = true;
        } else if op == 0xC0 || op == 0xC8 || op == 0xD0 || op == 0xD8 {
            if taken {
                self.pc = self.pop16(mem);
            }
        } else if lo == 1 {
            let v: u16 = self.pop16(mem);
            if op == 0xF1 {
                self.a = (v / 0x100) as u8;
                self.f = (v % 0x100) as u8 & 0xF0;
            } else {
                self.write_r16((op / 16) % 4, v);
            }
        } else if op == 0xC2 || op == 0xCA || op == 0xD2 || op == 0xDA {
            let addr: u16 = self.fetch16(mem);
            if taken {
                self.pc = addr;
            }
        } else if op == 0xC3 {
            self.pc = self.fetch16(mem);
        } else if op == 0xC4 || op == 0xCC || op == 0xD4 || op == 0xDC || op == 0xCD {
            let addr: u16 = self.fetch16(mem);
            if taken || op == 0xCD {
                let ret: u16 = self.pc;
                self.push16(mem, ret);
                self.pc = addr;
            }
        } else if lo == 5 {
            let v: u16 = if op == 0xF5 {
                self.a as u16 * 0x100 + self.f as u16
            } else {
                self.read_r16((op / 16) % 4)
            };
            self.push16(mem, v);
        } else if lo == 6 || lo == 0xE {
            let v: u8 = self.fetch8(mem);
            self.alu(op / 8, v);
        } else if lo == 7 || lo == 0xF {
            let ret: u16 = self.pc;
            self.push16(mem, ret);
            self.pc = (op & 0x38) as u16;
        } else if op == 0xC9 || op == 0xD9 {
            self.pc = self.pop16(mem);
            if op == 0xD9 {
                self.ime = true;
            }
        } else if op == 0xE0 || op == 0xF0 {
            let n: u8 = self.fetch8(mem);
            if op == 0xE0 {
                mem.write_byte(0xFF00 + n as u16, self.a);
            } else {
                self.a = mem.read_byte(0xFF00 + n as u16);
            }
        } else if op == 0xE2 {
            mem.write_byte(0xFF00 + self.c as u16, self.a);
        } else if op == 0xF2 {
            self.a = mem.read_byte(0xFF00 + self.c as u16);
        } else if op == 0xE8 || op == 0xF8 {
            let d: u8 = self.fetch8(mem);
            let low: u8 = (self.sp % 0x100) as u8;
            let h: bool = has_half_carry(low, d);
            let c: bool = has_carry(low, d);
            let r: u16 = self.sp.wrapping_add(sign_extend(d));
            if op == 0xE8 {
                self.sp = r;
            } else {
                self.set_hl(r);
            }
            self.set_flags(false, false, h, c);
        } else if op == 0xE9 {
            self.pc = self.hl();
        } else if op == 0xF9 {
            self.sp = self.hl();
        } else if op == 0xEA || op == 0xFA {
            let addr: u16 = self.fetch16(mem);
            if op == 0xEA {
                mem.write_byte(addr, self.a);
            } else {
                self.a = mem.read_byte(addr);
            }
        } else if op == 0xF3 {
            self.di();
        } else if op == 0xFB {
            self.ei();
        }
    }

    /// Runs one instruction and returns its clock cycles. A locked or
    /// halted CPU spends one machine cycle doing nothing. HALT with IME
    /// clear and an interrupt already pending does not halt but triggers the
    /// HALT bug. EI takes effect after the following instruction.
    #[verifier::rlimit(40)]
    pub fn step(&mut self, mem: &mut Memory) -> (cycles: u32)
        requires
            old(mem)@.wf(),
        ensures
            final(mem)@.wf(),
            4 <= cycles <= 24,
            cycles == instruction_cycles(*old(self), old(mem)@),
            old(self).locked || old(self).halted ==> final(mem)@ == old(mem)@ && *final(self)
                == *old(self),
            !old(self).locked && !old(self).halted ==> ({
                let op = old(mem)@.read(old(self).pc);
                let next_pc = if old(self).halt_bug {
                    old(self).pc
                } else {
                    ((old(self).pc + 1) % 0x10000) as u16
                };
                &&& op != 0xCB ==> cycles == base_cycles_spec(op, taken_spec(op, old(self).f))
                &&& op == 0xCB ==> cycles == cb_cycles_spec(old(mem)@.read(next_pc))
                &&& illegal_spec(op) ==> final(self).locked
                &&& op != 0xCB && op != 0x76 && !jumps(op, taken_spec(op, old(self).f))
                    ==> final(self).pc == (after_fetch(*old(self)).pc + immediate_bytes(op))
                    % 0x10000
                &&& op == 0xCB ==> final(self).pc == (after_fetch(*old(self)).pc + 1) % 0x10000
                &&& op == 0xCB && old(mem)@.read(after_fetch(*old(self)).pc) % 8 != 6
                    ==> final(mem)@ == old(mem)@ && *final(self) == ei_applied(
                    *old(self),
                    cb_spec(
                        after_fetch(after_fetch(*old(self))),
                        old(mem)@,
                        old(mem)@.read(after_fetch(*old(self)).pc),
                    ),
                )
                &&& op == 0xC3 ==> final(self).pc == word_at(old(mem)@, after_fetch(*old(self)).pc)
                &&& op == 0xCD ==> final(self).pc == word_at(old(mem)@, after_fetch(*old(self)).pc)
                    && final(mem)@ == pushed(
                    old(mem)@,
                    old(self).sp,
                    ((after_fetch(*old(self)).pc + 2) % 0x10000) as u16,
                )
                &&& op == 0xC9 ==> final(self).pc == word_at(old(mem)@, old(self).sp)
                &&& op >= 0xC0 && (op % 16 == 7 || op % 16 == 0xF) ==> final(self).pc == (op
                    & 0x38) as u16 && final(mem)@ == pushed(
                    old(mem)@,
                    old(self).sp,
                    after_fetch(*old(self)).pc,
                )
                &&& op == 0x18 || (op < 0x40 && conditional(op) && taken_spec(op, old(self).f))
                    ==> final(self).pc == (after_fetch(*old(self)).pc + 1 + sign_extended(
                    old(mem)@.read(after_fetch(*old(self)).pc),
                )) % 0x10000
                &&& op >= 0xC0 && conditional(op) && taken_spec(op, old(self).f) && op % 8 == 2
                    ==> final(self).pc == word_at(old(mem)@, after_fetch(*old(self)).pc)
                &&& op >= 0xC0 && conditional(op) && taken_spec(op, old(self).f) && op % 8 == 4
                    ==> final(self).pc == word_at(old(mem)@, after_fetch(*old(self)).pc)
                    && final(mem)@ == pushed(
                    old(mem)@,
                    old(self).sp,
                    ((after_fetch(*old(self)).pc + 2) % 0x10000) as u16,
                )
                &&& op == 0xD9 || (op >= 0xC0 && conditional(op) && taken_spec(op, old(self).f)
                    && op % 8 == 0) ==> final(self).pc == word_at(old(mem)@, old(self).sp)
                &&& op == 0xD9 ==> final(self).ime
                &&& op >= 0xC0 && op % 16 == 5 ==> final(mem)@ == pushed(
                    old(mem)@,
                    old(self).sp,
                    if op == 0xF5 {
                        (old(self).a * 0x100 + old(self).f) as u16
                    } else {
                        r16_spec(*old(self), (op / 16) % 4)
                    },
                )
                &&& op < 0x40 && op % 8 == 7 ==> final(mem)@ == old(mem)@ && *final(self)
                    == ei_applied(*old(self), acc_misc_spec(after_fetch(*old(self)), op))
                &&& op == 0x76 ==> final(mem)@ == old(mem)@ && *final(self) == ei_applied(
                    *old(self),
                    if !old(self).ime && pending_spec(old(mem)@) != 0 {
                        Cpu { halt_bug: true, ..after_fetch(*old(self)) }
                    } else {
                        Cpu { halted: true, ..after_fetch(*old(self)) }
                    },
                )
                &&& op < 0x40 && op % 8 == 4 && (op / 8) % 8 != 6 ==> final(mem)@ == old(mem)@
                    && *final(self) == ei_applied(
                    *old(self),
                    Cpu {
                        f: inc_spec(r8_spec(*old(self), old(mem)@, op / 8), old(self).f).1,
                        ..with_r8(
                            after_fetch(*old(self)),
                            op / 8,
                            inc_spec(r8_spec(*old(self), old(mem)@, op / 8), old(self).f).0,
                        )
                    },
                )
                &&& op < 0x40 && op % 8 == 5 && (op / 8) % 8 != 6 ==> final(mem)@ == old(mem)@
                    && *final(self) == ei_applied(
                    *old(self),
                    Cpu {
                        f: dec_spec(r8_spec(*old(self), old(mem)@, op / 8), old(self).f).1,
                        ..with_r8(
                            after_fetch(*old(self)),
                            op / 8,
                            dec_spec(r8_spec(*old(self), old(mem)@, op / 8), old(self).f).0,
                        )
                    },
                )
                &&& op < 0x40 && op % 8 == 6 && (op / 8) % 8 != 6 ==> final(mem)@ == old(mem)@
                    && *final(self) == ei_applied(
                    *old(self),
                    with_r8(
                        Cpu {
                            pc: ((after_fetch(*old(self)).pc + 1) % 0x10000) as u16,
                            ..after_fetch(*old(self))
                        },
                        op / 8,
                        old(mem)@.read(after_fetch(*old(self)).pc),
                    ),
                )
                &&& 0x40 <= op < 0x70 || 0x78 <= op < 0x80 ==> final(mem)@ == old(mem)@
                    && *final(self) == ei_applied(
                    *old(self),
                    with_r8(
                        after_fetch(*old(self)),
                        (op / 8) % 8,
                        r8_spec(after_fetch(*old(self)), old(mem)@, op % 8),
                    ),
                )
                &&& 0x70 <= op < 0x78 && op != 0x76 ==> *final(self) == ei_applied(
                    *old(self),
                    after_fetch(*old(self)),
                ) && final(mem)@ == old(mem)@.write(
                    (old(self).h * 0x100 + old(self).l) as u16,
                    r8_spec(after_fetch(*old(self)), old(mem)@, op % 8),
                )
                &&& 0x80 <= op < 0xC0 ==> final(mem)@ == old(mem)@ && *final(self) == ei_applied(
                    *old(self),
                    alu_spec(
                        (op / 8) % 8,
                        after_fetch(*old(self)),
                        r8_spec(after_fetch(*old(self)), old(mem)@, op % 8),
                    ),
                )
            }),
    {
        if self.locked || self.halted {
            return 4;
        }
        let ei_pending: bool = self.ime_scheduled;
        let op: u8 = self.fetch8(mem);
        let taken: bool = self.condition(op);
        let cycles: u32 = if op == 0xCB {
            let cb_op: u8 = self.fetch8(mem);
            self.execute_cb(mem, cb_op);
            cb_cycles(cb_op)
        } else {
            if op < 0x40 {
                self.execute_block0(mem, op, taken);
            } else if op < 0x80 {
                if op == 0x76 {
                    if !self.ime && pending(mem) != 0 {
                        self.halt_bug = true;
                    } else {
                        self.halted = true;
                    }
                } else {
                    let v: u8 = self.read_r8(mem, op % 8);
                    self.write_r8(mem, (op / 8) % 8, v);
                }
            } else if op < 0xC0 {
                let v: u8 = self.read_r8(mem, op % 8);
                self.alu(op / 8, v);
            } else {
                self.execute_block3(mem, op, taken);
            }
            base_cycles(op, taken)
        };
        proof {
            crate::cpu::lemma_cycles_documented(op, taken, 0);
            if op == 0xCB {
                crate::cpu::lemma_cycles_documented(op, taken, mem@.read(0));
            }
        }
        if ei_pending && self.ime_scheduled && op != 0xFB {
            self.ime = true;
            self.ime_scheduled = false;
        }
        cycles
    }
}

} // verus!
