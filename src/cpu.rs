//! SM83 register file, the arithmetic of its 8- and 16-bit instructions with
//! their flags, and interrupt service at instruction boundaries.
use crate::interrupt::{highest, highest_spec, mask_spec, pending, pending_spec, vector_spec, IF_REG};
use crate::mem::{MemView, Memory};
use crate::util::{has_borrow, has_carry, has_carry16, has_half_carry, has_half_carry16};
use vstd::prelude::*;

verus! {

pub const FLAG_Z: u8 = 0x80;

pub const FLAG_N: u8 = 0x40;

pub const FLAG_H: u8 = 0x20;

pub const FLAG_C: u8 = 0x10;

/// Clock cycles that servicing an interrupt takes.
pub const INTERRUPT_CYCLES: u32 = 20;

/// The flag byte with Z, N, H and C in bits 7 to 4 and bits 3 to 0 clear.
pub open spec fn flags_spec(z: bool, n: bool, h: bool, c: bool) -> u8 {
    ((if z { 0x80int } else { 0 }) + (if n { 0x40int } else { 0 }) + (if h { 0x20int } else { 0 })
        + (if c { 0x10int } else { 0 })) as u8
}

/// The flag whose bit is `mask` (a single bit) is set in `f`.
pub open spec fn flag_set(f: u8, mask: u8) -> bool {
    (f / mask) % 2 == 1
}

pub proof fn lemma_flag_bits(f: u8)
    ensures
        (f & FLAG_Z != 0) == flag_set(f, FLAG_Z),
        (f & FLAG_N != 0) == flag_set(f, FLAG_N),
        (f & FLAG_H != 0) == flag_set(f, FLAG_H),
        (f & FLAG_C != 0) == flag_set(f, FLAG_C),
{
    assert((f & 0x80 != 0) == ((f / 0x80) % 2 == 1) && (f & 0x40 != 0) == ((f / 0x40) % 2 == 1)
        && (f & 0x20 != 0) == ((f / 0x20) % 2 == 1) && (f & 0x10 != 0) == ((f / 0x10) % 2 == 1))
        by (bit_vector);
}

/// A + v with carry in `cin`: the result and its flags.
pub open spec fn add_spec(a: u8, v: u8, cin: bool) -> (u8, u8) {
    let c: int = if cin { 1 } else { 0 };
    let sum = a + v + c;
    let r = (sum % 256) as u8;
    (r, flags_spec(r == 0, false, a % 16 + v % 16 + c > 0xF, sum > 0xFF))
}

/// A - v with borrow in `bin`: the result and its flags.
pub open spec fn sub_spec(a: u8, v: u8, bin: bool) -> (u8, u8) {
    let b: int = if bin { 1 } else { 0 };
    let diff = a - v - b;
    let r = ((diff + 256) % 256) as u8;
    (r, flags_spec(r == 0, true, a % 16 - v % 16 - b < 0, diff < 0))
}

/// INC: carry is kept.
pub open spec fn inc_spec(v: u8, f: u8) -> (u8, u8) {
    let r = ((v + 1) % 256) as u8;
    (r, flags_spec(r == 0, false, v % 16 == 0xF, flag_set(f, FLAG_C)))
}

/// DEC: carry is kept.
pub open spec fn dec_spec(v: u8, f: u8) -> (u8, u8) {
    let r = ((v + 255) % 256) as u8;
    (r, flags_spec(r == 0, true, v % 16 == 0, flag_set(f, FLAG_C)))
}

/// The correction of A to packed BCD after an addition or a subtraction.
pub open spec fn daa_spec(a: u8, f: u8) -> (u8, u8) {
    let n = flag_set(f, FLAG_N);
    let h = flag_set(f, FLAG_H);
    let c = flag_set(f, FLAG_C);
    let low: int = if h || (!n && a % 16 > 9) { 0x06 } else { 0 };
    let high: int = if c || (!n && a > 0x99) { 0x60 } else { 0 };
    let r = (if n { (a - low - high + 512) % 256 } else { (a + low + high) % 256 }) as u8;
    (r, flags_spec(r == 0, n, false, high != 0))
}

/// ADD HL, v: Z is kept, carries out of bits 11 and 15.
pub open spec fn add16_spec(hl: u16, v: u16, f: u8) -> (u16, u8) {
    (
        ((hl + v) % 0x10000) as u16,
        flags_spec(flag_set(f, FLAG_Z), false, hl % 0x1000 + v % 0x1000 > 0xFFF, hl + v > 0xFFFF),
    )
}

#[derive(Clone, Copy, Debug, PartialEq, Eq, Structural)]
pub struct Cpu {
    pub a: u8,
    pub f: u8,
    pub b: u8,
    pub c: u8,
    pub d: u8,
    pub e: u8,
    pub h: u8,
    pub l: u8,
    pub sp: u16,
    pub pc: u16,
    pub ime: bool,
    /// EI was executed: IME turns on after the next instruction.
    pub ime_scheduled: bool,
    pub halted: bool,
    /// HALT was entered with IME clear and an interrupt already pending: the
    /// next opcode byte is fetched without advancing PC.
    pub halt_bug: bool,
    /// An illegal opcode ran: the CPU does nothing more.
    pub locked: bool,
}

/// The CPU after servicing the highest-priority pending interrupt, with the
/// bus after the push of PC and the clearing of the serviced IF bit.
pub open spec fn service_spec(cpu: Cpu, m: MemView) -> (Cpu, MemView, u32) {
    let p = pending_spec(m);
    if p == 0 {
        (cpu, m, 0)
    } else if !cpu.ime {
        (Cpu { halted: false, ..cpu }, m, 0)
    } else {
        let i = highest_spec(p)->0;
        let sp1 = ((cpu.sp + 0xFFFF) % 0x10000) as u16;
        let sp2 = ((cpu.sp + 0xFFFE) % 0x10000) as u16;
        let m1 = m.write(sp1, (cpu.pc / 0x100) as u8).write(sp2, (cpu.pc % 0x100) as u8);
        let m2 = MemView {
            io: m1.io.update(IF_REG as int, m1.io[IF_REG as int] & !mask_spec(i)),
            ..m1
        };
        (
            Cpu { sp: sp2, pc: vector_spec(i), ime: false, halted: false, ..cpu },
            m2,
            INTERRUPT_CYCLES,
        )
    }
}

fn flags_of(z: bool, n: bool, h: bool, c: bool) -> (r: u8)
    ensures
        r == flags_spec(z, n, h, c),
{
    let mut f: u8 = 0;
    if z {
        f = f + 0x80;
    }
    if n {
        f = f + 0x40;
    }
    if h {
        f = f + 0x20;
    }
    if c {
        f = f + 0x10;
    }
    f
}

impl Cpu {
    /// Every register zero, interrupts off: the state the boot ROM starts from.
    pub fn new() -> (r: Cpu)
        ensures
            r == (Cpu {
                a: 0,
                f: 0,
                b: 0,
                c: 0,
                d: 0,
                e: 0,
                h: 0,
                l: 0,
                sp: 0,
                pc: 0,
                ime: false,
                ime_scheduled: false,
                halted: false,
                halt_bug: false,
                locked: false,
            }),
    {
        Cpu {
            a: 0,
            f: 0,
            b: 0,
            c: 0,
            d: 0,
            e: 0,
            h: 0,
            l: 0,
            sp: 0,
            pc: 0,
            ime: false,
            ime_scheduled: false,
            halted: false,
            halt_bug: false,
            locked: false,
        }
    }

    /// The registers as the DMG boot ROM leaves them.
    pub fn post_boot() -> (r: Cpu)
        ensures
            r == (Cpu {
                a: 0x01,
                f: 0xB0,
                b: 0x00,
                c: 0x13,
                d: 0x00,
                e: 0xD8,
                h: 0x01,
                l: 0x4D,
                sp: 0xFFFE,
                pc: 0x0100,
                ime: false,
                ime_scheduled: false,
                halted: false,
                halt_bug: false,
                locked: false,
            }),
    {
        Cpu {
            a: 0x01,
            f: 0xB0,
            b: 0x00,
            c: 0x13,
            d: 0x00,
            e: 0xD8,
            h: 0x01,
            l: 0x4D,
            sp: 0xFFFE,
            pc: 0x0100,
            ime: false,
            ime_scheduled: false,
            halted: false,
            halt_bug: false,
            locked: false,
        }
    }

    pub fn restart(&mut self)
        ensures
            *final(self) == Cpu::new_spec(),
    {
        *self = Cpu::new();
    }

    pub open spec fn new_spec() -> Cpu {
        Cpu {
            a: 0,
            f: 0,
            b: 0,
            c: 0,
            d: 0,
            e: 0,
            h: 0,
            l: 0,
            sp: 0,
            pc: 0,
            ime: false,
            ime_scheduled: false,
            halted: false,
            halt_bug: false,
            locked: false,
        }
    }

    pub fn bc(&self) -> (r: u16)
        ensures
            r == self.b * 0x100 + self.c,
    {
        self.b as u16 * 0x100 + self.c as u16
    }

    pub fn de(&self) -> (r: u16)
        ensures
            r == self.d * 0x100 + self.e,
    {
        self.d as u16 * 0x100 + self.e as u16
    }

    pub fn hl(&self) -> (r: u16)
        ensures
            r == self.h * 0x100 + self.l,
    {
        self.h as u16 * 0x100 + self.l as u16
    }

    pub fn set_hl(&mut self, v: u16)
        ensures
            *final(self) == (Cpu { h: (v / 0x100) as u8, l: (v % 0x100) as u8, ..*old(self) }),
    {
        self.h = (v / 0x100) as u8;
        self.l = (v % 0x100) as u8;
    }

    /// ADD A, v (or ADC A, v when `with_carry`).
    pub fn add(&mut self, v: u8, with_carry: bool)
        ensures
            ({
                let (r, f) = add_spec(
                    old(self).a,
                    v,
                    with_carry && flag_set(old(self).f, FLAG_C),
                );
                *final(self) == Cpu { a: r, f: f, ..*old(self) }
            }),
    {
        proof {
            lemma_flag_bits(self.f);
        }
        let cin: u8 = if with_carry && self.f & FLAG_C != 0 { 1 } else { 0 };
        let a: u8 = self.a;
        let carry: bool = has_carry(a, v) || (cin == 1 && a as u16 + v as u16 == 0xFF);
        let half: bool = has_half_carry(a, v) || (cin == 1 && a % 16 + v % 16 == 0xF);
        let r: u8 = a.wrapping_add(v).wrapping_add(cin);
        self.a = r;
        self.f = flags_of(r == 0, false, half, carry);
    }

    /// SUB A, v (or SBC A, v when `with_carry`).
    pub fn sub(&mut self, v: u8, with_carry: bool)
        ensures
            ({
                let (r, f) = sub_spec(
                    old(self).a,
                    v,
                    with_carry && flag_set(old(self).f, FLAG_C),
                );
                *final(self) == Cpu { a: r, f: f, ..*old(self) }
            }),
    {
        let (r, f) = self.compare(v, with_carry);
        self.a = r;
        self.f = f;
    }

    /// CP v: the flags of SUB without keeping the result.
    pub fn cp(&mut self, v: u8)
        ensures
            *final(self) == (Cpu { f: sub_spec(old(self).a, v, false).1, ..*old(self) }),
    {
        let (_, f) = self.compare(v, false);
        self.f = f;
    }

    fn compare(&self, v: u8, with_carry: bool) -> (r: (u8, u8))
        ensures
            r == sub_spec(self.a, v, with_carry && flag_set(self.f, FLAG_C)),
    {
        proof {
            lemma_flag_bits(self.f);
        }
        let bin: u8 = if with_carry && self.f & FLAG_C != 0 { 1 } else { 0 };
        let a: u8 = self.a;
        let borrow: bool = (a as u16) < v as u16 + bin as u16;
        let half: bool = has_borrow(a, v) || (bin == 1 && a % 16 == v % 16);
        let r: u8 = a.wrapping_sub(v).wrapping_sub(bin);
        (r, flags_of(r == 0, true, half, borrow))
    }

    pub fn and(&mut self, v: u8)
        ensures
            *final(self) == (Cpu {
                a: old(self).a & v,
                f: flags_spec(old(self).a & v == 0, false, true, false),
                ..*old(self)
            }),
    {
        self.a = self.a & v;
        self.f = flags_of(self.a == 0, false, true, false);
    }

    pub fn or(&mut self, v: u8)
        ensures
            *final(self) == (Cpu {
                a: old(self).a | v,
                f: flags_spec(old(self).a | v == 0, false, false, false),
                ..*old(self)
            }),
    {
        self.a = self.a | v;
        self.f = flags_of(self.a == 0, false, false, false);
    }

    pub fn xor(&mut self, v: u8)
        ensures
            *final(self) == (Cpu {
                a: old(self).a ^ v,
                f: flags_spec(old(self).a ^ v == 0, false, false, false),
                ..*old(self)
            }),
    {
        self.a = self.a ^ v;
        self.f = flags_of(self.a == 0, false, false, false);
    }

    /// INC of an 8-bit value under the current flags: the result and the new
    /// flags.
    pub fn inc8(&self, v: u8) -> (r: (u8, u8))
        ensures
            r == inc_spec(v, self.f),
    {
        proof {
            lemma_flag_bits(self.f);
        }
        let r: u8 = v.wrapping_add(1);
        (r, flags_of(r == 0, false, v % 16 == 0xF, self.f & FLAG_C != 0))
    }

    /// DEC of an 8-bit value under the current flags.
    pub fn dec8(&self, v: u8) -> (r: (u8, u8))
        ensures
            r == dec_spec(v, self.f),
    {
        proof {
            lemma_flag_bits(self.f);
        }
        let r: u8 = v.wrapping_sub(1);
        (r, flags_of(r == 0, true, v % 16 == 0, self.f & FLAG_C != 0))
    }

    /// INC A.
    pub fn inc_a(&mut self)
        ensures
            *final(self) == (Cpu {
                a: inc_spec(old(self).a, old(self).f).0,
                f: inc_spec(old(self).a, old(self).f).1,
                ..*old(self)
            }),
    {
        let (r, f) = self.inc8(self.a);
        self.a = r;
        self.f = f;
    }

    /// DEC A.
    pub fn dec_a(&mut self)
        ensures
            *final(self) == (Cpu {
                a: dec_spec(old(self).a, old(self).f).0,
                f: dec_spec(old(self).a, old(self).f).1,
                ..*old(self)
            }),
    {
        let (r, f) = self.dec8(self.a);
        self.a = r;
        self.f = f;
    }

    #[verifier::rlimit(40)]
    pub fn daa(&mut self)
        ensures
            *final(self) == (Cpu {
                a: daa_spec(old(self).a, old(self).f).0,
                f: daa_spec(old(self).a, old(self).f).1,
                ..*old(self)
            }),
    {
        proof {
            lemma_flag_bits(self.f);
        }
        let a: u8 = self.a;
        let n: bool = self.f & FLAG_N != 0;
        let h: bool = self.f & FLAG_H != 0;
        let c: bool = self.f & FLAG_C != 0;
        let low: u8 = if h || (!n && a % 16 > 9) { 0x06 } else { 0 };
        let high: u8 = if c || (!n && a > 0x99) { 0x60 } else { 0 };
        let r: u8 = if n {
            a.wrapping_sub(low).wrapping_sub(high)
        } else {
            a.wrapping_add(low).wrapping_add(high)
        };
        self.a = r;
        self.f = flags_of(r == 0, n, false, high != 0);
    }

    /// ADD HL, v.
    pub fn add_hl(&mut self, v: u16)
        ensures
            ({
                let (r, f) = add16_spec((old(self).h * 0x100 + old(self).l) as u16, v, old(self).f);
                *final(self) == Cpu { h: (r / 0x100) as u8, l: (r % 0x100) as u8, f: f, ..*old(self) }
            }),
    {
        proof {
            lemma_flag_bits(self.f);
        }
        let hl: u16 = self.hl();
        let f: u8 = flags_of(
            self.f & FLAG_Z != 0,
            false,
            has_half_carry16(hl, v),
            has_carry16(hl, v),
        );
        self.set_hl(hl.wrapping_add(v));
        self.f = f;
    }

    /// DI: interrupts off at once.
    pub fn di(&mut self)
        ensures
            *final(self) == (Cpu { ime: false, ime_scheduled: false, ..*old(self) }),
    {
        self.ime = false;
        self.ime_scheduled = false;
    }

    /// EI: interrupts on after the next instruction.
    pub fn ei(&mut self)
        ensures
            *final(self) == (Cpu { ime_scheduled: true, ..*old(self) }),
    {
        self.ime_scheduled = true;
    }

    /// Called when an instruction other than EI completes: a scheduled EI
    /// takes effect.
    pub fn instruction_completed(&mut self)
        ensures
            *final(self) == (if old(self).ime_scheduled {
                Cpu { ime: true, ime_scheduled: false, ..*old(self) }
            } else {
                *old(self)
            }),
    {
        if self.ime_scheduled {
            self.ime = true;
            self.ime_scheduled = false;
        }
    }

    /// At an instruction boundary: a pending enabled interrupt ends HALT; with
    /// IME set the highest-priority one is serviced: PC is pushed, the IF bit
    /// cleared, IME cleared and PC set to its vector. Returns the cycles
    /// spent.
    #[verifier::rlimit(40)]
    pub fn handle_interrupts(&mut self, mem: &mut Memory) -> (cycles: u32)
        requires
            old(mem)@.wf(),
        ensures
            final(mem)@.wf(),
            (*final(self), final(mem)@, cycles) == service_spec(*old(self), old(mem)@),
    {
        let p: u8 = pending(mem);
        if p == 0 {
            return 0;
        }
        self.halted = false;
        if !self.ime {
            return 0;
        }
        proof {
            assert(p <= 0x1F && p != 0 ==> (p & 0x01 != 0 || p & 0x02 != 0 || p & 0x04 != 0 || p
                & 0x08 != 0 || p & 0x10 != 0)) by (bit_vector);
        }
        let source = highest(p);
        let i = match source {
            Some(i) => i,
            None => {
                return 0;
            },
        };
        let pc: u16 = self.pc;
        let sp1: u16 = self.sp.wrapping_sub(1);
        mem.write_byte(sp1, (pc / 0x100) as u8);
        let sp2: u16 = sp1.wrapping_sub(1);
        mem.write_byte(sp2, (pc % 0x100) as u8);
        let flags: u8 = mem.io_reg(IF_REG);
        mem.set_io(IF_REG, flags & !i.mask());
        self.sp = sp2;
        self.pc = i.vector();
        self.ime = false;
        INTERRUPT_CYCLES
    }
}

/// The opcodes that lock the CPU up.
pub open spec fn illegal_spec(op: u8) -> bool {
    op == 0xD3 || op == 0xDB || op == 0xDD || op == 0xE3 || op == 0xE4 || op == 0xEB || op == 0xEC
        || op == 0xED || op == 0xF4 || op == 0xFC || op == 0xFD
}

/// Clock cycles of a base opcode; `taken` chooses between the two timings of
/// a conditional jump, call or return. 0xCB is the prefix fetch alone, and an
/// illegal opcode costs its fetch.
pub open spec fn base_cycles_spec(op: u8, taken: bool) -> u32 {
    let lo = op % 16;
    if 0x40 <= op < 0x80 {
        if op == 0x76 {
            4
        } else if op % 8 == 6 || 0x70 <= op <= 0x77 {
            8
        } else {
            4
        }
    } else if 0x80 <= op < 0xC0 {
        if op % 8 == 6 {
            8
        } else {
            4
        }
    } else if op < 0x40 {
        if lo == 0 {
            if op >= 0x20 {
                if taken {
                    12
                } else {
                    8
                }
            } else {
                4
            }
        } else if lo == 1 {
            12
        } else if lo == 4 || lo == 5 {
            if op == 0x34 || op == 0x35 {
                12
            } else {
                4
            }
        } else if lo == 6 {
            if op == 0x36 {
                12
            } else {
                8
            }
        } else if lo == 8 {
            if op == 0x08 {
                20
            } else if op == 0x18 {
                12
            } else if taken {
                12
            } else {
                8
            }
        } else if lo == 7 || lo == 0xC || lo == 0xD || lo == 0xF {
            4
        } else {
            8
        }
    } else if illegal_spec(op) {
        4
    } else if lo == 0 || lo == 8 {
        if op == 0xC0 || op == 0xD0 || op == 0xC8 || op == 0xD8 {
            if taken {
                20
            } else {
                8
            }
        } else if op == 0xE8 {
            16
        } else {
            12
        }
    } else if lo == 1 {
        12
    } else if lo == 2 || lo == 0xA {
        if op == 0xC2 || op == 0xD2 || op == 0xCA || op == 0xDA {
            if taken {
                16
            } else {
                12
            }
        } else if op == 0xEA || op == 0xFA {
            16
        } else {
            8
        }
    } else if lo == 3 || lo == 0xB {
        if op == 0xC3 {
            16
        } else {
            4
        }
    } else if lo == 4 || lo == 0xC {
        if taken {
            24
        } else {
            12
        }
    } else if lo == 5 || lo == 7 || lo == 0xF {
        16
    } else if lo == 9 {
        if op == 0xE9 {
            4
        } else if op == 0xF9 {
            8
        } else {
            16
        }
    } else if lo == 0xD {
        24
    } else {
        8
    }
}

/// Clock cycles of a CB-prefixed instruction, prefix included: 8 on a
/// register, 16 on (HL), 12 for BIT on (HL).
pub open spec fn cb_cycles_spec(op: u8) -> u32 {
    if op % 8 == 6 {
        if 0x40 <= op < 0x80 {
            12
        } else {
            16
        }
    } else {
        8
    }
}

pub open spec fn documented_duration(c: u32) -> bool {
    c == 4 || c == 8 || c == 12 || c == 16 || c == 20 || c == 24
}

/// Every instruction takes 4, 8, 12, 16, 20 or 24 clock cycles, whichever
/// way its condition goes.
pub proof fn lemma_cycles_documented(op: u8, taken: bool, cb_op: u8)
    ensures
        documented_duration(base_cycles_spec(op, taken)),
        documented_duration(cb_cycles_spec(cb_op)),
{
}

pub fn is_illegal(op: u8) -> (r: bool)
    ensures
        r == illegal_spec(op),
{
    op == 0xD3 || op == 0xDB || op == 0xDD || op == 0xE3 || op == 0xE4 || op == 0xEB || op == 0xEC
        || op == 0xED || op == 0xF4 || op == 0xFC || op == 0xFD
}

pub fn base_cycles(op: u8, taken: bool) -> (r: u32)
    ensures
        r == base_cycles_spec(op, taken),
        documented_duration(r),
{
    let lo: u8 = op % 16;
    if 0x40 <= op && op < 0x80 {
        if op == 0x76 {
            4
        } else if op % 8 == 6 || (0x70 <= op && op <= 0x77) {
            8
        } else {
            4
        }
    } else if 0x80 <= op && op < 0xC0 {
        if op % 8 == 6 {
            8
        } else {
            4
        }
    } else if op < 0x40 {
        if lo == 0 {
            if op >= 0x20 {
                if taken {
                    12
                } else {
                    8
                }
            } else {
                4
            }
        } else if lo == 1 {
            12
        } else if lo == 4 || lo == 5 {
            if op == 0x34 || op == 0x35 {
                12
            } else {
                4
            }
        } else if lo == 6 {
            if op == 0x36 {
                12
            } else {
                8
            }
        } else if lo == 8 {
            if op == 0x08 {
                20
            } else if op == 0x18 {
                12
            } else if taken {
                12
            } else {
                8
            }
        } else if lo == 7 || lo == 0xC || lo == 0xD || lo == 0xF {
            4
        } else {
            8
        }
    } else if is_illegal(op) {
        4
    } else if lo == 0 || lo == 8 {
        if op == 0xC0 || op == 0xD0 || op == 0xC8 || op == 0xD8 {
            if taken {
                20
            } else {
                8
            }
        } else if op == 0xE8 {
            16
        } else {
            12
        }
    } else if lo == 1 {
        12
    } else if lo == 2 || lo == 0xA {
        if op == 0xC2 || op == 0xD2 || op == 0xCA || op == 0xDA {
            if taken {
                16
            } else {
                12
            }
        } else if op == 0xEA || op == 0xFA {
            16
        } else {
            8
        }
    } else if lo == 3 || lo == 0xB {
        if op == 0xC3 {
            16
        } else {
            4
        }
    } else if lo == 4 || lo == 0xC {
        if taken {
            24
        } else {
            12
        }
    } else if lo == 5 || lo == 7 || lo == 0xF {
        16
    } else if lo == 9 {
        if op == 0xE9 {
            4
        } else if op == 0xF9 {
            8
        } else {
            16
        }
    } else if lo == 0xD {
        24
    } else {
        8
    }
}

pub fn cb_cycles(op: u8) -> (r: u32)
    ensures
        r == cb_cycles_spec(op),
        documented_duration(r),
{
    if op % 8 == 6 {
        if 0x40 <= op && op < 0x80 {
            12
        } else {
            16
        }
    } else {
        8
    }
}

} // verus!
