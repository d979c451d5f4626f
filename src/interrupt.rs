//! The interrupt controller: IF (0xFF0F) and IE (0xFFFF), five sources with
//! their priorities and vectors.
use crate::mem::{MemView, Memory};
use vstd::prelude::*;

verus! {

/// Offset of IF among the I/O registers.
pub const IF_REG: u8 = 0x0F;

#[derive(Clone, Copy, Debug, PartialEq, Eq, Structural)]
pub enum Interrupt {
    VBlank,
    LcdStat,
    Timer,
    Serial,
    Joypad,
}

/// Bit index of a source in IF and IE, which is also its priority (0 first).
pub open spec fn priority(i: Interrupt) -> u8 {
    match i {
        Interrupt::VBlank => 0,
        Interrupt::LcdStat => 1,
        Interrupt::Timer => 2,
        Interrupt::Serial => 3,
        Interrupt::Joypad => 4,
    }
}

pub open spec fn mask_spec(i: Interrupt) -> u8 {
    match i {
        Interrupt::VBlank => 0x01,
        Interrupt::LcdStat => 0x02,
        Interrupt::Timer => 0x04,
        Interrupt::Serial => 0x08,
        Interrupt::Joypad => 0x10,
    }
}

/// The address the CPU jumps to when it services `i`: 0x40 + 8 * priority.
pub open spec fn vector_spec(i: Interrupt) -> u16 {
    (0x40 + 8 * priority(i)) as u16
}

/// The highest-priority source among the bits of `pending`.
pub open spec fn highest_spec(pending: u8) -> Option<Interrupt> {
    if pending & 0x01 != 0 {
        Some(Interrupt::VBlank)
    } else if pending & 0x02 != 0 {
        Some(Interrupt::LcdStat)
    } else if pending & 0x04 != 0 {
        Some(Interrupt::Timer)
    } else if pending & 0x08 != 0 {
        Some(Interrupt::Serial)
    } else if pending & 0x10 != 0 {
        Some(Interrupt::Joypad)
    } else {
        None
    }
}

/// The bus after `i` was requested: its bit in IF is set.
pub open spec fn requested(m: MemView, i: Interrupt) -> MemView {
    MemView { io: m.io.update(IF_REG as int, m.io[IF_REG as int] | mask_spec(i)), ..m }
}

/// The sources that are both requested and enabled.
pub open spec fn pending_spec(m: MemView) -> u8 {
    m.io[IF_REG as int] & m.ie & 0x1F
}

impl Interrupt {
    pub fn mask(&self) -> (r: u8)
        ensures
            r == mask_spec(*self),
    {
        match self {
            Interrupt::VBlank => 0x01,
            Interrupt::LcdStat => 0x02,
            Interrupt::Timer => 0x04,
            Interrupt::Serial => 0x08,
            Interrupt::Joypad => 0x10,
        }
    }

    pub fn vector(&self) -> (r: u16)
        ensures
            r == vector_spec(*self),
    {
        match self {
            Interrupt::VBlank => 0x40,
            Interrupt::LcdStat => 0x48,
            Interrupt::Timer => 0x50,
            Interrupt::Serial => 0x58,
            Interrupt::Joypad => 0x60,
        }
    }
}

/// Sets the bit of `i` in IF.
pub fn request(i: Interrupt, mem: &mut Memory)
    requires
        old(mem)@.wf(),
    ensures
        final(mem)@ == requested(old(mem)@, i),
        final(mem)@.wf(),
{
    let flags: u8 = mem.io_reg(IF_REG);
    mem.set_io(IF_REG, flags | i.mask());
}

/// IF & IE, restricted to the five sources.
pub fn pending(mem: &Memory) -> (r: u8)
    requires
        mem@.wf(),
    ensures
        r == pending_spec(mem@),
        r <= 0x1F,
{
    let ie: u8 = mem.read_byte(0xFFFF);
    let flags: u8 = mem.io_reg(IF_REG);
    assert(flags & ie & 0x1F <= 0x1F) by (bit_vector);
    flags & ie & 0x1F
}

/// The source serviced first among `pending`: the lowest set bit.
pub fn highest(pending: u8) -> (r: Option<Interrupt>)
    ensures
        r == highest_spec(pending),
{
    if pending & 0x01 != 0 {
        Some(Interrupt::VBlank)
    } else if pending & 0x02 != 0 {
        Some(Interrupt::LcdStat)
    } else if pending & 0x04 != 0 {
        Some(Interrupt::Timer)
    } else if pending & 0x08 != 0 {
        Some(Interrupt::Serial)
    } else if pending & 0x10 != 0 {
        Some(Interrupt::Joypad)
    } else {
        None
    }
}

} // verus!
