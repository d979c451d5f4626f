//! LCD and joypad registers: LCDC, the STAT mode and coincidence bits, the
//! STAT interrupt line, and the joypad select register P1.
use crate::graphics::{LCDC_REG, LYC_REG, LY_REG, STAT_REG};
use crate::interrupt::{request, requested, Interrupt};
use crate::mem::{MemView, Memory};
use crate::timer::with_io;
use vstd::prelude::*;

verus! {

/// Offset of the joypad register P1 among the I/O registers.
pub const JOYPAD_REG: u8 = 0x00;

pub open spec fn stat(m: MemView) -> u8 {
    m.io[STAT_REG as int]
}

pub open spec fn stat_with_mode(s: u8, mode: u8) -> u8 {
    (s & 0xFC) | mode
}

pub open spec fn stat_with_coincidence(s: u8, equal: bool) -> u8 {
    if equal {
        s | 0x04
    } else {
        s & 0xFB
    }
}

/// The OR of the enabled STAT interrupt sources: HBlank (bit 3), VBlank (bit
/// 4), OAM scan (bit 5) and LY == LYC (bit 6).
pub open spec fn stat_line(s: u8) -> bool {
    (s & 0x08 != 0 && s & 0x03 == 0) || (s & 0x10 != 0 && s & 0x03 == 1) || (s & 0x20 != 0 && s
        & 0x03 == 2) || (s & 0x40 != 0 && s & 0x04 != 0)
}

pub open spec fn lcd_on(m: MemView) -> bool {
    m.io[LCDC_REG as int] & 0x80 != 0
}

/// P1 bit 5 clear: the CPU reads the action buttons.
pub open spec fn buttons_selected(m: MemView) -> bool {
    m.io[JOYPAD_REG as int] & 0x20 == 0
}

/// P1 bit 4 clear: the CPU reads the directions.
pub open spec fn directions_selected(m: MemView) -> bool {
    m.io[JOYPAD_REG as int] & 0x10 == 0
}

/// The keys that P1 shows, from the joypad shadow (directions high, buttons
/// low, 0 pressed): the selected group, both groups combined (a key pressed
/// in either reads 0) when both are selected, all released when none is.
pub open spec fn selected_nibble(m: MemView, joypad: u8) -> u8 {
    if buttons_selected(m) && directions_selected(m) {
        (joypad >> 4u8) & (joypad & 0x0F)
    } else if buttons_selected(m) {
        joypad & 0x0F
    } else if directions_selected(m) {
        joypad >> 4u8
    } else {
        0x0F
    }
}

/// The keys that P1 shows for the joypad shadow `joypad`.
pub fn selected_keys(mem: &Memory, joypad: u8) -> (r: u8)
    requires
        mem@.wf(),
    ensures
        r == selected_nibble(mem@, joypad),
{
    let p1: u8 = mem.io_reg(JOYPAD_REG);
    let buttons: bool = p1 & 0x20 == 0;
    let directions: bool = p1 & 0x10 == 0;
    if buttons && directions {
        (joypad >> 4) & (joypad & 0x0F)
    } else if buttons {
        joypad & 0x0F
    } else if directions {
        joypad >> 4
    } else {
        0x0F
    }
}

pub fn is_lcd_display_enable(mem: &Memory) -> (r: bool)
    requires
        mem@.wf(),
    ensures
        r == lcd_on(mem@),
{
    mem.io_reg(LCDC_REG) & 0x80 != 0
}

/// Shows `mode` in STAT bits 0-1.
pub fn update_stat_reg_mode_flag(mode: u8, mem: &mut Memory)
    requires
        old(mem)@.wf(),
    ensures
        final(mem)@ == with_io(old(mem)@, STAT_REG as int, stat_with_mode(stat(old(mem)@), mode)),
        final(mem)@.wf(),
{
    let s: u8 = mem.io_reg(STAT_REG);
    mem.set_io(STAT_REG, (s & 0xFC) | mode);
}

/// Sets STAT bit 2 when LY equals LYC, clears it otherwise.
pub fn update_stat_reg_coincidence_flag(mem: &mut Memory)
    requires
        old(mem)@.wf(),
    ensures
        final(mem)@ == with_io(
            old(mem)@,
            STAT_REG as int,
            stat_with_coincidence(
                stat(old(mem)@),
                old(mem)@.io[LY_REG as int] == old(mem)@.io[LYC_REG as int],
            ),
        ),
        final(mem)@.wf(),
{
    let s: u8 = mem.io_reg(STAT_REG);
    let equal: bool = mem.io_reg(LY_REG) == mem.io_reg(LYC_REG);
    mem.set_io(STAT_REG, if equal { s | 0x04 } else { s & 0xFB });
}

/// Requests the STAT interrupt when the STAT line rises from `previous`;
/// returns the line's new level.
pub fn lcdc_stat_interrupt(previous: bool, mem: &mut Memory) -> (line: bool)
    requires
        old(mem)@.wf(),
    ensures
        line == stat_line(stat(old(mem)@)),
        final(mem)@ == (if !previous && line {
            requested(old(mem)@, Interrupt::LcdStat)
        } else {
            old(mem)@
        }),
        final(mem)@.wf(),
{
    let s: u8 = mem.io_reg(STAT_REG);
    let line: bool = (s & 0x08 != 0 && s & 0x03 == 0) || (s & 0x10 != 0 && s & 0x03 == 1) || (s
        & 0x20 != 0 && s & 0x03 == 2) || (s & 0x40 != 0 && s & 0x04 != 0);
    if !previous && line {
        request(Interrupt::LcdStat, mem);
    }
    line
}

/// Shows a nibble of keys (0 pressed) in the low bits of P1.
pub fn joypad_set_buttons(buttons: u8, mem: &mut Memory)
    requires
        old(mem)@.wf(),
    ensures
        final(mem)@ == with_io(
            old(mem)@,
            JOYPAD_REG as int,
            (old(mem)@.io[JOYPAD_REG as int] & 0xF0) | (buttons & 0x0F),
        ),
        final(mem)@.wf(),
{
    let p1: u8 = mem.io_reg(JOYPAD_REG);
    mem.set_io(JOYPAD_REG, (p1 & 0xF0) | (buttons & 0x0F));
}

} // verus!
