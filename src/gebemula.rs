//! The emulator: owns the bus and every component, runs the PPU timeline
//! and services the events that instructions and modes produce.
use crate::cpu::{service_spec, Cpu, INTERRUPT_CYCLES};
use crate::graphics::{cleared, line_spec, ly, Graphics, LYC_REG, LY_REG, STAT_REG};
use crate::interpreter::instruction_cycles;
use crate::interrupt::{request, requested, Interrupt, IF_REG};
use crate::lcd::{
    is_lcd_display_enable, joypad_set_buttons, lcdc_stat_interrupt, selected_keys,
    selected_nibble, stat, stat_line, stat_with_coincidence, stat_with_mode,
    update_stat_reg_coincidence_flag, update_stat_reg_mode_flag, JOYPAD_REG,
};
use crate::mem::{
    cartridge_type_of, load_outcome, with_cartridge, CartridgeType, MemError, MemView, Memory,
    ERAM_SIZE, HRAM_SIZE, IO_SIZE, OAM_SIZE, VRAM_SIZE, WRAM_SIZE,
};
use crate::timeline::{
    duration, is_ppu_mode, mode_dots, mode_number, next, next_mode, stat_mode, Event, EventKind,
    EventTimeline, DMA_CYCLES, LINE_DOTS,
};
use crate::timer::{with_io, Timer};
use vstd::prelude::*;

verus! {

/// The cycles that a synthesized event adds to its instruction.
pub open spec fn event_cycles(e: Option<Event>) -> int {
    match e {
        Some(e) => e.duration as int,
        None => 0,
    }
}

/// The bus after mode `kind` ends on line `line`: a VBlank request when
/// VBlank starts, the new LY, VRAM and OAM access for the next mode, and its
/// number in STAT.
pub open spec fn mode_end_mem(m: MemView, kind: EventKind, line: u8) -> MemView {
    let (next, l2) = next_mode(kind, line);
    let m1 = if kind == EventKind::HBlank && next == EventKind::VBlank {
        requested(m, Interrupt::VBlank)
    } else {
        m
    };
    let m2 = MemView {
        access_vram: next != EventKind::Draw,
        access_oam: next == EventKind::HBlank || next == EventKind::VBlank,
        ..with_io(m1, LY_REG as int, l2)
    };
    with_io(m2, STAT_REG as int, stat_with_mode(stat(m2), stat_mode(next)))
}

/// The bus after an event that an instruction synthesized: the boot ROM
/// unmapped, an OAM DMA copy, or the selected keys shown in P1.
pub open spec fn synthesized_mem(m: MemView, e: Event, joypad: u8) -> MemView {
    if e.kind == EventKind::BootstrapFinished {
        MemView { boot_on: false, ..m }
    } else if e.kind == EventKind::DmaTransfer {
        MemView {
            oam: Seq::new(OAM_SIZE as nat, |i: int| m.read((e.extra as int * 0x100 + i) as u16)),
            ..m
        }
    } else {
        with_io(
            m,
            JOYPAD_REG as int,
            (m.io[JOYPAD_REG as int] & 0xF0) | (selected_nibble(m, joypad) & 0x0F),
        )
    }
}

/// The bus and the STAT line after event `e`: its own effect, then the
/// LY == LYC bit, then a STAT interrupt if the STAT line rose from `prev`.
pub open spec fn event_mem(m: MemView, e: Event, line: u8, joypad: u8, prev: bool) -> (
    MemView,
    bool,
) {
    let m1 = if is_ppu_mode(e.kind) {
        mode_end_mem(m, e.kind, line)
    } else {
        synthesized_mem(m, e, joypad)
    };
    stat_tail(m1, prev)
}

/// The LY == LYC bit brought up to date, then a STAT interrupt if the STAT
/// line rose from `prev`; also the line's new level.
pub open spec fn stat_tail(m1: MemView, prev: bool) -> (MemView, bool) {
    let m2 = with_io(
        m1,
        STAT_REG as int,
        stat_with_coincidence(stat(m1), m1.io[LY_REG as int] == m1.io[LYC_REG as int]),
    );
    let l = stat_line(stat(m2));
    (
        if !prev && l {
            requested(m2, Interrupt::LcdStat)
        } else {
            m2
        },
        l,
    )
}

/// Where the PPU stands after `dots` more dots from `mode` on line `line`.
pub open spec fn ppu_after(mode: EventKind, line: u8, dots: nat) -> (EventKind, u8, nat)
    decreases dots,
{
    if !is_ppu_mode(mode) || dots < mode_dots(mode) {
        (mode, line, dots)
    } else {
        let (m2, l2) = next_mode(mode, line);
        ppu_after(m2, l2, (dots - mode_dots(mode)) as nat)
    }
}

proof fn lemma_visible_line(l: u8, d: nat)
    requires
        l < 144,
    ensures
        ppu_after(EventKind::OamScan, l, 456 + d) == ppu_after(
            next_mode(EventKind::HBlank, l).0,
            next_mode(EventKind::HBlank, l).1,
            d,
        ),
{
    reveal_with_fuel(ppu_after, 4);
}

proof fn lemma_visible_lines(k: nat, d: nat)
    requires
        k <= 144,
    ensures
        ppu_after(EventKind::OamScan, 0, 456 * k + d) == (if k < 144 {
            ppu_after(EventKind::OamScan, k as u8, d)
        } else {
            ppu_after(EventKind::VBlank, 144, d)
        }),
    decreases k,
{
    if k > 0 {
        lemma_visible_lines((k - 1) as nat, 456 + d);
        lemma_visible_line((k - 1) as u8, d);
        assert(456 * (k - 1) + (456 + d) == 456 * k + d) by (nonlinear_arith);
    }
}

proof fn lemma_vblank_lines(j: nat, d: nat)
    requires
        j <= 10,
    ensures
        ppu_after(EventKind::VBlank, 144, 456 * j + d) == (if j < 10 {
            ppu_after(EventKind::VBlank, (144 + j) as u8, d)
        } else {
            ppu_after(EventKind::OamScan, 0, d)
        }),
    decreases j,
{
    if j > 0 {
        lemma_vblank_lines((j - 1) as nat, 456 + d);
        reveal_with_fuel(ppu_after, 2);
        assert(456 * (j - 1) + (456 + d) == 456 * j + d) by (nonlinear_arith);
    }
}

/// Advancing by `d` and then by `k` dots is advancing by `d + k`.
pub proof fn lemma_ppu_after_adds(mode: EventKind, line: u8, d: nat, k: nat)
    ensures
        ppu_after(mode, line, d + k) == ({
            let (m2, l2, d2) = ppu_after(mode, line, d);
            ppu_after(m2, l2, d2 + k)
        }),
    decreases d,
{
    if is_ppu_mode(mode) && d >= mode_dots(mode) {
        let (m2, l2) = next_mode(mode, line);
        lemma_ppu_after_adds(m2, l2, (d - mode_dots(mode)) as nat, k);
        assert((d + k - mode_dots(mode)) as nat == ((d - mode_dots(mode)) as nat + k) as nat);
    }
}

/// One frame of dots (70224) from the OAM scan of line 0 ends exactly at the
/// OAM scan of line 0 again, with no dots left over.
pub proof fn lemma_one_frame_of_dots()
    ensures
        ppu_after(EventKind::OamScan, 0, 70224) == (EventKind::OamScan, 0u8, 0nat),
{
    lemma_visible_lines(144, 4560);
    lemma_vblank_lines(10, 0);
    assert(ppu_after(EventKind::OamScan, 0, 0) == (EventKind::OamScan, 0u8, 0nat));
}

proof fn lemma_stat_mode_bits(s: u8, mode: u8, equal: bool)
    requires
        mode < 4,
    ensures
        stat_with_coincidence(stat_with_mode(s, mode), equal) & 0x03 == mode,
{
    assert(((s & 0xFC) | mode) & 0x03 == mode) by (bit_vector)
        requires
            mode < 4,
    ;
    let t = (s & 0xFC) | mode;
    assert((t | 0x04) & 0x03 == t & 0x03 && (t & 0xFB) & 0x03 == t & 0x03) by (bit_vector);
}

proof fn lemma_if_and_stat_bits(f: u8, s: u8, equal: bool)
    ensures
        (f | 0x02) & 0x01 == f & 0x01,
        (stat_with_coincidence(s, equal) & 0x04 != 0) == equal,
{
    assert((f | 0x02) & 0x01 == f & 0x01) by (bit_vector);
    assert((s | 0x04) & 0x04 != 0 && (s & 0xFB) & 0x04 == 0) by (bit_vector);
}

proof fn lemma_mode_bits(s: u8, mode: u8)
    requires
        mode < 4,
    ensures
        stat_with_mode(s, mode) & 0x03 == mode,
{
    assert(((s & 0xFC) | mode) & 0x03 == mode) by (bit_vector)
        requires
            mode < 4,
    ;
}

proof fn lemma_coincidence_keeps_mode(s: u8, equal: bool)
    ensures
        stat_with_coincidence(s, equal) & 0x03 == s & 0x03,
{
    assert((s | 0x04) & 0x03 == s & 0x03 && (s & 0xFB) & 0x03 == s & 0x03) by (bit_vector);
}

proof fn lemma_keeps_bit0(f: u8)
    ensures
        (f | 0x01) & 0x01 == 0x01,
        ((f | 0x01) | 0x02) & 0x01 == 0x01,
{
    assert((f | 0x01) & 0x01 == 0x01 && ((f | 0x01) | 0x02) & 0x01 == 0x01) by (bit_vector);
}

pub struct Gebemula {
    pub cpu: Cpu,
    pub mem: Memory,
    pub timer: Timer,
    pub graphics: Graphics,
    pub game_rom: Vec<u8>,
    pub cycles_per_sec: u32,
    /// A frame was completed and is ready to be shown.
    pub should_display_screen: bool,
    pub timeline: EventTimeline,
    /// Key shadow: directions in the high nibble, buttons in the low one, 0
    /// when pressed.
    pub joypad: u8,
    /// The level of the STAT interrupt line after the last event.
    pub stat_line: bool,
}

impl Gebemula {
    pub open spec fn wf(&self) -> bool {
        &&& self.mem@.wf()
        &&& self.graphics@.wf()
        &&& self.timer.sub_cycles < 4
        &&& is_ppu_mode(self.timeline.curr_event_type)
        &&& self.game_rom@.len() == 0 || load_outcome(self.game_rom@) is Ok
    }

    /// Where the PPU stands: mode, line and dots spent in the mode.
    pub open spec fn ppu_state(&self) -> (EventKind, u8, nat) {
        (self.timeline.curr_event_type, self.timeline.line, self.timeline.dots as nat)
    }

    pub fn new() -> (g: Gebemula)
        ensures
            g.wf(),
            g.timeline == (EventTimeline { curr_event_type: EventKind::OamScan, dots: 0, line: 0 }),
            ly(g.mem@) == 0,
            g.mem@.io[IF_REG as int] == 0,
            g.mem@.rom.len() == 0,
            g.game_rom@.len() == 0,
    {
        Gebemula {
            cpu: Cpu::new(),
            mem: Memory::new(),
            timer: Timer::new(),
            graphics: Graphics::new(),
            game_rom: Vec::new(),
            cycles_per_sec: 0,
            should_display_screen: false,
            timeline: EventTimeline::new(),
            joypad: 0xFF,
            stat_line: false,
        }
    }

    /// Back to power-on with the loaded cartridge mapped again: RAM zeroed,
    /// banking reset, registers cleared but STAT, which shows the OAM scan
    /// that the PPU starts in, with VRAM open and OAM blocked.
    pub fn restart(&mut self)
        requires
            old(self).wf(),
        ensures
            final(self).wf(),
            final(self).timeline == EventTimeline::new_spec(),
            final(self).cpu == Cpu::new_spec(),
            final(self).game_rom@ == old(self).game_rom@,
            final(self).joypad == 0xFF,
            !final(self).stat_line,
            cleared(final(self).graphics@),
            final(self).mem@.rom == old(self).game_rom@,
            final(self).mem@.cartridge_type == (if old(self).game_rom@.len() == 0 {
                CartridgeType::RomOnly
            } else {
                cartridge_type_of(old(self).game_rom@[0x147])->0
            }),
            final(self).mem@.rom_bank == 1,
            final(self).mem@.ram_bank == 0,
            !final(self).mem@.ram_enabled,
            !final(self).mem@.boot_on,
            final(self).mem@.vram == Seq::new(VRAM_SIZE as nat, |i: int| 0u8),
            final(self).mem@.eram == Seq::new(ERAM_SIZE as nat, |i: int| 0u8),
            final(self).mem@.wram == Seq::new(WRAM_SIZE as nat, |i: int| 0u8),
            final(self).mem@.oam == Seq::new(OAM_SIZE as nat, |i: int| 0u8),
            final(self).mem@.hram == Seq::new(HRAM_SIZE as nat, |i: int| 0u8),
            final(self).mem@.io == Seq::new(IO_SIZE as nat, |i: int| 0u8).update(
                STAT_REG as int,
                2,
            ),
            final(self).mem@.ie == 0,
            final(self).mem@.access_vram,
            !final(self).mem@.access_oam,
    {
        self.cpu.restart();
        self.mem = Memory::new();
        if self.game_rom.len() > 0 {
            let loaded = self.mem.load_game_rom(self.game_rom.as_slice());
            assert(loaded is Ok);
        }
        self.timer = Timer::new();
        self.cycles_per_sec = 0;
        self.graphics.restart();
        self.should_display_screen = false;
        self.timeline = EventTimeline::new();
        self.joypad = 0xFF;
        self.stat_line = false;
        update_stat_reg_mode_flag(0b10, &mut self.mem);
        proof {
            assert((0u8 & 0xFC) | 0b10 == 2) by (bit_vector);
        }
        self.mem.set_access_vram(true);
        self.mem.set_access_oam(false);
    }

    pub fn load_bootstrap_rom(&mut self, bootstrap_rom: &[u8])
        requires
            old(self).wf(),
        ensures
            final(self).wf(),
            final(self).mem@ == (MemView { boot: bootstrap_rom@, boot_on: true, ..old(self).mem@ }),
    {
        self.mem.load_bootstrap_rom(bootstrap_rom);
    }

    /// Loads a cartridge image, as `Memory::load_game_rom` does; the image is
    /// kept for restarts once the bus took it.
    pub fn load_game_rom(&mut self, game_rom: &[u8]) -> (r: Result<(), MemError>)
        requires
            old(self).wf(),
        ensures
            final(self).wf(),
            r == load_outcome(game_rom@),
            r is Ok ==> final(self).game_rom@ == game_rom@ && final(self).mem@ == with_cartridge(
                old(self).mem@,
                game_rom@,
                cartridge_type_of(game_rom@[0x147])->0,
            ),
            r is Err ==> final(self).game_rom@ == old(self).game_rom@ && final(self).mem@
                == old(self).mem@,
    {
        let r = self.mem.load_game_rom(game_rom);
        if r.is_ok() {
            let mut copy: Vec<u8> = Vec::new();
            let mut i: usize = 0;
            while i < game_rom.len()
                invariant
                    i <= game_rom@.len(),
                    copy@ == game_rom@.subrange(0, i as int),
                decreases game_rom@.len() - i,
            {
                copy.push(game_rom[i]);
                i = i + 1;
                assert(copy@ =~= game_rom@.subrange(0, i as int));
            }
            assert(copy@ =~= game_rom@);
            self.game_rom = copy;
        }
        r
    }

    /// The end of a PPU mode, or an event that an instruction synthesized.
    /// The line is rendered when drawing (mode 3) ends.
    #[verifier::rlimit(40)]
    pub fn run_event(&mut self, event: Event)
        requires
            old(self).wf(),
        ensures
            final(self).wf(),
            (final(self).mem@, final(self).stat_line) == event_mem(
                old(self).mem@,
                event,
                old(self).timeline.line,
                old(self).joypad,
                old(self).stat_line,
            ),
            final(self).graphics@ == (if event.kind == EventKind::Draw {
                line_spec(old(self).graphics@, old(self).mem@)
            } else {
                old(self).graphics@
            }),
            final(self).timeline == (if is_ppu_mode(event.kind) {
                EventTimeline {
                    curr_event_type: next_mode(event.kind, old(self).timeline.line).0,
                    line: next_mode(event.kind, old(self).timeline.line).1,
                    ..old(self).timeline
                }
            } else {
                old(self).timeline
            }),
            final(self).should_display_screen == (old(self).should_display_screen || (event.kind
                == EventKind::HBlank && next_mode(event.kind, old(self).timeline.line).0
                == EventKind::VBlank)),
            final(self).timer == old(self).timer,
            final(self).cpu == old(self).cpu,
            final(self).joypad == old(self).joypad,
            final(self).game_rom@ == old(self).game_rom@,
            is_ppu_mode(event.kind) ==> ly(final(self).mem@) == final(self).timeline.line && stat(
                final(self).mem@,
            ) & 0x03 == stat_mode(final(self).timeline.curr_event_type),
            (stat(final(self).mem@) & 0x04 != 0) == (ly(final(self).mem@)
                == final(self).mem@.io[LYC_REG as int]),
            (event.kind == EventKind::HBlank && final(self).timeline.curr_event_type
                == EventKind::VBlank) ==> final(self).mem@.io[IF_REG as int] & 0x01 == 0x01,
            !(event.kind == EventKind::HBlank && final(self).timeline.curr_event_type
                == EventKind::VBlank) ==> final(self).mem@.io[IF_REG as int] & 0x01
                == old(self).mem@.io[IF_REG as int] & 0x01,
    {
        let kind: EventKind = event.kind;
        if kind == EventKind::OamScan || kind == EventKind::Draw || kind == EventKind::HBlank
            || kind == EventKind::VBlank {
            self.end_mode(kind);
        } else if kind == EventKind::BootstrapFinished {
            self.mem.disable_bootstrap();
        } else if kind == EventKind::DmaTransfer {
            self.mem.dma_transfer(event.extra);
        } else {
            let buttons: u8 = selected_keys(&self.mem, self.joypad);
            joypad_set_buttons(buttons, &mut self.mem);
        }
        let ghost mid = self.mem@;
        self.update_stat();
        proof {
            if kind == EventKind::HBlank && self.timeline.curr_event_type == EventKind::VBlank {
                lemma_keeps_bit0(old(self).mem@.io[IF_REG as int]);
            } else if is_ppu_mode(kind) {
                assert(mid.io[IF_REG as int] == old(self).mem@.io[IF_REG as int]);
            }
        }
    }

    /// The end of PPU mode `kind`: the line is rendered when drawing ends, a
    /// VBlank interrupt is requested when VBlank starts, and LY, the access
    /// flags and the STAT mode follow the next mode.
    #[verifier::rlimit(40)]
    fn end_mode(&mut self, kind: EventKind)
        requires
            old(self).wf(),
            is_ppu_mode(kind),
        ensures
            final(self).wf(),
            final(self).mem@ == mode_end_mem(old(self).mem@, kind, old(self).timeline.line),
            final(self).graphics@ == (if kind == EventKind::Draw {
                line_spec(old(self).graphics@, old(self).mem@)
            } else {
                old(self).graphics@
            }),
            final(self).timeline == (EventTimeline {
                curr_event_type: next_mode(kind, old(self).timeline.line).0,
                line: next_mode(kind, old(self).timeline.line).1,
                ..old(self).timeline
            }),
            final(self).should_display_screen == (old(self).should_display_screen || (kind
                == EventKind::HBlank && next_mode(kind, old(self).timeline.line).0
                == EventKind::VBlank)),
            final(self).timer == old(self).timer,
            final(self).cpu == old(self).cpu,
            final(self).joypad == old(self).joypad,
            final(self).stat_line == old(self).stat_line,
            final(self).game_rom@ == old(self).game_rom@,
            ly(final(self).mem@) == final(self).timeline.line,
            stat(final(self).mem@) & 0x03 == stat_mode(final(self).timeline.curr_event_type),
            (kind == EventKind::HBlank && final(self).timeline.curr_event_type == EventKind::VBlank)
                ==> final(self).mem@.io[IF_REG as int] & 0x01 == 0x01,
            !(kind == EventKind::HBlank && final(self).timeline.curr_event_type
                == EventKind::VBlank) ==> final(self).mem@.io[IF_REG as int] == old(
                self,
            ).mem@.io[IF_REG as int],
    {
        let curr_line: u8 = self.timeline.line;
        if kind == EventKind::Draw {
            self.graphics.update(&self.mem);
        }
        let (next_kind, line) = next(kind, curr_line);
        if kind == EventKind::HBlank && next_kind == EventKind::VBlank {
            self.should_display_screen = true;
            request(Interrupt::VBlank, &mut self.mem);
            proof {
                lemma_keeps_bit0(old(self).mem@.io[IF_REG as int]);
            }
        }
        self.mem.set_io(LY_REG, line);
        self.timeline.curr_event_type = next_kind;
        self.timeline.line = line;
        self.mem.set_access_vram(next_kind != EventKind::Draw);
        self.mem.set_access_oam(next_kind == EventKind::HBlank || next_kind == EventKind::VBlank);
        let ghost before = self.mem@;
        update_stat_reg_mode_flag(mode_number(next_kind), &mut self.mem);
        proof {
            lemma_stat_mode_bits(stat(before), stat_mode(next_kind), false);
            lemma_mode_bits(stat(before), stat_mode(next_kind));
        }
    }

    /// Brings the LY == LYC bit of STAT up to date and requests the STAT
    /// interrupt when the STAT line rises.
    fn update_stat(&mut self)
        requires
            old(self).wf(),
        ensures
            final(self).wf(),
            (final(self).mem@, final(self).stat_line) == stat_tail(
                old(self).mem@,
                old(self).stat_line,
            ),
            final(self).graphics@ == old(self).graphics@,
            final(self).timeline == old(self).timeline,
            final(self).should_display_screen == old(self).should_display_screen,
            final(self).timer == old(self).timer,
            final(self).cpu == old(self).cpu,
            final(self).joypad == old(self).joypad,
            final(self).game_rom@ == old(self).game_rom@,
            ly(final(self).mem@) == ly(old(self).mem@),
            stat(final(self).mem@) & 0x03 == stat(old(self).mem@) & 0x03,
            (stat(final(self).mem@) & 0x04 != 0) == (ly(final(self).mem@)
                == final(self).mem@.io[LYC_REG as int]),
            final(self).mem@.io[IF_REG as int] & 0x01 == old(self).mem@.io[IF_REG as int] & 0x01,
    {
        let ghost m0 = self.mem@;
        update_stat_reg_coincidence_flag(&mut self.mem);
        let ghost m1 = self.mem@;
        self.stat_line = lcdc_stat_interrupt(self.stat_line, &mut self.mem);
        proof {
            let equal = m0.io[LY_REG as int] == m0.io[LYC_REG as int];
            lemma_if_and_stat_bits(m1.io[IF_REG as int], stat(m0), equal);
            lemma_stat_mode_bits(stat(m0), 0, equal);
            lemma_coincidence_keeps_mode(stat(m0), equal);
        }
    }

    /// Spends `dots` dots of PPU time: every mode whose budget is used up
    /// ends, in order.
    #[verifier::rlimit(40)]
    pub fn advance_ppu(&mut self, dots: u32)
        requires
            old(self).wf(),
            old(self).timeline.dots < mode_dots(old(self).timeline.curr_event_type),
            dots <= 0x0100_0000,
        ensures
            final(self).wf(),
            final(self).timeline.dots < mode_dots(final(self).timeline.curr_event_type),
            final(self).ppu_state() == ppu_after(
                old(self).timeline.curr_event_type,
                old(self).timeline.line,
                (old(self).timeline.dots + dots) as nat,
            ),
            final(self).cpu == old(self).cpu,
            final(self).timer == old(self).timer,
            final(self).joypad == old(self).joypad,
            final(self).game_rom@ == old(self).game_rom@,
    {
        self.timeline.dots = self.timeline.dots + dots;
        while self.timeline.dots >= duration(self.timeline.curr_event_type)
            invariant
                self.wf(),
                self.cpu == old(self).cpu,
                self.timer == old(self).timer,
                self.joypad == old(self).joypad,
                self.game_rom@ == old(self).game_rom@,
                ppu_after(
                    self.timeline.curr_event_type,
                    self.timeline.line,
                    self.timeline.dots as nat,
                ) == ppu_after(
                    old(self).timeline.curr_event_type,
                    old(self).timeline.line,
                    (old(self).timeline.dots + dots) as nat,
                ),
            decreases self.timeline.dots,
        {
            let event: Event = self.timeline.curr_event();
            self.timeline.dots = self.timeline.dots - event.duration;
            self.run_event(event);
        }
    }

    /// Accounts for one instruction that took `cycles` clock cycles: charges
    /// the timer, services the event the instruction synthesized, services a
    /// pending interrupt (charging its 20 cycles too), then moves the PPU on
    /// by all of it. Returns the cycles spent in all.
    #[verifier::rlimit(60)]
    pub fn step_instruction(&mut self, cycles: u32) -> (total: u32)
        requires
            old(self).wf(),
            old(self).timeline.dots < mode_dots(old(self).timeline.curr_event_type),
            cycles <= 0x0010_0000,
        ensures
            final(self).wf(),
            final(self).timeline.dots < mode_dots(final(self).timeline.curr_event_type),
            final(self).ppu_state() == ppu_after(
                old(self).timeline.curr_event_type,
                old(self).timeline.line,
                (old(self).timeline.dots + total) as nat,
            ),
            exists|m: MemView|
                final(self).cpu == (#[trigger] service_spec(old(self).cpu, m)).0 && total == cycles
                    + event_cycles(old(self).mem@.pending_event) + service_spec(old(self).cpu, m).2,
            final(self).timer.sub_cycles == (old(self).timer.sub_cycles + total) % 4,
            total <= cycles + DMA_CYCLES + INTERRUPT_CYCLES,
            final(self).game_rom@ == old(self).game_rom@,
    {
        let pending_event: Option<Event> = self.mem.take_pending_event();
        if !is_lcd_display_enable(&self.mem) {
            self.mem.set_access_vram(true);
            self.mem.set_access_oam(true);
        }
        self.timer.update(cycles, &mut self.mem);
        let mut total: u32 = cycles;
        match pending_event {
            Some(e) => {
                self.run_event(e);
                self.timer.update(e.duration, &mut self.mem);
                total = total + e.duration;
            },
            None => {},
        }
        let ghost cpu_before = self.cpu;
        let ghost mem_before = self.mem@;
        let serviced: u32 = self.cpu.handle_interrupts(&mut self.mem);
        self.timer.update(serviced, &mut self.mem);
        total = total + serviced;
        assert(cpu_before == old(self).cpu);
        assert(self.cpu == service_spec(old(self).cpu, mem_before).0);
        self.advance_ppu(total);
        self.cycles_per_sec = self.cycles_per_sec.wrapping_add(total);
        total
    }

    /// Marks key `bit` (0 A, 1 B, 2 Select, 3 Start, 4 Right, 5 Left, 6 Up,
    /// 7 Down) pressed or released in the shadow; returns `pressed`.
    pub fn adjust_joypad(&mut self, bit: u8, pressed: bool) -> (r: bool)
        requires
            bit < 8,
        ensures
            r == pressed,
            final(self).joypad == (if pressed {
                old(self).joypad & !(1u8 << bit)
            } else {
                old(self).joypad | (1u8 << bit)
            }),
            final(self).mem@ == old(self).mem@,
            final(self).timeline == old(self).timeline,
            final(self).graphics@ == old(self).graphics@,
            final(self).timer == old(self).timer,
            final(self).cpu == old(self).cpu,
    {
        self.joypad = if pressed {
            self.joypad & !(1u8 << bit)
        } else {
            self.joypad | (1u8 << bit)
        };
        pressed
    }

    /// Takes the host's key state (bit i set while key i is down) and shows
    /// the selected nibble in P1. A selected key going from released to
    /// pressed requests the joypad interrupt; returns whether it did.
    #[verifier::rlimit(40)]
    pub fn set_keys(&mut self, pressed: u8) -> (irq: bool)
        requires
            old(self).wf(),
        ensures
            final(self).wf(),
            final(self).joypad == !pressed,
            irq == (selected_nibble(old(self).mem@, old(self).joypad) & !selected_nibble(
                old(self).mem@,
                !pressed,
            ) & 0x0F != 0),
            final(self).mem@.io[JOYPAD_REG as int] & 0x0F == selected_nibble(
                old(self).mem@,
                !pressed,
            ) & 0x0F,
            irq ==> final(self).mem@.io[IF_REG as int] == old(self).mem@.io[IF_REG as int] | 0x10,
            !irq ==> final(self).mem@.io[IF_REG as int] == old(self).mem@.io[IF_REG as int],
            final(self).timeline == old(self).timeline,
    {
        let before: u8 = selected_keys(&self.mem, self.joypad);
        self.joypad = !pressed;
        let after: u8 = selected_keys(&self.mem, self.joypad);
        joypad_set_buttons(after, &mut self.mem);
        proof {
            let p1 = old(self).mem@.io[JOYPAD_REG as int];
            assert(((p1 & 0xF0) | (after & 0x0F)) & 0x0F == after & 0x0F) by (bit_vector);
        }
        let irq: bool = before & !after & 0x0F != 0;
        if irq {
            request(Interrupt::Joypad, &mut self.mem);
        }
        irq
    }

    /// Runs the instruction at PC and accounts for it: its table cycles, plus
    /// a synthesized DMA's cycles and an interrupt's 20 when they happen, all
    /// charged to the timer and the PPU.
    pub fn run_instruction(&mut self) -> (total: u32)
        requires
            old(self).wf(),
            old(self).timeline.dots < mode_dots(old(self).timeline.curr_event_type),
        ensures
            final(self).wf(),
            final(self).timeline.dots < mode_dots(final(self).timeline.curr_event_type),
            final(self).ppu_state() == ppu_after(
                old(self).timeline.curr_event_type,
                old(self).timeline.line,
                (old(self).timeline.dots + total) as nat,
            ),
            ({
                let c = instruction_cycles(old(self).cpu, old(self).mem@);
                total == c || total == c + INTERRUPT_CYCLES || total == c + DMA_CYCLES || total
                    == c + DMA_CYCLES + INTERRUPT_CYCLES
            }),
            4 <= total <= 684,
            final(self).game_rom@ == old(self).game_rom@,
    {
        let cycles: u32 = self.cpu.step(&mut self.mem);
        let ghost stepped = self.cpu;
        let ghost pending_event = self.mem@.pending_event;
        let total = self.step_instruction(cycles);
        proof {
            let m = choose|m: MemView|
                self.cpu == (#[trigger] service_spec(stepped, m)).0 && total == cycles
                    + event_cycles(pending_event) + service_spec(stepped, m).2;
        }
        total
    }

    /// Runs instructions until the PPU mode current at entry has ended;
    /// returns the cycles spent, by which the PPU moved on.
    pub fn step(&mut self) -> (total: u32)
        requires
            old(self).wf(),
            old(self).timeline.dots < mode_dots(old(self).timeline.curr_event_type),
        ensures
            final(self).wf(),
            final(self).timeline.dots < mode_dots(final(self).timeline.curr_event_type),
            final(self).ppu_state() == ppu_after(
                old(self).timeline.curr_event_type,
                old(self).timeline.line,
                (old(self).timeline.dots + total) as nat,
            ),
            total >= mode_dots(old(self).timeline.curr_event_type) - old(self).timeline.dots,
            total < mode_dots(old(self).timeline.curr_event_type) - old(self).timeline.dots + 684,
            final(self).game_rom@ == old(self).game_rom@,
    {
        self.should_display_screen = false;
        let budget: u32 = duration(self.timeline.curr_event_type) - self.timeline.dots;
        let mut total: u32 = 0;
        while total < budget
            invariant
                self.wf(),
                self.timeline.dots < mode_dots(self.timeline.curr_event_type),
                budget == mode_dots(old(self).timeline.curr_event_type) - old(self).timeline.dots,
                budget <= LINE_DOTS,
                total < budget + 684,
                self.ppu_state() == ppu_after(
                    old(self).timeline.curr_event_type,
                    old(self).timeline.line,
                    (old(self).timeline.dots + total) as nat,
                ),
                self.game_rom@ == old(self).game_rom@,
            decreases budget + 684 - total,
        {
            let ghost before = self.ppu_state();
            let spent: u32 = self.run_instruction();
            proof {
                lemma_ppu_after_adds(
                    old(self).timeline.curr_event_type,
                    old(self).timeline.line,
                    (old(self).timeline.dots + total) as nat,
                    spent as nat,
                );
            }
            total = total + spent;
        }
        total
    }
}

} // verus!
