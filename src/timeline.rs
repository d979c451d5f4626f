//! Events that drive the emulator: the four PPU modes, each with its cycle
//! budget, and the events that instructions synthesize through bus writes.
use vstd::prelude::*;

verus! {

#[derive(Clone, Copy, Debug, PartialEq, Eq, Structural)]
pub enum EventKind {
    OamScan,
    Draw,
    HBlank,
    VBlank,
    BootstrapFinished,
    DmaTransfer,
    JoypadPressed,
}

#[derive(Clone, Copy, Debug, PartialEq, Eq, Structural)]
pub struct Event {
    pub kind: EventKind,
    pub duration: u32,
    pub extra: u8,
}

/// Dots spent scanning OAM at the start of a visible line.
pub const OAM_SCAN_DOTS: u32 = 80;

/// Dots spent drawing a visible line.
pub const DRAW_DOTS: u32 = 172;

/// Dots of horizontal blank that close a visible line.
pub const HBLANK_DOTS: u32 = 204;

/// Dots of one line, visible or not.
pub const LINE_DOTS: u32 = 456;

/// Dots of a whole frame: 154 lines.
pub const FRAME_DOTS: u32 = 70224;

/// Cycles that an OAM DMA transfer keeps the bus busy.
pub const DMA_CYCLES: u32 = 640;

pub open spec fn is_ppu_mode(kind: EventKind) -> bool {
    kind == EventKind::OamScan || kind == EventKind::Draw || kind == EventKind::HBlank || kind
        == EventKind::VBlank
}

/// The dots that a PPU mode lasts.
pub open spec fn mode_dots(kind: EventKind) -> u32 {
    match kind {
        EventKind::OamScan => OAM_SCAN_DOTS,
        EventKind::Draw => DRAW_DOTS,
        EventKind::HBlank => HBLANK_DOTS,
        EventKind::VBlank => LINE_DOTS,
        _ => 0,
    }
}

/// The mode number that STAT shows.
pub open spec fn stat_mode(kind: EventKind) -> u8 {
    match kind {
        EventKind::HBlank => 0,
        EventKind::VBlank => 1,
        EventKind::OamScan => 2,
        _ => 3,
    }
}

/// The mode that follows `kind` when it ends on line `line`, and the line it
/// starts on: each visible line runs OAM scan, drawing and HBlank; after line
/// 143 come the ten VBlank lines 144-153, then line 0 again.
pub open spec fn next_mode(kind: EventKind, line: u8) -> (EventKind, u8) {
    match kind {
        EventKind::OamScan => (EventKind::Draw, line),
        EventKind::Draw => (EventKind::HBlank, line),
        EventKind::HBlank => if line + 1 >= 144 {
            (EventKind::VBlank, 144)
        } else {
            (EventKind::OamScan, (line + 1) as u8)
        },
        EventKind::VBlank => if line >= 153 {
            (EventKind::OamScan, 0)
        } else {
            (EventKind::VBlank, (line + 1) as u8)
        },
        _ => (kind, line),
    }
}

/// The PPU's place in the frame: the current mode, the dots spent in it and
/// the line it is on (which LY shows).
#[derive(Clone, Copy, Debug, PartialEq, Eq, Structural)]
pub struct EventTimeline {
    pub curr_event_type: EventKind,
    pub dots: u32,
    pub line: u8,
}

impl EventTimeline {
    /// A fresh frame: OAM scan of line 0.
    pub fn new() -> (t: EventTimeline)
        ensures
            t == (EventTimeline { curr_event_type: EventKind::OamScan, dots: 0, line: 0 }),
    {
        EventTimeline { curr_event_type: EventKind::OamScan, dots: 0, line: 0 }
    }

    pub open spec fn new_spec() -> EventTimeline {
        EventTimeline { curr_event_type: EventKind::OamScan, dots: 0, line: 0 }
    }

    /// The current PPU mode as an event with its duration.
    pub fn curr_event(&self) -> (e: Event)
        ensures
            e == (Event {
                kind: self.curr_event_type,
                duration: mode_dots(self.curr_event_type),
                extra: 0,
            }),
    {
        Event { kind: self.curr_event_type, duration: duration(self.curr_event_type), extra: 0 }
    }
}

pub fn duration(kind: EventKind) -> (r: u32)
    ensures
        r == mode_dots(kind),
{
    match kind {
        EventKind::OamScan => OAM_SCAN_DOTS,
        EventKind::Draw => DRAW_DOTS,
        EventKind::HBlank => HBLANK_DOTS,
        EventKind::VBlank => LINE_DOTS,
        _ => 0,
    }
}

pub fn next(kind: EventKind, line: u8) -> (r: (EventKind, u8))
    ensures
        r == next_mode(kind, line),
{
    match kind {
        EventKind::OamScan => (EventKind::Draw, line),
        EventKind::Draw => (EventKind::HBlank, line),
        EventKind::HBlank => if line >= 143 {
            (EventKind::VBlank, 144)
        } else {
            (EventKind::OamScan, line + 1)
        },
        EventKind::VBlank => if line >= 153 {
            (EventKind::OamScan, 0)
        } else {
            (EventKind::VBlank, line + 1)
        },
        _ => (kind, line),
    }
}

pub fn mode_number(kind: EventKind) -> (r: u8)
    ensures
        r == stat_mode(kind),
{
    match kind {
        EventKind::HBlank => 0,
        EventKind::VBlank => 1,
        EventKind::OamScan => 2,
        _ => 3,
    }
}

/// A count kept over a run of PPU modes.
pub struct FrameTally {
    pub mode: EventKind,
    pub line: u8,
    pub dots: nat,
    pub hblanks: nat,
    pub vblanks: nat,
}

/// One mode ends: its dots are counted, and each entry into HBlank, and into
/// VBlank from a visible line.
pub open spec fn tally_step(t: FrameTally) -> FrameTally {
    let (m, l) = next_mode(t.mode, t.line);
    FrameTally {
        mode: m,
        line: l,
        dots: t.dots + mode_dots(t.mode) as nat,
        hblanks: t.hblanks + (if m == EventKind::HBlank {
            1nat
        } else {
            0nat
        }),
        vblanks: t.vblanks + (if m == EventKind::VBlank && t.mode != EventKind::VBlank {
            1nat
        } else {
            0nat
        }),
    }
}

pub open spec fn tally_run(t: FrameTally, n: nat) -> FrameTally
    decreases n,
{
    if n == 0 {
        t
    } else {
        tally_step(tally_run(t, (n - 1) as nat))
    }
}

pub open spec fn frame_start() -> FrameTally {
    FrameTally { mode: EventKind::OamScan, line: 0, dots: 0, hblanks: 0, vblanks: 0 }
}

proof fn lemma_visible_lines(k: nat)
    requires
        k <= 144,
    ensures
        tally_run(frame_start(), 3 * k) == (if k < 144 {
            FrameTally {
                mode: EventKind::OamScan,
                line: k as u8,
                dots: 456 * k as nat,
                hblanks: k,
                vblanks: 0,
            }
        } else {
            FrameTally {
                mode: EventKind::VBlank,
                line: 144,
                dots: 456 * 144,
                hblanks: 144,
                vblanks: 1,
            }
        }),
    decreases k,
{
    if k > 0 {
        lemma_visible_lines((k - 1) as nat);
        let n = 3 * k;
        assert(tally_run(frame_start(), (n - 2) as nat) == tally_step(
            tally_run(frame_start(), (n - 3) as nat),
        ));
        assert(tally_run(frame_start(), (n - 1) as nat) == tally_step(
            tally_run(frame_start(), (n - 2) as nat),
        ));
        assert(tally_run(frame_start(), n) == tally_step(tally_run(frame_start(), (n - 1) as nat)));
    }
}

proof fn lemma_vblank_lines(j: nat)
    requires
        j <= 10,
    ensures
        tally_run(frame_start(), 432 + j) == (if j < 10 {
            FrameTally {
                mode: EventKind::VBlank,
                line: (144 + j) as u8,
                dots: (65664 + 456 * j) as nat,
                hblanks: 144,
                vblanks: 1,
            }
        } else {
            FrameTally {
                mode: EventKind::OamScan,
                line: 0,
                dots: 70224,
                hblanks: 144,
                vblanks: 1,
            }
        }),
    decreases j,
{
    if j == 0 {
        lemma_visible_lines(144);
    } else {
        lemma_vblank_lines((j - 1) as nat);
    }
}

/// One frame from the start of line 0 is 442 mode changes: 144 HBlanks and
/// one entry into VBlank, 70224 dots in all, and it ends at the start of line
/// 0 again.
pub proof fn lemma_frame_timing()
    ensures
        tally_run(frame_start(), 442) == (FrameTally {
            mode: EventKind::OamScan,
            line: 0,
            dots: FRAME_DOTS as nat,
            hblanks: 144,
            vblanks: 1,
        }),
{
    lemma_vblank_lines(10);
}

} // verus!
