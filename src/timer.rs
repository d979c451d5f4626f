//! The timer: a 16-bit counter whose upper byte is DIV, and TIMA, which counts
//! the falling edges of one counter bit chosen by TAC.
use crate::interrupt::{request, requested, Interrupt};
use crate::mem::{MemView, Memory};
use vstd::prelude::*;

verus! {

pub const DIV_REG: u8 = 0x04;

pub const TIMA_REG: u8 = 0x05;

pub const TMA_REG: u8 = 0x06;

pub const TAC_REG: u8 = 0x07;

#[derive(Clone, Copy, Debug, PartialEq, Eq, Structural)]
pub struct Timer {
    /// The internal counter, advanced by every cycle.
    pub counter: u16,
    /// TIMA overflowed in the last machine cycle: TMA is reloaded and the
    /// interrupt requested at the next one.
    pub reload_pending: bool,
    /// Cycles charged but not yet making up a whole machine cycle.
    pub sub_cycles: u8,
}

/// The counter bit that TAC's low two bits select, as a power of two: bits 9,
/// 3, 5 and 7 for 4096, 262144, 65536 and 16384 Hz.
pub open spec fn tap_divisor(tac: u8) -> int {
    if tac % 4 == 0 {
        512
    } else if tac % 4 == 1 {
        8
    } else if tac % 4 == 2 {
        32
    } else {
        128
    }
}

/// The line whose falling edge clocks TIMA: TAC bit 2 and the tapped bit.
pub open spec fn signal(counter: u16, tac: u8) -> bool {
    (tac / 4) % 2 == 1 && (counter as int / tap_divisor(tac)) % 2 == 1
}

pub open spec fn with_io(m: MemView, reg: int, v: u8) -> MemView {
    MemView { io: m.io.update(reg, v), ..m }
}

/// One increment of TIMA; on overflow TIMA reads 0 until the reload.
pub open spec fn bump_spec(t: Timer, m: MemView) -> (Timer, MemView) {
    if m.io[TIMA_REG as int] == 0xFF {
        (Timer { reload_pending: true, ..t }, with_io(m, TIMA_REG as int, 0))
    } else {
        (t, with_io(m, TIMA_REG as int, (m.io[TIMA_REG as int] + 1) as u8))
    }
}

/// One machine cycle (4 clock cycles) of the timer.
pub open spec fn step_spec(t: Timer, m: MemView) -> (Timer, MemView) {
    let tac = m.io[TAC_REG as int];
    let t0 = Timer { reload_pending: false, ..t };
    let m0 = if t.reload_pending {
        requested(with_io(m, TIMA_REG as int, m.io[TMA_REG as int]), Interrupt::Timer)
    } else {
        m
    };
    let c = ((t.counter + 4) % 0x10000) as u16;
    let t1 = Timer { counter: c, ..t0 };
    let m1 = with_io(m0, DIV_REG as int, (c / 0x100) as u8);
    if signal(t.counter, tac) && !signal(c, tac) {
        bump_spec(t1, m1)
    } else {
        (t1, m1)
    }
}

/// `n` machine cycles of the timer.
pub open spec fn steps_spec(t: Timer, m: MemView, n: nat) -> (Timer, MemView)
    decreases n,
{
    if n == 0 {
        (t, m)
    } else {
        let (t1, m1) = steps_spec(t, m, (n - 1) as nat);
        step_spec(t1, m1)
    }
}

/// A CPU write to DIV restarts the counter; if the tapped bit was high that
/// is a falling edge and clocks TIMA.
pub open spec fn div_reset_spec(t: Timer, m: MemView) -> (Timer, MemView) {
    let t1 = Timer { counter: 0, ..t };
    let m1 = MemView { div_written: false, ..with_io(m, DIV_REG as int, 0) };
    if signal(t.counter, m.io[TAC_REG as int]) {
        bump_spec(t1, m1)
    } else {
        (t1, m1)
    }
}

/// The state that `update` starts its machine cycles from.
pub open spec fn after_div_check(t: Timer, m: MemView) -> (Timer, MemView) {
    if m.div_written {
        div_reset_spec(t, m)
    } else {
        (t, m)
    }
}

impl Timer {
    pub fn new() -> (t: Timer)
        ensures
            t.counter == 0,
            !t.reload_pending,
            t.sub_cycles == 0,
    {
        Timer { counter: 0, reload_pending: false, sub_cycles: 0 }
    }

    fn bump(&mut self, mem: &mut Memory)
        requires
            old(mem)@.wf(),
        ensures
            (*final(self), final(mem)@) == bump_spec(*old(self), old(mem)@),
            final(mem)@.wf(),
    {
        let tima: u8 = mem.io_reg(TIMA_REG);
        if tima == 0xFF {
            mem.set_io(TIMA_REG, 0);
            self.reload_pending = true;
        } else {
            mem.set_io(TIMA_REG, tima + 1);
        }
    }

    /// Advances the timer by one machine cycle.
    pub fn tick(&mut self, mem: &mut Memory)
        requires
            old(mem)@.wf(),
        ensures
            (*final(self), final(mem)@) == step_spec(*old(self), old(mem)@),
            final(mem)@.wf(),
    {
        let tac: u8 = mem.io_reg(TAC_REG);
        let before: bool = tac / 4 % 2 == 1 && (self.counter / tap_divisor_of(tac)) % 2 == 1;
        if self.reload_pending {
            let tma: u8 = mem.io_reg(TMA_REG);
            mem.set_io(TIMA_REG, tma);
            request(Interrupt::Timer, mem);
            self.reload_pending = false;
        }
        self.counter = self.counter.wrapping_add(4);
        mem.set_io(DIV_REG, (self.counter / 0x100) as u8);
        let after: bool = tac / 4 % 2 == 1 && (self.counter / tap_divisor_of(tac)) % 2 == 1;
        if before && !after {
            self.bump(mem);
        }
    }

    /// Charges `cycles` clock cycles: first restarts the counter if the CPU
    /// wrote DIV, then runs one machine cycle per four clock cycles.
    pub fn update(&mut self, cycles: u32, mem: &mut Memory)
        requires
            old(mem)@.wf(),
            old(self).sub_cycles < 4,
        ensures
            final(mem)@.wf(),
            final(self).sub_cycles == (old(self).sub_cycles + cycles) % 4,
            ({
                let (t0, m0) = after_div_check(*old(self), old(mem)@);
                let (t1, m1) = steps_spec(t0, m0, ((old(self).sub_cycles + cycles) / 4) as nat);
                (Timer { sub_cycles: final(self).sub_cycles, ..*final(self) }, final(mem)@) == (
                Timer { sub_cycles: final(self).sub_cycles, ..t1 }, m1)
            }),
    {
        if mem.take_div_written() {
            let tac: u8 = mem.io_reg(TAC_REG);
            let high: bool = tac / 4 % 2 == 1 && (self.counter / tap_divisor_of(tac)) % 2 == 1;
            self.counter = 0;
            mem.set_io(DIV_REG, 0);
            if high {
                self.bump(mem);
            }
        }
        let total: u64 = self.sub_cycles as u64 + cycles as u64;
        let n: u64 = total / 4;
        let ghost t0 = *self;
        let ghost m0 = mem@;
        let mut i: u64 = 0;
        while i < n
            invariant
                i <= n,
                mem@.wf(),
                (*self, mem@) == steps_spec(t0, m0, i as nat),
                t0.sub_cycles == old(self).sub_cycles,
                self.sub_cycles == old(self).sub_cycles,
            decreases n - i,
        {
            self.tick(mem);
            i = i + 1;
        }
        self.sub_cycles = (total % 4) as u8;
        proof {
            assert((t0, m0) == after_div_check(*old(self), old(mem)@));
        }
    }
}

fn tap_divisor_of(tac: u8) -> (r: u16)
    ensures
        r == tap_divisor(tac),
{
    if tac % 4 == 0 {
        512
    } else if tac % 4 == 1 {
        8
    } else if tac % 4 == 2 {
        32
    } else {
        128
    }
}

/// When TIMA overflows, it reads 0 for one machine cycle; four clock cycles
/// later TIMA holds TMA and the timer interrupt is requested.
pub proof fn lemma_overflow_interrupt_four_cycles_later(t: Timer, m: MemView)
    requires
        m.wf(),
        !t.reload_pending,
        m.io[TIMA_REG as int] == 0xFF,
        signal(t.counter, m.io[TAC_REG as int]),
        !signal(((t.counter + 4) % 0x10000) as u16, m.io[TAC_REG as int]),
    ensures
        ({
            let (t1, m1) = step_spec(t, m);
            let (t2, m2) = step_spec(t1, m1);
            &&& m1.io[TIMA_REG as int] == 0
            &&& m1.io[0x0F] == m.io[0x0F]
            &&& m2.io[0x0F] == m.io[0x0F] | 0x04
            &&& m2.io[TIMA_REG as int] == m.io[TMA_REG as int]
        }),
{
}

} // verus!
