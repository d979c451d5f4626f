//! Sound registers: decoding of the sweep and envelope registers, and the
//! per-voice flags of the global registers NR51 and NR52.
use crate::mem::{MemView, Memory};
use vstd::prelude::*;

verus! {

pub const NR10_REGISTER_ADDR: u16 = 0xFF10;

pub const NR11_REGISTER_ADDR: u16 = 0xFF11;

pub const NR12_REGISTER_ADDR: u16 = 0xFF12;

pub const NR13_REGISTER_ADDR: u16 = 0xFF13;

pub const NR14_REGISTER_ADDR: u16 = 0xFF14;

pub const NR50_REGISTER_ADDR: u16 = 0xFF24;

pub const NR51_REGISTER_ADDR: u16 = 0xFF25;

pub const NR52_REGISTER_ADDR: u16 = 0xFF26;

#[derive(Clone, Copy, Debug, PartialEq, Eq, Structural)]
pub enum SweepFunc {
    Addition,
    Subtraction,
}

/// A frequency sweep register (NR10).
#[derive(Clone, Copy, Debug, PartialEq, Eq, Structural)]
pub struct Sweep {
    /// Bits 0-2.
    pub shift_number: u8,
    /// Bit 3.
    pub func: SweepFunc,
    /// Bits 4-6.
    pub sweep_time: u8,
}

pub open spec fn sweep_of(raw: u8) -> Sweep {
    Sweep {
        shift_number: raw & 0b111,
        func: if (raw >> 3u8) & 0b1 == 0 {
            SweepFunc::Addition
        } else {
            SweepFunc::Subtraction
        },
        sweep_time: (raw >> 4u8) & 0b111,
    }
}

fn decode_sweep(raw: u8) -> (r: Sweep)
    ensures
        r == sweep_of(raw),
{
    Sweep {
        shift_number: raw & 0b111,
        func: if (raw >> 3) & 0b1 == 0 {
            SweepFunc::Addition
        } else {
            SweepFunc::Subtraction
        },
        sweep_time: (raw >> 4) & 0b111,
    }
}

impl Sweep {
    /// The sweep register at `addr`.
    pub fn new(addr: u16, memory: &Memory) -> (r: Sweep)
        requires
            memory@.wf(),
        ensures
            r == sweep_of(memory@.read(addr)),
    {
        decode_sweep(memory.read_byte(addr))
    }

    pub fn update(&mut self, addr: u16, memory: &Memory)
        requires
            memory@.wf(),
        ensures
            *final(self) == sweep_of(memory@.read(addr)),
    {
        *self = decode_sweep(memory.read_byte(addr));
    }
}

#[derive(Clone, Copy, Debug, PartialEq, Eq, Structural)]
pub enum EnvelopeFunc {
    Attenuate,
    Amplify,
}

/// A volume envelope register (NR12, NR22, NR42).
#[derive(Clone, Copy, Debug, PartialEq, Eq, Structural)]
pub struct Envelope {
    /// Bits 0-2.
    pub step_length: u8,
    /// Bit 3.
    pub func: EnvelopeFunc,
    /// Bits 4-7: the initial volume.
    pub default_value: u8,
}

pub open spec fn envelope_of(raw: u8) -> Envelope {
    Envelope {
        step_length: raw & 0b111,
        func: if (raw >> 3u8) & 0b1 == 0 {
            EnvelopeFunc::Attenuate
        } else {
            EnvelopeFunc::Amplify
        },
        default_value: raw >> 4u8,
    }
}

fn decode_envelope(raw: u8) -> (r: Envelope)
    ensures
        r == envelope_of(raw),
{
    Envelope {
        step_length: raw & 0b111,
        func: if (raw >> 3) & 0b1 == 0 {
            EnvelopeFunc::Attenuate
        } else {
            EnvelopeFunc::Amplify
        },
        default_value: raw >> 4,
    }
}

impl Envelope {
    /// The envelope register at `addr`.
    pub fn new(addr: u16, memory: &Memory) -> (r: Envelope)
        requires
            memory@.wf(),
        ensures
            r == envelope_of(memory@.read(addr)),
    {
        decode_envelope(memory.read_byte(addr))
    }

    pub fn update(&mut self, addr: u16, memory: &Memory)
        requires
            memory@.wf(),
        ensures
            *final(self) == envelope_of(memory@.read(addr)),
    {
        *self = decode_envelope(memory.read_byte(addr));
    }
}

#[derive(Clone, Copy, Debug, PartialEq, Eq, Structural)]
pub enum VoiceType {
    PulseA,
    PulseB,
    Wave,
    WhiteNoise,
}

/// The voice's bit in NR51's nibbles and in NR52.
pub open spec fn global_mask_spec(v: VoiceType) -> u8 {
    match v {
        VoiceType::PulseA => 0x01,
        VoiceType::PulseB => 0x02,
        VoiceType::Wave => 0x04,
        VoiceType::WhiteNoise => 0x08,
    }
}

impl VoiceType {
    pub fn global_mask(&self) -> (r: u8)
        ensures
            r == global_mask_spec(*self),
    {
        let global_position: u8 = match *self {
            VoiceType::PulseA => 0,
            VoiceType::PulseB => 1,
            VoiceType::Wave => 2,
            VoiceType::WhiteNoise => 3,
        };
        assert(1u8 << 0u8 == 1 && 1u8 << 1u8 == 2 && 1u8 << 2u8 == 4 && 1u8 << 3u8 == 8)
            by (bit_vector);
        1 << global_position
    }
}

#[derive(Clone, Copy, Debug, PartialEq, Eq, Structural)]
pub enum ChannelNum {
    ChannelA,
    ChannelB,
}

pub struct GlobalReg;

impl GlobalReg {
    /// NR51 routes `voice_type` to output `channel_num` (low nibble A, high
    /// nibble B).
    pub fn should_output(voice_type: VoiceType, channel_num: ChannelNum, memory: &Memory) -> (r:
        bool)
        requires
            memory@.wf(),
        ensures
            r == (((memory@.read(NR51_REGISTER_ADDR) >> (if channel_num == ChannelNum::ChannelA {
                0u8
            } else {
                4u8
            })) & global_mask_spec(voice_type)) == global_mask_spec(voice_type)),
    {
        let shift: u8 = match channel_num {
            ChannelNum::ChannelA => 0,
            ChannelNum::ChannelB => 4,
        };
        let nr51: u8 = memory.read_byte(NR51_REGISTER_ADDR);
        ((nr51 >> shift) & voice_type.global_mask()) == voice_type.global_mask()
    }

    /// Clears the voice's "on" flag in NR52.
    pub fn reset_voice_flag(voice_type: VoiceType, memory: &mut Memory)
        requires
            old(memory)@.wf(),
        ensures
            final(memory)@ == old(memory)@.write(
                NR52_REGISTER_ADDR,
                old(memory)@.read(NR52_REGISTER_ADDR) & !global_mask_spec(voice_type),
            ),
            final(memory)@.wf(),
    {
        let nr52: u8 = memory.read_byte(NR52_REGISTER_ADDR);
        memory.write_byte(NR52_REGISTER_ADDR, nr52 & !(voice_type.global_mask()));
    }

    /// Sets the voice's "on" flag in NR52.
    pub fn set_voice_flag(voice_type: VoiceType, memory: &mut Memory)
        requires
            old(memory)@.wf(),
        ensures
            final(memory)@ == old(memory)@.write(
                NR52_REGISTER_ADDR,
                old(memory)@.read(NR52_REGISTER_ADDR) | global_mask_spec(voice_type),
            ),
            final(memory)@.wf(),
    {
        let nr52: u8 = memory.read_byte(NR52_REGISTER_ADDR);
        memory.write_byte(NR52_REGISTER_ADDR, nr52 | voice_type.global_mask());
    }
}

/// The pulse voice's length, duty, frequency and control registers.
#[derive(Clone, Copy, Debug, PartialEq, Eq, Structural)]
pub struct PulseRegs {
    /// NRx1 bits 0-5.
    pub sound_length: u8,
    /// NRx1 bits 6-7: duty 12.5%, 25%, 50% or 75%.
    pub duty: u8,
    /// 11 bits: NRx3 low, NRx4 bits 0-2 high.
    pub frequency: u16,
    /// NRx4 bit 6 clear: the sound plays on after its length.
    pub sound_loop: bool,
    /// NRx4 bit 7.
    pub trigger: bool,
}

pub open spec fn pulse_regs_of(nr11: u8, nr13: u8, nr14: u8) -> PulseRegs {
    PulseRegs {
        sound_length: nr11 & 0x3F,
        duty: nr11 >> 6u8,
        frequency: ((nr14 & 0b111) as u16 * 0x100 + nr13 as u16) as u16,
        sound_loop: (nr14 >> 6u8) & 1 == 0,
        trigger: (nr14 >> 7u8) & 1 == 1,
    }
}

/// The registers of the first pulse voice (NR11, NR13, NR14).
pub fn read_pulse_a(memory: &Memory) -> (r: PulseRegs)
    requires
        memory@.wf(),
    ensures
        r == pulse_regs_of(
            memory@.read(NR11_REGISTER_ADDR),
            memory@.read(NR13_REGISTER_ADDR),
            memory@.read(NR14_REGISTER_ADDR),
        ),
{
    let nr11: u8 = memory.read_byte(NR11_REGISTER_ADDR);
    let nr13: u8 = memory.read_byte(NR13_REGISTER_ADDR);
    let nr14: u8 = memory.read_byte(NR14_REGISTER_ADDR);
    PulseRegs {
        sound_length: nr11 & 0x3F,
        duty: nr11 >> 6,
        frequency: (nr14 & 0b111) as u16 * 0x100 + nr13 as u16,
        sound_loop: (nr14 >> 6) & 1 == 0,
        trigger: (nr14 >> 7) & 1 == 1,
    }
}

/// The frequency after one sweep step: f plus or minus f >> shift.
pub open spec fn swept(freq: u16, sweep: Sweep) -> int {
    match sweep.func {
        SweepFunc::Addition => freq + (freq >> sweep.shift_number),
        SweepFunc::Subtraction => freq - (freq >> sweep.shift_number),
    }
}

/// One sweep step; `None` when the frequency leaves 11 bits, which stops
/// the voice.
pub fn sweep_frequency(freq: u16, sweep: Sweep) -> (r: Option<u16>)
    requires
        freq <= 0x7FF,
        sweep.shift_number < 8,
    ensures
        r == (if swept(freq, sweep) > 0x7FF {
            None
        } else {
            Some(swept(freq, sweep) as u16)
        }),
{
    let shift: u8 = sweep.shift_number;
    let delta: u16 = freq >> shift;
    assert(freq >> shift <= freq) by (bit_vector);
    let next: u16 = match sweep.func {
        SweepFunc::Addition => freq + delta,
        SweepFunc::Subtraction => freq - delta,
    };
    if next > 0x7FF {
        None
    } else {
        Some(next)
    }
}

/// One envelope step from the initial volume, kept only below 15.
pub open spec fn enveloped(env: Envelope) -> Option<u8> {
    let next = match env.func {
        EnvelopeFunc::Amplify => (env.default_value + 1) % 256,
        EnvelopeFunc::Attenuate => (env.default_value + 255) % 256,
    };
    if next < 0xF {
        Some(next as u8)
    } else {
        None
    }
}

pub fn envelope_volume(env: Envelope) -> (r: Option<u8>)
    ensures
        r == enveloped(env),
{
    let next: u8 = match env.func {
        EnvelopeFunc::Amplify => env.default_value.wrapping_add(1),
        EnvelopeFunc::Attenuate => env.default_value.wrapping_sub(1),
    };
    if next < 0xF {
        Some(next)
    } else {
        None
    }
}

/// Milliseconds that a sound of length register `len` plays: (64 - len) / 256
/// of a second.
pub fn sound_length_ms(len: u8) -> (r: u32)
    requires
        len < 64,
    ensures
        r == (64 - len) * 1000 / 256,
{
    (64 - len as u32) * 1000 / 256
}

/// Milliseconds between sweep steps: `time` / 128 of a second.
pub fn sweep_time_ms(time: u8) -> (r: u32)
    ensures
        r == time * 1000 / 128,
{
    time as u32 * 1000 / 128
}

/// Milliseconds between envelope steps: `steps` / 64 of a second.
pub fn envelope_step_ms(steps: u8) -> (r: u32)
    ensures
        r == steps * 1000 / 64,
{
    steps as u32 * 1000 / 64
}

/// Writes a swept frequency back: low byte to NR13, high bits ORed into NR14.
pub fn write_pulse_a_frequency(freq: u16, memory: &mut Memory)
    requires
        old(memory)@.wf(),
    ensures
        final(memory)@ == old(memory)@.write(NR13_REGISTER_ADDR, (freq % 0x100) as u8).write(
            NR14_REGISTER_ADDR,
            old(memory)@.write(NR13_REGISTER_ADDR, (freq % 0x100) as u8).read(NR14_REGISTER_ADDR)
                | ((freq / 0x100) % 8) as u8,
        ),
        final(memory)@.wf(),
{
    memory.write_byte(NR13_REGISTER_ADDR, (freq % 0x100) as u8);
    let nr14: u8 = memory.read_byte(NR14_REGISTER_ADDR);
    memory.write_byte(NR14_REGISTER_ADDR, nr14 | ((freq / 0x100) % 8) as u8);
}

/// Writes an envelope volume back into NR12 bits 4-7.
pub fn write_pulse_a_volume(volume: u8, memory: &mut Memory)
    requires
        old(memory)@.wf(),
        volume < 16,
    ensures
        final(memory)@ == old(memory)@.write(
            NR12_REGISTER_ADDR,
            ((old(memory)@.read(NR12_REGISTER_ADDR) & 0x0F) + volume * 16) as u8,
        ),
        final(memory)@.wf(),
{
    let nr12: u8 = memory.read_byte(NR12_REGISTER_ADDR);
    assert(nr12 & 0x0F <= 0x0F) by (bit_vector);
    memory.write_byte(NR12_REGISTER_ADDR, (nr12 & 0x0F) + volume * 16);
}

/// Clears the trigger bit of NR14 once the voice stopped.
pub fn clear_pulse_a_trigger(memory: &mut Memory)
    requires
        old(memory)@.wf(),
    ensures
        final(memory)@ == old(memory)@.write(
            NR14_REGISTER_ADDR,
            old(memory)@.read(NR14_REGISTER_ADDR) & 0x7F,
        ),
        final(memory)@.wf(),
{
    let nr14: u8 = memory.read_byte(NR14_REGISTER_ADDR);
    memory.write_byte(NR14_REGISTER_ADDR, nr14 & 0x7F);
}

/// NR52 bit 7 (sound on) and the two output volumes of NR50 (bits 0-2 and
/// 4-6).
pub fn master_control(memory: &Memory) -> (r: (bool, u8, u8))
    requires
        memory@.wf(),
    ensures
        r == (
            memory@.read(NR52_REGISTER_ADDR) >> 7u8 == 1,
            memory@.read(NR50_REGISTER_ADDR) & 0b111,
            (memory@.read(NR50_REGISTER_ADDR) >> 4u8) & 0b111,
        ),
{
    let on: u8 = memory.read_byte(NR52_REGISTER_ADDR);
    let volumes: u8 = memory.read_byte(NR50_REGISTER_ADDR);
    (on >> 7 == 1, volumes & 0b111, (volumes >> 4) & 0b111)
}

/// What the first pulse voice does in one update.
#[derive(Clone, Copy, Debug, PartialEq, Eq, Structural)]
pub enum PulseStep {
    /// The voice is silent: not triggered, its length ran out, or the sweep
    /// overflowed.
    Stop,
    /// The voice plays; `frequency` and `volume` are the values a sweep or
    /// envelope step wrote back, and `start` asks to start the output.
    Play { frequency: Option<u16>, volume: Option<u8>, start: bool },
}

/// The decision for the first pulse voice, `elapsed_ms` after it started
/// (`started`), from its registers.
pub open spec fn pulse_step_spec(
    regs: PulseRegs,
    sweep: Sweep,
    envelope: Envelope,
    elapsed_ms: u64,
    started: bool,
) -> PulseStep {
    let sweeping = sweep.sweep_time > 0 && elapsed_ms > sweep.sweep_time * 1000 / 128;
    let swept_freq = swept(regs.frequency, sweep);
    if !regs.trigger {
        PulseStep::Stop
    } else if !regs.sound_loop && elapsed_ms >= (64 - regs.sound_length) * 1000 / 256 {
        PulseStep::Stop
    } else if sweeping && swept_freq > 0x7FF {
        PulseStep::Stop
    } else {
        PulseStep::Play {
            frequency: if sweeping {
                Some(swept_freq as u16)
            } else {
                None
            },
            volume: if envelope.step_length > 0 && elapsed_ms >= envelope.step_length * 1000 / 64 {
                enveloped(envelope)
            } else {
                None
            },
            start: !started,
        }
    }
}

/// Decides the first pulse voice's update.
pub fn pulse_step(
    regs: PulseRegs,
    sweep: Sweep,
    envelope: Envelope,
    elapsed_ms: u64,
    started: bool,
) -> (r: PulseStep)
    requires
        regs.sound_length < 64,
        regs.frequency <= 0x7FF,
        sweep.shift_number < 8,
    ensures
        r == pulse_step_spec(regs, sweep, envelope, elapsed_ms, started),
{
    if !regs.trigger {
        return PulseStep::Stop;
    }
    if !regs.sound_loop && elapsed_ms >= sound_length_ms(regs.sound_length) as u64 {
        return PulseStep::Stop;
    }
    let sweeping: bool = sweep.sweep_time > 0 && elapsed_ms > sweep_time_ms(sweep.sweep_time) as u64;
    let frequency: Option<u16> = if sweeping {
        match sweep_frequency(regs.frequency, sweep) {
            None => {
                return PulseStep::Stop;
            },
            Some(f) => Some(f),
        }
    } else {
        None
    };
    let volume: Option<u8> = if envelope.step_length > 0 && elapsed_ms >= envelope_step_ms(
        envelope.step_length,
    ) as u64 {
        envelope_volume(envelope)
    } else {
        None
    };
    PulseStep::Play { frequency, volume, start: !started }
}

/// The bus after the first pulse voice halts: its flag in NR52 and the
/// trigger bit of NR14 cleared.
pub open spec fn halted_mem(m: MemView) -> MemView {
    let m1 = m.write(NR52_REGISTER_ADDR, m.read(NR52_REGISTER_ADDR) & !global_mask_spec(VoiceType::PulseA));
    m1.write(NR14_REGISTER_ADDR, m1.read(NR14_REGISTER_ADDR) & 0x7F)
}

/// The bus after a swept frequency is written back to NR13 and NR14.
pub open spec fn frequency_written(m: MemView, freq: u16) -> MemView {
    let m1 = m.write(NR13_REGISTER_ADDR, (freq % 0x100) as u8);
    m1.write(NR14_REGISTER_ADDR, m1.read(NR14_REGISTER_ADDR) | ((freq / 0x100) % 8) as u8)
}

/// The bus after an envelope volume is written back to NR12.
pub open spec fn volume_written(m: MemView, volume: u8) -> MemView {
    m.write(NR12_REGISTER_ADDR, ((m.read(NR12_REGISTER_ADDR) & 0x0F) + volume * 16) as u8)
}

/// The bus after one update of the first pulse voice that decided `step`.
pub open spec fn pulse_mem(m: MemView, step: PulseStep) -> MemView {
    match step {
        PulseStep::Stop => halted_mem(m),
        PulseStep::Play { frequency, volume, .. } => {
            let m1 = m.write(
                NR52_REGISTER_ADDR,
                m.read(NR52_REGISTER_ADDR) | global_mask_spec(VoiceType::PulseA),
            );
            let m2 = match frequency {
                Some(f) => frequency_written(m1, f),
                None => m1,
            };
            match volume {
                Some(v) => volume_written(m2, v),
                None => m2,
            }
        },
    }
}

/// Halts the first pulse voice: clears its flag in NR52 and the trigger bit
/// of NR14.
pub fn halt_pulse_a(memory: &mut Memory)
    requires
        old(memory)@.wf(),
    ensures
        final(memory)@ == halted_mem(old(memory)@),
        final(memory)@.wf(),
{
    GlobalReg::reset_voice_flag(VoiceType::PulseA, memory);
    clear_pulse_a_trigger(memory);
}

/// One update of the first pulse voice on the bus: reads its registers and
/// decides; then either halts the voice or sets its flag in NR52 and writes
/// back what the sweep and envelope changed.
pub fn run_pulse_a(memory: &mut Memory, elapsed_ms: u64, started: bool) -> (r: PulseStep)
    requires
        old(memory)@.wf(),
    ensures
        final(memory)@.wf(),
        r == pulse_step_spec(
            pulse_regs_of(
                old(memory)@.read(NR11_REGISTER_ADDR),
                old(memory)@.read(NR13_REGISTER_ADDR),
                old(memory)@.read(NR14_REGISTER_ADDR),
            ),
            sweep_of(old(memory)@.read(NR10_REGISTER_ADDR)),
            envelope_of(old(memory)@.read(NR12_REGISTER_ADDR)),
            elapsed_ms,
            started,
        ),
        final(memory)@ == pulse_mem(old(memory)@, r),
{
    let regs: PulseRegs = read_pulse_a(memory);
    let sweep: Sweep = Sweep::new(NR10_REGISTER_ADDR, memory);
    let envelope: Envelope = Envelope::new(NR12_REGISTER_ADDR, memory);
    proof {
        let nr11 = memory@.read(NR11_REGISTER_ADDR);
        let nr13 = memory@.read(NR13_REGISTER_ADDR);
        let nr14 = memory@.read(NR14_REGISTER_ADDR);
        let nr10 = memory@.read(NR10_REGISTER_ADDR);
        assert(nr11 & 0x3F < 64) by (bit_vector);
        assert(nr10 & 0b111 < 8) by (bit_vector);
        assert((nr14 & 0b111) as u16 * 0x100 + nr13 as u16 <= 0x7FF) by (bit_vector);
    }
    let step: PulseStep = pulse_step(regs, sweep, envelope, elapsed_ms, started);
    match step {
        PulseStep::Stop => {
            halt_pulse_a(memory);
        },
        PulseStep::Play { frequency, volume, .. } => {
            GlobalReg::set_voice_flag(VoiceType::PulseA, memory);
            match frequency {
                Some(f) => write_pulse_a_frequency(f, memory),
                None => {},
            }
            match volume {
                Some(v) => write_pulse_a_volume(v, memory),
                None => {},
            }
        },
    }
    step
}

} // verus!
