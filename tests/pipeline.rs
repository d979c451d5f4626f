use gebemula::debugger::{DebugAction, DebugReply, Debugger};
use gebemula::graphics::{Graphics, Priority, TileAttr, TilePixel};
use gebemula::mem::Memory;
use gebemula::sound::{
    envelope_step_ms, envelope_volume, read_pulse_a, run_pulse_a, sound_length_ms, sweep_frequency,
    sweep_time_ms, ChannelNum, Envelope, EnvelopeFunc, GlobalReg, PulseStep, Sweep, SweepFunc,
    VoiceType,
};

fn pixel(g: &Graphics, x: usize, y: usize) -> (u8, u8, u8, u8) {
    let s = g.screen();
    let p = (y * 160 + x) * 4;
    (s[p], s[p + 1], s[p + 2], s[p + 3])
}

#[test]
fn tile_attr_bits() {
    let a = TileAttr(0b1110_1101);
    assert_eq!(a.cgb_palette_number(), 0b101);
    assert_eq!(a.tile_vram_bank(), 1);
    assert_eq!(a.dmg_palette_number(), 0);
    assert!(a.h_flip());
    assert!(a.v_flip());
    assert_eq!(a.priority(), Priority::Background);
    assert_eq!(TileAttr(0).priority(), Priority::Sprite);
    let p = TilePixel::new(3, a);
    assert_eq!(p.color_number, 3);
}

#[test]
fn cgb_color_expansion() {
    assert_eq!(Graphics::rgb(0x7F, 0xFF), (0xFF, 0xFF, 0xFF));
    assert_eq!(Graphics::rgb(0x00, 0x1F), (0xFF, 0x00, 0x00));
    assert_eq!(Graphics::rgb(0x03, 0xE0), (0x00, 0xFF, 0x00));
    assert_eq!(Graphics::rgb(0x7C, 0x00), (0x00, 0x00, 0xFF));
    assert_eq!(Graphics::rgb(0x00, 0x01), (0x08, 0x00, 0x00));
}

#[test]
fn background_line_uses_bgp() {
    let mut mem = Memory::new();
    let mut g = Graphics::new();
    mem.write_byte(0x8000, 0xFF);
    mem.write_byte(0x8001, 0x00);
    mem.write_byte(0xFF47, 0xE4);
    mem.write_byte(0xFF40, 0x91);
    g.update(&mem);
    assert_eq!(pixel(&g, 0, 0), (0xC0, 0xC0, 0xC0, 0xFF));
    assert_eq!(pixel(&g, 159, 0), (0xC0, 0xC0, 0xC0, 0xFF));
    assert_eq!(pixel(&g, 0, 1), (0xFF, 0xFF, 0xFF, 0xFF));
}

#[test]
fn background_scroll_and_signed_tiles() {
    let mut mem = Memory::new();
    let mut g = Graphics::new();
    mem.write_byte(0x9800, 0x80);
    mem.write_byte(0x8800, 0x00);
    mem.write_byte(0x8801, 0xFF);
    mem.write_byte(0xFF47, 0xE4);
    mem.write_byte(0xFF43, 0xF8);
    mem.write_byte(0xFF40, 0x81);
    g.update(&mem);
    assert_eq!(pixel(&g, 8, 0), (0x60, 0x60, 0x60, 0xFF));
    assert_eq!(pixel(&g, 7, 0), (0xFF, 0xFF, 0xFF, 0xFF));
}

#[test]
fn window_starts_at_wx_minus_seven() {
    let mut mem = Memory::new();
    let mut g = Graphics::new();
    mem.write_byte(0x9C00, 0x01);
    mem.write_byte(0x8010, 0xFF);
    mem.write_byte(0x8011, 0xFF);
    mem.write_byte(0xFF47, 0xE4);
    mem.write_byte(0xFF4A, 0x00);
    mem.write_byte(0xFF4B, 0x57);
    mem.write_byte(0xFF40, 0xF1);
    g.update(&mem);
    assert_eq!(pixel(&g, 79, 0), (0xFF, 0xFF, 0xFF, 0xFF));
    assert_eq!(pixel(&g, 80, 0), (0x00, 0x00, 0x00, 0xFF));
}

#[test]
fn sprite_over_background() {
    let mut mem = Memory::new();
    let mut g = Graphics::new();
    mem.write_byte(0x8010, 0x80);
    mem.write_byte(0x8011, 0x80);
    mem.write_byte(0xFE00, 16);
    mem.write_byte(0xFE01, 8);
    mem.write_byte(0xFE02, 1);
    mem.write_byte(0xFE03, 0);
    mem.write_byte(0xFF47, 0xE4);
    mem.write_byte(0xFF48, 0xE4);
    mem.write_byte(0xFF40, 0x93);
    g.update(&mem);
    assert_eq!(pixel(&g, 0, 0), (0x00, 0x00, 0x00, 0xFF));
    assert_eq!(pixel(&g, 1, 0), (0xFF, 0xFF, 0xFF, 0xFF));
}

#[test]
fn sprite_behind_nonzero_background() {
    let mut mem = Memory::new();
    let mut g = Graphics::new();
    mem.write_byte(0x8000, 0xFF);
    mem.write_byte(0x8010, 0xFF);
    mem.write_byte(0x8011, 0xFF);
    mem.write_byte(0xFE00, 16);
    mem.write_byte(0xFE01, 8);
    mem.write_byte(0xFE02, 1);
    mem.write_byte(0xFE03, 0x80);
    mem.write_byte(0xFF47, 0xE4);
    mem.write_byte(0xFF48, 0xE4);
    mem.write_byte(0xFF40, 0x93);
    g.update(&mem);
    assert_eq!(pixel(&g, 0, 0), (0xC0, 0xC0, 0xC0, 0xFF));
}

#[test]
fn lcd_off_draws_nothing() {
    let mut mem = Memory::new();
    let mut g = Graphics::new();
    mem.write_byte(0x8000, 0xFF);
    mem.write_byte(0xFF47, 0xE4);
    mem.write_byte(0xFF40, 0x11);
    g.update(&mem);
    assert_eq!(pixel(&g, 0, 0), (0xFF, 0xFF, 0xFF, 0xFF));
}

#[test]
fn toggles_flip() {
    let mut g = Graphics::new();
    assert!(!g.toggle_bg());
    assert!(g.toggle_bg());
    assert!(!g.toggle_wn());
    assert!(!g.toggle_sprites());
}

#[test]
fn debugger_commands() {
    let mut d = Debugger::new();
    assert_eq!(d.parse("show"), DebugReply::ShowArgCount);
    assert_eq!(d.parse("show cpu"), DebugReply::ShowCpu);
    assert_eq!(d.parse("show ioregs"), DebugReply::ShowIoRegs);
    assert_eq!(d.parse("show memory"), DebugReply::ShowMemory);
    assert_eq!(d.parse("show disk"), DebugReply::InvalidShowParam);
    assert_eq!(d.parse("last"), DebugReply::PrintLast);
    assert_eq!(d.parse("help"), DebugReply::Help);
    assert_eq!(d.parse(""), DebugReply::Nothing);
    assert_eq!(d.parse("bogus"), DebugReply::InvalidCommand);
    assert!(!d.should_run_cpu);
    assert_eq!(d.parse("step"), DebugReply::Nothing);
    assert!(d.is_step && d.should_run_cpu);
}

#[test]
fn debugger_break_addresses() {
    let mut d = Debugger::new();
    assert_eq!(d.parse("break 0x0150"), DebugReply::Nothing);
    assert_eq!(d.break_addr, Some(0x0150));
    assert!(d.should_run_cpu);
    assert_eq!(d.parse("break 0xFFFF"), DebugReply::Nothing);
    assert_eq!(d.break_addr, Some(0xFFFF));
    assert_eq!(d.parse("break 0x10000"), DebugReply::InvalidAddress);
    assert_eq!(d.break_addr, None);
    assert_eq!(d.parse("break 0xZZ"), DebugReply::InvalidAddress);
    assert_eq!(d.parse("break 0x"), DebugReply::InvalidAddress);
    assert_eq!(d.parse("break"), DebugReply::BreakArgCount);
    assert_eq!(d.parse("break 12AB"), DebugReply::InvalidAddress);
    assert_eq!(d.break_addr, None);
    assert_eq!(d.parse("break 1"), DebugReply::InvalidAddress);
    assert_eq!(d.parse("break 0x+1f"), DebugReply::Nothing);
    assert_eq!(d.break_addr, Some(0x1F));
}

#[test]
fn debugger_run_modes() {
    let mut d = Debugger::new();
    assert_eq!(d.parse("run debug"), DebugReply::RunArgCount);
    assert_eq!(d.parse("run"), DebugReply::Nothing);
    assert!(d.should_run_cpu);
    assert_eq!(d.run_debug, 0);
    d.reset_prompt();
    assert_eq!(d.parse("run debug"), DebugReply::RunArgCount);
    assert_eq!(d.parse("run fast cpu"), DebugReply::InvalidRunParam);
    assert_eq!(d.parse("run debug foo"), DebugReply::InvalidRunDebugParam(2));
    assert_eq!(d.run_debug, 0);
    assert_eq!(d.parse("run debug cpu human"), DebugReply::Nothing);
    assert_eq!(d.run_debug, 3);
    assert!(d.should_run_cpu);
    let mut e = Debugger::new();
    assert_eq!(e.parse("run debug human foo"), DebugReply::InvalidRunDebugParam(3));
    assert_eq!(e.run_debug, 2);
    assert_eq!(e.run(0x100), DebugAction::Trace(false, true));
}

#[test]
fn debugger_breakpoint_stops_once() {
    let mut d = Debugger::new();
    d.parse("break 0x0150");
    assert_eq!(d.run(0x0100), DebugAction::Continue(false));
    assert_eq!(d.run(0x0152), DebugAction::Prompt(true));
    assert_eq!(d.break_addr, None);
    assert_eq!(d.run(0x0153), DebugAction::Prompt(false));
}

#[test]
fn sweep_and_envelope_registers() {
    let mut mem = Memory::new();
    mem.write_byte(0xFF10, 0b0101_1011);
    mem.write_byte(0xFF12, 0xA3);
    let s = Sweep::new(0xFF10, &mem);
    assert_eq!(s, Sweep { shift_number: 3, func: SweepFunc::Subtraction, sweep_time: 5 });
    let e = Envelope::new(0xFF12, &mem);
    assert_eq!(e, Envelope { step_length: 3, func: EnvelopeFunc::Attenuate, default_value: 10 });
    assert_eq!(envelope_volume(e), Some(9));
    let up = Envelope { step_length: 1, func: EnvelopeFunc::Amplify, default_value: 14 };
    assert_eq!(envelope_volume(up), None);
    let add = Sweep { shift_number: 1, func: SweepFunc::Addition, sweep_time: 1 };
    assert_eq!(sweep_frequency(0x400, add), Some(0x600));
    assert_eq!(sweep_frequency(0x700, add), None);
    assert_eq!(sweep_frequency(0x400, s), Some(0x380));
}

#[test]
fn pulse_registers_and_timings() {
    let mut mem = Memory::new();
    mem.write_byte(0xFF11, 0b1000_0101);
    mem.write_byte(0xFF13, 0x34);
    mem.write_byte(0xFF14, 0b1100_0110);
    let r = read_pulse_a(&mem);
    assert_eq!(r.sound_length, 5);
    assert_eq!(r.duty, 2);
    assert_eq!(r.frequency, 0x634);
    assert!(!r.sound_loop);
    assert!(r.trigger);
    assert_eq!(sound_length_ms(0), 250);
    assert_eq!(sound_length_ms(63), 3);
    assert_eq!(sweep_time_ms(7), 54);
    assert_eq!(envelope_step_ms(3), 46);
}

#[test]
fn voice_flags() {
    let mut mem = Memory::new();
    assert_eq!(VoiceType::PulseA.global_mask(), 1);
    assert_eq!(VoiceType::WhiteNoise.global_mask(), 8);
    GlobalReg::set_voice_flag(VoiceType::Wave, &mut mem);
    assert_eq!(mem.read_byte(0xFF26), 0x04);
    GlobalReg::set_voice_flag(VoiceType::PulseA, &mut mem);
    GlobalReg::reset_voice_flag(VoiceType::Wave, &mut mem);
    assert_eq!(mem.read_byte(0xFF26), 0x01);
    mem.write_byte(0xFF25, 0x21);
    assert!(GlobalReg::should_output(VoiceType::PulseA, ChannelNum::ChannelA, &mem));
    assert!(!GlobalReg::should_output(VoiceType::PulseA, ChannelNum::ChannelB, &mem));
    assert!(GlobalReg::should_output(VoiceType::PulseB, ChannelNum::ChannelB, &mem));
}

#[test]
fn pulse_voice_updates() {
    let mut mem = Memory::new();
    assert_eq!(run_pulse_a(&mut mem, 0, false), PulseStep::Stop);
    mem.write_byte(0xFF14, 0x84);
    mem.write_byte(0xFF13, 0x00);
    mem.write_byte(0xFF12, 0x52);
    mem.write_byte(0xFF10, 0x11);
    assert_eq!(
        run_pulse_a(&mut mem, 0, false),
        PulseStep::Play { frequency: None, volume: None, start: true }
    );
    assert_eq!(mem.read_byte(0xFF26) & 0x01, 0x01);
    assert_eq!(
        run_pulse_a(&mut mem, 40, true),
        PulseStep::Play { frequency: Some(0x600), volume: Some(4), start: false }
    );
    assert_eq!(mem.read_byte(0xFF13), 0x00);
    assert_eq!(mem.read_byte(0xFF14) & 0x07, 0x06);
    assert_eq!(mem.read_byte(0xFF12) >> 4, 4);
    assert_eq!(run_pulse_a(&mut mem, 40, true), PulseStep::Stop);
    assert_eq!(mem.read_byte(0xFF26) & 0x01, 0x00);
    assert_eq!(mem.read_byte(0xFF14) & 0x80, 0x00);
    mem.write_byte(0xFF14, 0xC4);
    mem.write_byte(0xFF11, 0x3F);
    mem.write_byte(0xFF10, 0x00);
    assert_eq!(run_pulse_a(&mut mem, 3, true), PulseStep::Stop);
}
