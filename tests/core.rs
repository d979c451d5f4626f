use gebemula::cpu::{base_cycles, cb_cycles, is_illegal, Cpu};
use gebemula::gebemula::Gebemula;
use gebemula::mem::{CartridgeType, MemError, Memory};
use gebemula::timeline::EventKind;
use gebemula::timer::Timer;
use gebemula::util::{
    has_borrow, has_carry, has_carry16, has_half_carry, has_half_carry16, is_bit_one, is_neg16,
    sign_extend, twos_complement,
};

fn cartridge(size: usize, kind: u8) -> Vec<u8> {
    let mut rom = vec![0u8; size];
    rom[0x147] = kind;
    rom
}

#[test]
fn carries_and_signs() {
    assert!(has_carry(0xF0, 0x10));
    assert!(!has_carry(0xEF, 0x10));
    assert!(has_half_carry(0x0F, 0x01));
    assert!(!has_half_carry(0x0E, 0x01));
    assert!(has_carry16(0xFFFF, 0x0001));
    assert!(has_half_carry16(0x0FFF, 0x0001));
    assert!(!has_half_carry16(0x0FFE, 0x0001));
    assert!(has_borrow(0x10, 0x01));
    assert!(!has_borrow(0x1F, 0x01));
    assert!(is_neg16(0x8000));
    assert!(!is_neg16(0x7FFF));
    assert_eq!(twos_complement(0xFFFF), 1);
    assert_eq!(twos_complement(0x8000), 0x8000);
    assert_eq!(twos_complement(0x0005), 5);
    assert_eq!(sign_extend(0x80), 0xFF80);
    assert_eq!(sign_extend(0x7F), 0x007F);
    assert!(is_bit_one(0b1000, 3));
    assert!(!is_bit_one(0b1000, 2));
}

#[test]
fn wram_read_after_write() {
    let mut mem = Memory::new();
    mem.write_byte(0xC123, 0x5A);
    assert_eq!(mem.read_byte(0xC123), 0x5A);
    mem.write_byte(0xFF80, 0x11);
    assert_eq!(mem.read_byte(0xFF80), 0x11);
    mem.write_byte(0xFFFF, 0x1F);
    assert_eq!(mem.read_byte(0xFFFF), 0x1F);
}

#[test]
fn echo_ram_mirrors_both_ways() {
    let mut mem = Memory::new();
    for k in [0u16, 0x0FFF, 0x1000, 0x1DFF] {
        mem.write_byte(0xC000 + k, (k & 0xFF) as u8 ^ 0x3C);
        assert_eq!(mem.read_byte(0xE000 + k), (k & 0xFF) as u8 ^ 0x3C);
        mem.write_byte(0xE000 + k, 0x77);
        assert_eq!(mem.read_byte(0xC000 + k), 0x77);
    }
}

#[test]
fn unusable_area_reads_ff() {
    let mut mem = Memory::new();
    mem.write_byte(0xFEA0, 0x12);
    assert_eq!(mem.read_byte(0xFEA0), 0xFF);
}

#[test]
fn vram_and_oam_gating() {
    let mut mem = Memory::new();
    mem.write_byte(0x8000, 0x42);
    mem.set_access_vram(false);
    assert_eq!(mem.read_byte(0x8000), 0xFF);
    mem.write_byte(0x8000, 0x99);
    mem.set_access_vram(true);
    assert_eq!(mem.read_byte(0x8000), 0x42);
    mem.set_access_oam(false);
    mem.write_byte(0xFE00, 0x13);
    assert_eq!(mem.read_byte(0xFE00), 0xFF);
    mem.set_access_oam(true);
    assert_eq!(mem.read_byte(0xFE00), 0x00);
}

#[test]
fn rom_writes_do_not_store() {
    let mut rom = cartridge(0x8000, 0x00);
    rom[0x0100] = 0xC3;
    let mut mem = Memory::new();
    assert_eq!(mem.load_game_rom(&rom), Ok(()));
    mem.write_byte(0x0100, 0x00);
    assert_eq!(mem.read_byte(0x0100), 0xC3);
}

#[test]
fn mbc1_bank_switch_512k() {
    let mut rom = cartridge(0x80000, 0x01);
    rom[0x0C000] = 0xAB;
    rom[0x0C001] = 0xCD;
    rom[0x04000] = 0x11;
    let mut mem = Memory::new();
    assert_eq!(mem.load_game_rom(&rom), Ok(()));
    assert_eq!(mem.read_byte(0x4000), 0x11);
    mem.write_byte(0x2000, 0x03);
    assert_eq!(mem.read_byte(0x4000), 0xAB);
    assert_eq!(mem.read_byte(0x4001), 0xCD);
}

#[test]
fn mbc1_bank_zero_selects_one() {
    let mut rom = cartridge(0x200000, 0x01);
    rom[0x4000] = 0x01;
    rom[0x21 * 0x4000] = 0x21;
    let mut mem = Memory::new();
    assert_eq!(mem.load_game_rom(&rom), Ok(()));
    mem.write_byte(0x2000, 0x00);
    assert_eq!(mem.read_byte(0x4000), 0x01);
    mem.write_byte(0x4000, 0x01);
    mem.write_byte(0x2000, 0x20);
    assert_eq!(mem.read_byte(0x4000), 0x21);
}

#[test]
fn mbc1_external_ram_needs_enable() {
    let rom = cartridge(0x8000, 0x03);
    let mut mem = Memory::new();
    assert_eq!(mem.load_game_rom(&rom), Ok(()));
    mem.write_byte(0xA000, 0x55);
    assert_eq!(mem.read_byte(0xA000), 0xFF);
    mem.write_byte(0x0000, 0x0A);
    mem.write_byte(0xA000, 0x55);
    assert_eq!(mem.read_byte(0xA000), 0x55);
    assert_eq!(mem.external_ram()[0], 0x55);
}

#[test]
fn mbc5_nine_bit_bank() {
    let mut rom = cartridge(0x800000, 0x19);
    rom[0x100 * 0x4000 + 5] = 0xEE;
    let mut mem = Memory::new();
    assert_eq!(mem.load_game_rom(&rom), Ok(()));
    mem.write_byte(0x2000, 0x00);
    mem.write_byte(0x3000, 0x01);
    assert_eq!(mem.read_byte(0x4005), 0xEE);
}

#[test]
fn load_errors() {
    let mut mem = Memory::new();
    assert_eq!(mem.load_game_rom(&[]), Err(MemError::InvalidRomSize(0)));
    assert_eq!(mem.load_game_rom(&vec![0u8; 0x4001]), Err(MemError::InvalidRomSize(0x4001)));
    assert_eq!(
        mem.load_game_rom(&cartridge(0x8000, 0xFC)),
        Err(MemError::UnsupportedCartridge(0xFC))
    );
    assert_eq!(
        mem.load_game_rom(&cartridge(0x10000, 0x00)),
        Err(MemError::InvalidRomSize(0x10000))
    );
    assert_eq!(mem.load_game_rom(&cartridge(0x10000, 0x05)), Ok(()));
    let _ = CartridgeType::Mbc2;
}

#[test]
fn bootstrap_overlay() {
    let mut rom = cartridge(0x8000, 0x00);
    rom[0x0000] = 0x31;
    rom[0x0150] = 0x77;
    let mut mem = Memory::new();
    assert_eq!(mem.load_game_rom(&rom), Ok(()));
    mem.load_bootstrap_rom(&vec![0xAAu8; 0x100]);
    assert_eq!(mem.read_byte(0x0000), 0xAA);
    assert_eq!(mem.read_byte(0x0150), 0x77);
    mem.disable_bootstrap();
    assert_eq!(mem.read_byte(0x0000), 0x31);
}

#[test]
fn dma_copies_into_oam() {
    let mut mem = Memory::new();
    for i in 0..0xA0u16 {
        mem.write_byte(0xC100 + i, i as u8);
    }
    mem.write_byte(0xFF46, 0xC1);
    let e = mem.take_pending_event().unwrap();
    assert_eq!(e.kind, EventKind::DmaTransfer);
    assert_eq!(e.extra, 0xC1);
    mem.dma_transfer(e.extra);
    assert_eq!(mem.read_byte(0xFE00), 0x00);
    assert_eq!(mem.read_byte(0xFE9F), 0x9F);
}

#[test]
fn memory_format_dump() {
    let mut mem = Memory::new();
    mem.write_byte(0xC000, 0x12);
    mem.write_byte(0xC001, 0x34);
    mem.write_byte(0xC002, 0xAB);
    mem.write_byte(0xC003, 0x0F);
    assert_eq!(mem.format(Some(0xC000), Some(0xC004)), "\n0000c000: 1234 ab0f ");
    assert_eq!(mem.format(Some(0xC001), Some(0xC003)), "34ab ");
}

#[test]
fn cgb_palette_auto_increment() {
    let mut mem = Memory::new();
    mem.write_byte(0xFF68, 0x80);
    mem.write_byte(0xFF69, 0x1F);
    mem.write_byte(0xFF69, 0x00);
    assert_eq!(mem.read_bg_palette(0), 0x1F);
    assert_eq!(mem.read_bg_palette(1), 0x00);
    assert_eq!(mem.read_byte(0xFF68), 0x82);
}

#[test]
fn div_write_resets() {
    let mut mem = Memory::new();
    let mut timer = Timer::new();
    timer.update(1024, &mut mem);
    assert_eq!(mem.read_byte(0xFF04), 4);
    mem.write_byte(0xFF04, 0x99);
    assert_eq!(mem.read_byte(0xFF04), 0);
    timer.update(0, &mut mem);
    assert_eq!(timer.counter, 0);
    assert_eq!(mem.read_byte(0xFF04), 0);
}

#[test]
fn tima_overflow_interrupt_four_cycles_later() {
    let mut mem = Memory::new();
    let mut timer = Timer::new();
    mem.write_byte(0xFF07, 0x05);
    mem.write_byte(0xFF05, 0xFF);
    mem.write_byte(0xFF06, 0x42);
    timer.update(16, &mut mem);
    assert_eq!(mem.read_byte(0xFF05), 0x00);
    assert_eq!(mem.read_byte(0xFF0F) & 0x04, 0);
    timer.update(4, &mut mem);
    assert_eq!(mem.read_byte(0xFF05), 0x42);
    assert_eq!(mem.read_byte(0xFF0F) & 0x04, 0x04);
}

#[test]
fn daa_after_addition() {
    let mut cpu = Cpu::new();
    cpu.a = 0x45;
    cpu.add(0x38, false);
    assert_eq!(cpu.a, 0x7D);
    cpu.daa();
    assert_eq!(cpu.a, 0x83);
    assert_eq!(cpu.f, 0x00);
}

#[test]
fn daa_after_subtraction() {
    let mut cpu = Cpu::new();
    cpu.a = 0x42;
    cpu.sub(0x15, false);
    assert_eq!(cpu.a, 0x2D);
    cpu.daa();
    assert_eq!(cpu.a, 0x27);
    assert_eq!(cpu.f & 0x40, 0x40);
}

#[test]
fn inc_half_carry_keeps_carry() {
    let mut cpu = Cpu::new();
    cpu.a = 0x0F;
    cpu.f = 0x10;
    cpu.inc_a();
    assert_eq!(cpu.a, 0x10);
    assert_eq!(cpu.f, 0x30);
    cpu.f = 0x00;
    cpu.a = 0x0F;
    cpu.inc_a();
    assert_eq!(cpu.f, 0x20);
}

#[test]
fn alu_flags() {
    let mut cpu = Cpu::new();
    cpu.a = 0xFF;
    cpu.add(0x01, false);
    assert_eq!((cpu.a, cpu.f), (0x00, 0xB0));
    cpu.a = 0x00;
    cpu.f = 0x10;
    cpu.sub(0x00, true);
    assert_eq!((cpu.a, cpu.f), (0xFF, 0x70));
    cpu.a = 0x3C;
    cpu.cp(0x3C);
    assert_eq!((cpu.a, cpu.f), (0x3C, 0xC0));
    cpu.and(0x0F);
    assert_eq!((cpu.a, cpu.f), (0x0C, 0x20));
    cpu.xor(0x0C);
    assert_eq!((cpu.a, cpu.f), (0x00, 0x80));
    cpu.or(0x50);
    assert_eq!((cpu.a, cpu.f), (0x50, 0x00));
    cpu.a = 0x01;
    cpu.dec_a();
    assert_eq!((cpu.a, cpu.f), (0x00, 0xC0));
    cpu.set_hl(0x0FFF);
    cpu.f = 0x80;
    cpu.add_hl(0x0001);
    assert_eq!((cpu.hl(), cpu.f), (0x1000, 0xA0));
}

#[test]
fn post_boot_registers() {
    let cpu = Cpu::post_boot();
    assert_eq!(cpu.a, 0x01);
    assert_eq!(cpu.f, 0xB0);
    assert_eq!(cpu.bc(), 0x0013);
    assert_eq!(cpu.de(), 0x00D8);
    assert_eq!(cpu.hl(), 0x014D);
    assert_eq!(cpu.sp, 0xFFFE);
    assert_eq!(cpu.pc, 0x0100);
}

#[test]
fn interrupt_dispatch() {
    let mut mem = Memory::new();
    let mut cpu = Cpu::new();
    cpu.ime = true;
    cpu.pc = 0x1234;
    cpu.sp = 0xFFFE;
    mem.write_byte(0xFFFF, 0x01);
    mem.write_byte(0xFF0F, 0x01);
    let cycles = cpu.handle_interrupts(&mut mem);
    assert_eq!(cycles, 20);
    assert_eq!(cpu.sp, 0xFFFC);
    assert_eq!(mem.read_byte(0xFFFC), 0x34);
    assert_eq!(mem.read_byte(0xFFFD), 0x12);
    assert_eq!(cpu.pc, 0x0040);
    assert_eq!(mem.read_byte(0xFF0F), 0x00);
    assert!(!cpu.ime);
}

#[test]
fn interrupt_priority_and_halt() {
    let mut mem = Memory::new();
    let mut cpu = Cpu::new();
    cpu.sp = 0xD000;
    cpu.halted = true;
    mem.write_byte(0xFFFF, 0x1F);
    mem.write_byte(0xFF0F, 0x14);
    assert_eq!(cpu.handle_interrupts(&mut mem), 0);
    assert!(!cpu.halted);
    cpu.ime = true;
    assert_eq!(cpu.handle_interrupts(&mut mem), 20);
    assert_eq!(cpu.pc, 0x0050);
    assert_eq!(mem.read_byte(0xFF0F), 0x10);
}

#[test]
fn ei_takes_effect_after_next_instruction() {
    let mut cpu = Cpu::new();
    cpu.ei();
    assert!(!cpu.ime);
    cpu.instruction_completed();
    assert!(cpu.ime);
    cpu.di();
    assert!(!cpu.ime);
}

#[test]
fn one_frame_of_dots() {
    let mut gb = Gebemula::new();
    let mut vblank_requests = 0;
    let mut hblanks = 0;
    let mut spent: u32 = 0;
    let mut last_mode = gb.timeline.curr_event_type;
    while spent < 70224 {
        let before = gb.mem.read_byte(0xFF0F) & 0x01;
        spent += gb.step_instruction(4);
        if before == 0 && gb.mem.read_byte(0xFF0F) & 0x01 == 0x01 {
            vblank_requests += 1;
            let flags = gb.mem.read_byte(0xFF0F);
            gb.mem.write_byte(0xFF0F, flags & !0x01);
        }
        let mode = gb.timeline.curr_event_type;
        if mode != last_mode && mode == EventKind::HBlank {
            hblanks += 1;
        }
        last_mode = mode;
    }
    assert_eq!(spent, 70224);
    assert_eq!(gb.mem.read_byte(0xFF44), 0);
    assert_eq!(gb.timeline.curr_event_type, EventKind::OamScan);
    assert_eq!(vblank_requests, 1);
    assert_eq!(hblanks, 144);
    assert!(gb.should_display_screen);
}

#[test]
fn stat_mode_follows_ppu() {
    let mut gb = Gebemula::new();
    gb.advance_ppu(80);
    assert_eq!(gb.mem.read_byte(0xFF41) & 0x03, 3);
    assert_eq!(gb.mem.read_byte(0x8000), 0xFF);
    gb.advance_ppu(172);
    assert_eq!(gb.mem.read_byte(0xFF41) & 0x03, 0);
    gb.advance_ppu(204);
    assert_eq!(gb.mem.read_byte(0xFF41) & 0x03, 2);
    assert_eq!(gb.mem.read_byte(0xFF44), 1);
}

#[test]
fn lyc_coincidence_raises_stat() {
    let mut gb = Gebemula::new();
    gb.mem.write_byte(0xFF45, 1);
    gb.mem.write_byte(0xFF41, 0x40);
    gb.advance_ppu(456);
    assert_eq!(gb.mem.read_byte(0xFF41) & 0x04, 0x04);
    assert_eq!(gb.mem.read_byte(0xFF0F) & 0x02, 0x02);
}

#[test]
fn joypad_press_requests_interrupt() {
    let mut gb = Gebemula::new();
    gb.mem.write_byte(0xFF00, 0x10);
    let _ = gb.mem.take_pending_event();
    assert!(gb.set_keys(0x01));
    assert_eq!(gb.mem.read_byte(0xFF0F) & 0x10, 0x10);
    assert_eq!(gb.mem.read_byte(0xFF00) & 0x0F, 0x0E);
    assert!(!gb.set_keys(0x01));
    assert!(!gb.set_keys(0x10));
    assert_eq!(gb.mem.read_byte(0xFF00) & 0x0F, 0x0F);
    assert!(gb.adjust_joypad(2, true));
    assert_eq!(gb.joypad, 0xEB);
}

#[test]
fn bootstrap_event_unmaps_boot_rom() {
    let mut gb = Gebemula::new();
    let mut rom = cartridge(0x8000, 0x00);
    rom[0] = 0x31;
    assert_eq!(gb.load_game_rom(&rom), Ok(()));
    gb.load_bootstrap_rom(&vec![0xAAu8; 0x100]);
    assert_eq!(gb.mem.read_byte(0x0000), 0xAA);
    gb.mem.write_byte(0xFF50, 0x01);
    gb.step_instruction(4);
    assert_eq!(gb.mem.read_byte(0x0000), 0x31);
}

#[test]
fn restart_keeps_cartridge() {
    let mut gb = Gebemula::new();
    let mut rom = cartridge(0x8000, 0x00);
    rom[0x0134] = 0x47;
    assert_eq!(gb.load_game_rom(&rom), Ok(()));
    gb.mem.write_byte(0xC000, 0x12);
    gb.restart();
    assert_eq!(gb.mem.read_byte(0x0134), 0x47);
    assert_eq!(gb.mem.read_byte(0xC000), 0x00);
    assert_eq!(gb.mem.read_byte(0xFF41) & 0x03, 2);
    assert_eq!(gb.mem.read_byte(0xFE00), 0xFF);
}

#[test]
fn instruction_cycle_table() {
    assert_eq!(base_cycles(0x00, false), 4);
    assert_eq!(base_cycles(0x01, false), 12);
    assert_eq!(base_cycles(0x08, false), 20);
    assert_eq!(base_cycles(0x18, false), 12);
    assert_eq!(base_cycles(0x20, false), 8);
    assert_eq!(base_cycles(0x20, true), 12);
    assert_eq!(base_cycles(0x34, false), 12);
    assert_eq!(base_cycles(0x36, false), 12);
    assert_eq!(base_cycles(0x46, false), 8);
    assert_eq!(base_cycles(0x70, false), 8);
    assert_eq!(base_cycles(0x76, false), 4);
    assert_eq!(base_cycles(0x86, false), 8);
    assert_eq!(base_cycles(0xC0, false), 8);
    assert_eq!(base_cycles(0xC0, true), 20);
    assert_eq!(base_cycles(0xC2, true), 16);
    assert_eq!(base_cycles(0xC3, false), 16);
    assert_eq!(base_cycles(0xC4, false), 12);
    assert_eq!(base_cycles(0xC4, true), 24);
    assert_eq!(base_cycles(0xC5, false), 16);
    assert_eq!(base_cycles(0xC9, false), 16);
    assert_eq!(base_cycles(0xCD, false), 24);
    assert_eq!(base_cycles(0xE0, false), 12);
    assert_eq!(base_cycles(0xE8, false), 16);
    assert_eq!(base_cycles(0xE9, false), 4);
    assert_eq!(base_cycles(0xEA, false), 16);
    assert_eq!(base_cycles(0xF8, false), 12);
    assert_eq!(base_cycles(0xF9, false), 8);
    assert_eq!(base_cycles(0xFF, false), 16);
    assert_eq!(cb_cycles(0x00), 8);
    assert_eq!(cb_cycles(0x06), 16);
    assert_eq!(cb_cycles(0x46), 12);
    assert_eq!(cb_cycles(0xC6), 16);
    assert!(is_illegal(0xD3));
    assert!(!is_illegal(0xD9));
    for op in 0..=255u8 {
        for taken in [false, true] {
            assert!([4, 8, 12, 16, 20, 24].contains(&base_cycles(op, taken)));
        }
        assert!([8, 12, 16].contains(&cb_cycles(op)));
    }
}

#[test]
fn battery_round_trip() {
    let mut mem = Memory::new();
    mem.load_battery(&[1, 2, 3]);
    let ram = mem.external_ram();
    assert_eq!(&ram[..4], &[1, 2, 3, 0]);
    assert_eq!(ram.len(), 0x20000);
    assert_eq!(mem.read_byte(0xA001), 2);
}

#[test]
fn mbc2_nibble_ram_and_bank_bit8() {
    let mut rom = cartridge(0x40000, 0x05);
    rom[0x3 * 0x4000] = 0x33;
    let mut mem = Memory::new();
    assert_eq!(mem.load_game_rom(&rom), Ok(()));
    mem.write_byte(0x2100, 0x03);
    assert_eq!(mem.read_byte(0x4000), 0x33);
    mem.write_byte(0x0000, 0x0A);
    mem.write_byte(0xA000, 0xAB);
    assert_eq!(mem.read_byte(0xA000), 0xFB);
    assert_eq!(mem.read_byte(0xA200), 0xFB);
}

#[test]
fn mbc3_clock_registers() {
    let rom = cartridge(0x8000, 0x10);
    let mut mem = Memory::new();
    assert_eq!(mem.load_game_rom(&rom), Ok(()));
    mem.write_byte(0x0000, 0x0A);
    mem.write_byte(0x4000, 0x08);
    mem.write_byte(0xA000, 0x3B);
    assert_eq!(mem.read_byte(0xA000), 0x3B);
    mem.write_byte(0x4000, 0x00);
    assert_eq!(mem.read_byte(0xA000), 0x00);
    mem.write_byte(0x4000, 0x0D);
    assert_eq!(mem.read_byte(0xA000), 0xFF);
}

#[test]
fn ly_is_read_only() {
    let mut gb = Gebemula::new();
    gb.advance_ppu(456);
    assert_eq!(gb.mem.read_byte(0xFF44), 1);
    gb.mem.write_byte(0xFF44, 200);
    assert_eq!(gb.mem.read_byte(0xFF44), 1);
}

#[test]
fn joypad_group_selection() {
    let mut gb = Gebemula::new();
    gb.mem.write_byte(0xFF00, 0x30);
    let _ = gb.mem.take_pending_event();
    assert!(!gb.set_keys(0x10));
    assert_eq!(gb.mem.read_byte(0xFF00) & 0x0F, 0x0F);
    assert_eq!(gb.mem.read_byte(0xFF0F) & 0x10, 0);
    gb.set_keys(0x00);
    gb.mem.write_byte(0xFF00, 0x00);
    let _ = gb.mem.take_pending_event();
    assert!(gb.set_keys(0x10));
    assert_eq!(gb.mem.read_byte(0xFF00) & 0x0F, 0x0E);
    assert!(!gb.set_keys(0x11));
    assert_eq!(gb.mem.read_byte(0xFF00) & 0x0F, 0x0E);
    gb.mem.write_byte(0xFF00, 0x20);
    let _ = gb.mem.take_pending_event();
    assert!(gb.set_keys(0x80));
    assert_eq!(gb.mem.read_byte(0xFF00) & 0x0F, 0x07);
}

#[test]
fn cgb_boot_rom_covers_header_area() {
    let mut rom = cartridge(0x8000, 0x00);
    rom[0x0150] = 0x77;
    let mut mem = Memory::new();
    assert_eq!(mem.load_game_rom(&rom), Ok(()));
    let mut boot = vec![0x11u8; 0x800];
    boot[0x150] = 0x22;
    mem.load_bootstrap_rom(&boot);
    assert_eq!(mem.read_byte(0x0150), 0x22);
    assert_eq!(mem.read_byte(0x0800), 0x00);
    mem.disable_bootstrap();
    assert_eq!(mem.read_byte(0x0150), 0x77);
}

#[test]
fn load_error_keeps_emulator_cartridge() {
    let mut gb = Gebemula::new();
    assert_eq!(gb.load_game_rom(&cartridge(0x8000, 0x00)), Ok(()));
    assert_eq!(
        gb.load_game_rom(&cartridge(0x8000, 0xFC)),
        Err(MemError::UnsupportedCartridge(0xFC))
    );
    assert_eq!(gb.game_rom.len(), 0x8000);
    assert_eq!(gb.load_game_rom(&[]), Err(MemError::InvalidRomSize(0)));
}

#[test]
fn step_ends_the_current_mode() {
    let mut gb = Gebemula::new();
    gb.cpu = Cpu::post_boot();
    let mut rom = cartridge(0x8000, 0x00);
    rom[0x100] = 0x18;
    rom[0x101] = 0xFE;
    assert_eq!(gb.load_game_rom(&rom), Ok(()));
    let spent = gb.step();
    assert!(spent >= 80 && spent < 80 + 684);
    assert_eq!(gb.timeline.curr_event_type, EventKind::Draw);
    let mut total = spent;
    while !(gb.timeline.curr_event_type == EventKind::OamScan && gb.timeline.line == 0) {
        total += gb.step();
    }
    assert_eq!(gb.mem.read_byte(0xFF44), 0);
    assert!(total >= 70224);
}
