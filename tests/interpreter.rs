use gebemula::cpu::Cpu;
use gebemula::gebemula::Gebemula;
use gebemula::mem::Memory;
use gebemula::timeline::EventKind;

fn machine(program: &[u8]) -> (Cpu, Memory) {
    let mut rom = vec![0u8; 0x8000];
    rom[..program.len()].copy_from_slice(program);
    let mut mem = Memory::new();
    mem.load_game_rom(&rom).unwrap();
    (Cpu::new(), mem)
}

#[test]
fn daa_program() {
    let (mut cpu, mut mem) = machine(&[0x3E, 0x45, 0xC6, 0x38, 0x27]);
    assert_eq!(cpu.step(&mut mem), 8);
    assert_eq!(cpu.step(&mut mem), 8);
    assert_eq!(cpu.a, 0x7D);
    assert_eq!(cpu.step(&mut mem), 4);
    assert_eq!(cpu.a, 0x83);
    assert_eq!(cpu.f, 0x00);
    assert_eq!(cpu.pc, 5);
}

#[test]
fn inc_program_keeps_carry() {
    let (mut cpu, mut mem) = machine(&[0x37, 0x3E, 0x0F, 0x3C]);
    cpu.step(&mut mem);
    cpu.step(&mut mem);
    assert_eq!(cpu.step(&mut mem), 4);
    assert_eq!(cpu.a, 0x10);
    assert_eq!(cpu.f, 0x30);
}

#[test]
fn calls_jumps_stack_and_bits() {
    let mut program = vec![0u8; 0x21];
    let code: [(usize, &[u8]); 13] = [
        (0x00, &[0x31, 0xFE, 0xFF]),
        (0x03, &[0x01, 0x34, 0x12]),
        (0x06, &[0xCD, 0x20, 0x00]),
        (0x09, &[0x20, 0x02]),
        (0x0D, &[0xAF]),
        (0x0E, &[0x20, 0x05]),
        (0x10, &[0xC5]),
        (0x11, &[0xD1]),
        (0x12, &[0xCB, 0x7C]),
        (0x14, &[0x21, 0x00, 0xC0]),
        (0x17, &[0x36, 0x80]),
        (0x19, &[0xCB, 0x7E]),
        (0x20, &[0xC9]),
    ];
    for (at, bytes) in code.iter() {
        program[*at..*at + bytes.len()].copy_from_slice(bytes);
    }
    let (mut cpu, mut mem) = machine(&program);
    let expected: [(u32, u16); 14] = [
        (12, 0x03),
        (12, 0x06),
        (24, 0x20),
        (16, 0x09),
        (12, 0x0D),
        (4, 0x0E),
        (8, 0x10),
        (16, 0x11),
        (12, 0x12),
        (8, 0x14),
        (12, 0x17),
        (12, 0x19),
        (12, 0x1B),
        (4, 0x1C),
    ];
    for (i, (cycles, pc)) in expected.iter().enumerate() {
        assert_eq!(cpu.step(&mut mem), *cycles, "instruction {}", i);
        assert_eq!(cpu.pc, *pc, "instruction {}", i);
        if i == 8 {
            assert_eq!(cpu.de(), 0x1234);
            assert_eq!(cpu.sp, 0xFFFE);
        }
        if i == 9 {
            assert_eq!(cpu.f & 0x80, 0x80);
        }
    }
    assert_eq!(cpu.f & 0x80, 0x00);
    assert_eq!(mem.read_byte(0xC000), 0x80);
}

#[test]
fn halt_waits_for_interrupt() {
    let (mut cpu, mut mem) = machine(&[0x76, 0x00]);
    assert_eq!(cpu.step(&mut mem), 4);
    assert!(cpu.halted);
    assert_eq!(cpu.step(&mut mem), 4);
    assert_eq!(cpu.pc, 1);
    mem.write_byte(0xFFFF, 0x04);
    mem.write_byte(0xFF0F, 0x04);
    assert_eq!(cpu.handle_interrupts(&mut mem), 0);
    assert!(!cpu.halted);
    assert_eq!(cpu.step(&mut mem), 4);
    assert_eq!(cpu.pc, 2);
}

#[test]
fn halt_bug_repeats_next_byte() {
    let (mut cpu, mut mem) = machine(&[0x76, 0x3C, 0x00]);
    mem.write_byte(0xFFFF, 0x01);
    mem.write_byte(0xFF0F, 0x01);
    cpu.step(&mut mem);
    assert!(!cpu.halted);
    assert!(cpu.halt_bug);
    cpu.step(&mut mem);
    assert_eq!(cpu.a, 1);
    assert_eq!(cpu.pc, 1);
    cpu.step(&mut mem);
    assert_eq!(cpu.a, 2);
    assert_eq!(cpu.pc, 2);
}

#[test]
fn illegal_opcode_locks_cpu() {
    let (mut cpu, mut mem) = machine(&[0xD3, 0x00]);
    assert_eq!(cpu.step(&mut mem), 4);
    assert!(cpu.locked);
    assert_eq!(cpu.step(&mut mem), 4);
    assert_eq!(cpu.pc, 1);
}

#[test]
fn ei_after_next_instruction() {
    let (mut cpu, mut mem) = machine(&[0xFB, 0x00, 0xF3]);
    cpu.step(&mut mem);
    assert!(!cpu.ime);
    cpu.step(&mut mem);
    assert!(cpu.ime);
    cpu.step(&mut mem);
    assert!(!cpu.ime);
}

#[test]
fn rotates_and_swap() {
    let (mut cpu, mut mem) = machine(&[0x3E, 0x81, 0x07, 0xCB, 0x37, 0x1F]);
    cpu.step(&mut mem);
    cpu.step(&mut mem);
    assert_eq!((cpu.a, cpu.f), (0x03, 0x10));
    assert_eq!(cpu.step(&mut mem), 8);
    assert_eq!((cpu.a, cpu.f), (0x30, 0x00));
    cpu.step(&mut mem);
    assert_eq!((cpu.a, cpu.f), (0x18, 0x00));
}

#[test]
fn emulator_step_runs_one_mode() {
    let mut rom = vec![0u8; 0x8000];
    rom[0x100] = 0x18;
    rom[0x101] = 0xFE;
    let mut gb = Gebemula::new();
    gb.load_game_rom(&rom).unwrap();
    gb.cpu = Cpu::post_boot();
    let spent = gb.step();
    assert!(spent >= 80);
    assert_eq!(gb.timeline.curr_event_type, EventKind::Draw);
    assert_eq!(gb.cpu.pc, 0x100);
}

#[test]
fn restart_and_absolute_jump() {
    let mut program = vec![0u8; 0x40];
    program[0x00] = 0x31;
    program[0x01] = 0x00;
    program[0x02] = 0xD0;
    program[0x03] = 0xEF;
    program[0x28] = 0xC3;
    program[0x29] = 0x34;
    program[0x2A] = 0x12;
    let (mut cpu, mut mem) = machine(&program);
    cpu.step(&mut mem);
    assert_eq!(cpu.step(&mut mem), 16);
    assert_eq!(cpu.pc, 0x28);
    assert_eq!(cpu.sp, 0xCFFE);
    assert_eq!(mem.read_byte(0xCFFE), 0x04);
    assert_eq!(mem.read_byte(0xCFFF), 0x00);
    assert_eq!(cpu.step(&mut mem), 16);
    assert_eq!(cpu.pc, 0x1234);
}
