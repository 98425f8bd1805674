use chip8::instruction::Instruction;
use chip8::state::{Fault, CPU, FONTSET};

fn machine_with(program: &[u8]) -> CPU {
    let mut cpu = CPU::init();
    cpu.load_program(program).unwrap();
    cpu
}

#[test]
fn init_places_font_and_program_counter() {
    let cpu = CPU::init();
    assert_eq!(&cpu.memory[0..80], &FONTSET[..]);
    assert_eq!(cpu.program_counter, 0x200);
    assert_eq!(cpu.stack_pointer, 0);
    assert_eq!(cpu.index_register, 0);
    assert_eq!(cpu.delay_timer, 0);
    assert_eq!(cpu.sound_timer, 0);
    assert!(cpu.memory[80..].iter().all(|b| *b == 0));
    assert!(cpu.register.iter().all(|b| *b == 0));
    assert!(cpu.display_snapshot().iter().all(|p| *p == 0));
}

#[test]
fn load_add_program_runs_three_cycles() {
    let mut cpu = machine_with(&[0x60, 0x0A, 0x61, 0x0B, 0x80, 0x14]);
    for _ in 0..3 {
        cpu.cycle().unwrap();
    }
    assert_eq!(cpu.register[0], 21);
    assert_eq!(cpu.register[1], 11);
    assert_eq!(cpu.register[0xF], 0);
    assert_eq!(cpu.program_counter, 0x206);
}

#[test]
fn return_with_empty_stack_underflows() {
    let mut cpu = machine_with(&[0x00, 0xEE]);
    assert_eq!(cpu.cycle(), Err(Fault::StackUnderflow));
    assert_eq!(cpu.program_counter, 0x200);
    assert_eq!(cpu.stack_pointer, 0);
}

#[test]
fn skip_equal_byte_advances_by_four() {
    let mut cpu = machine_with(&[0x63, 0x42, 0x33, 0x42]);
    cpu.cycle().unwrap();
    assert_eq!(cpu.program_counter, 0x202);
    cpu.cycle().unwrap();
    assert_eq!(cpu.program_counter, 0x206);
}

#[test]
fn skip_equal_byte_without_match_advances_by_two() {
    let mut cpu = machine_with(&[0x33, 0x42]);
    cpu.cycle().unwrap();
    assert_eq!(cpu.program_counter, 0x202);
}

#[test]
fn skip_not_equal_and_register_compares() {
    // V0 = 1, V1 = 1; 4001 does not skip, 5010 skips, 9010 does not skip.
    let mut cpu = machine_with(&[0x60, 0x01, 0x61, 0x01, 0x40, 0x01, 0x50, 0x10]);
    for _ in 0..3 {
        cpu.cycle().unwrap();
    }
    assert_eq!(cpu.program_counter, 0x206);
    cpu.cycle().unwrap();
    assert_eq!(cpu.program_counter, 0x20A);
    let mut cpu = machine_with(&[0x60, 0x01, 0x61, 0x01, 0x90, 0x10]);
    for _ in 0..3 {
        cpu.cycle().unwrap();
    }
    assert_eq!(cpu.program_counter, 0x206);
    let mut cpu = machine_with(&[0x60, 0x01, 0x90, 0x10]);
    cpu.cycle().unwrap();
    cpu.cycle().unwrap();
    assert_eq!(cpu.program_counter, 0x206);
}

#[test]
fn add_with_carry_sets_flag() {
    for (a, b) in [(200u8, 100u8), (255, 1), (255, 255), (128, 127), (0, 0), (10, 11)] {
        let mut cpu = machine_with(&[0x60, a, 0x61, b, 0x80, 0x14]);
        for _ in 0..3 {
            cpu.cycle().unwrap();
        }
        let sum = a as u16 + b as u16;
        assert_eq!(cpu.register[0], (sum % 256) as u8);
        assert_eq!(cpu.register[0xF], if sum > 255 { 1 } else { 0 });
    }
}

#[test]
fn add_into_flag_register_keeps_sum() {
    // VF = 200, V1 = 100, VF += V1: VF ends as the sum's low byte.
    let mut cpu = machine_with(&[0x6F, 200, 0x61, 100, 0x8F, 0x14]);
    for _ in 0..3 {
        cpu.cycle().unwrap();
    }
    assert_eq!(cpu.register[0xF], 44);
}

#[test]
fn subtract_sets_not_borrow() {
    let mut cpu = machine_with(&[0x60, 5, 0x61, 7, 0x80, 0x15]);
    for _ in 0..3 {
        cpu.cycle().unwrap();
    }
    assert_eq!(cpu.register[0], 254);
    assert_eq!(cpu.register[0xF], 0);
    let mut cpu = machine_with(&[0x60, 7, 0x61, 5, 0x80, 0x15]);
    for _ in 0..3 {
        cpu.cycle().unwrap();
    }
    assert_eq!(cpu.register[0], 2);
    assert_eq!(cpu.register[0xF], 1);
}

#[test]
fn reverse_subtract_sets_not_borrow() {
    let mut cpu = machine_with(&[0x60, 5, 0x61, 7, 0x80, 0x17]);
    for _ in 0..3 {
        cpu.cycle().unwrap();
    }
    assert_eq!(cpu.register[0], 2);
    assert_eq!(cpu.register[0xF], 1);
    let mut cpu = machine_with(&[0x60, 7, 0x61, 5, 0x80, 0x17]);
    for _ in 0..3 {
        cpu.cycle().unwrap();
    }
    assert_eq!(cpu.register[0], 254);
    assert_eq!(cpu.register[0xF], 0);
}

#[test]
fn shifts_set_flag_to_bit_shifted_out() {
    for a in [0u8, 1, 2, 0x7F, 0x80, 0x81, 0xFF, 0x55, 0xAA] {
        let mut cpu = machine_with(&[0x63, a, 0x83, 0x06]);
        cpu.cycle().unwrap();
        cpu.cycle().unwrap();
        assert_eq!(cpu.register[0xF], a & 1);
        assert_eq!(cpu.register[3], a >> 1);
        let mut cpu = machine_with(&[0x63, a, 0x83, 0x0E]);
        cpu.cycle().unwrap();
        cpu.cycle().unwrap();
        assert_eq!(cpu.register[0xF], (a >> 7) & 1);
        assert_eq!(cpu.register[3], a << 1);
    }
}

#[test]
fn shifts_of_flag_register_keep_shifted_bit() {
    for a in [0u8, 1, 2, 3, 0x7F, 0x80, 0x81, 0xFE, 0xFF] {
        let mut cpu = machine_with(&[0x6F, a, 0x8F, 0x06]);
        cpu.cycle().unwrap();
        cpu.cycle().unwrap();
        assert_eq!(cpu.register[0xF], a & 1);
        let mut cpu = machine_with(&[0x6F, a, 0x8F, 0x0E]);
        cpu.cycle().unwrap();
        cpu.cycle().unwrap();
        assert_eq!(cpu.register[0xF], (a >> 7) & 1);
    }
    let mut cpu = machine_with(&[0x6F, 2, 0x8F, 0x06]);
    cpu.cycle().unwrap();
    cpu.cycle().unwrap();
    assert_eq!(cpu.register[0xF], 0);
}

#[test]
fn logic_and_move_operations() {
    let prog = [0x60, 0b1100, 0x61, 0b1010, 0x82, 0x00, 0x82, 0x11, 0x83, 0x00, 0x83, 0x12, 0x84, 0x00, 0x84, 0x13];
    let mut cpu = machine_with(&prog);
    for _ in 0..8 {
        cpu.cycle().unwrap();
    }
    assert_eq!(cpu.register[2], 0b1110);
    assert_eq!(cpu.register[3], 0b1000);
    assert_eq!(cpu.register[4], 0b0110);
}

#[test]
fn add_byte_wraps_without_flag() {
    let mut cpu = machine_with(&[0x6F, 0x07, 0x60, 0xF0, 0x70, 0x20]);
    for _ in 0..3 {
        cpu.cycle().unwrap();
    }
    assert_eq!(cpu.register[0], 0x10);
    assert_eq!(cpu.register[0xF], 0x07);
}

#[test]
fn clear_screen_blanks_display() {
    // Draw the glyph of 0, then clear.
    let mut cpu = machine_with(&[0xA0, 0x00, 0xD0, 0x05, 0x00, 0xE0]);
    cpu.cycle().unwrap();
    cpu.cycle().unwrap();
    assert!(cpu.display_snapshot().iter().any(|p| *p == 1));
    cpu.cycle().unwrap();
    assert!(cpu.display_snapshot().iter().all(|p| *p == 0));
    assert_eq!(cpu.program_counter, 0x206);
}

#[test]
fn drawing_twice_restores_display() {
    // I = glyph of 8, V0 = 3, V1 = 4, draw, draw.
    let mut cpu = machine_with(&[0xA0, 40, 0x60, 3, 0x61, 4, 0xD0, 0x15, 0xD0, 0x15]);
    for _ in 0..3 {
        cpu.cycle().unwrap();
    }
    let before = cpu.display_snapshot();
    cpu.cycle().unwrap();
    assert_eq!(cpu.register[0xF], 0);
    let once = cpu.display_snapshot();
    assert_ne!(once, before);
    assert_eq!(once[4 * 64 + 3], 1);
    assert_eq!(once[4 * 64 + 7], 0);
    cpu.cycle().unwrap();
    assert_eq!(cpu.register[0xF], 1);
    assert_eq!(cpu.display_snapshot(), before);
}

#[test]
fn collision_flag_reflects_whole_sprite() {
    // Two-row sprite 0x80, 0x00 at 0x300; the collision is in the first row
    // only, so a flag that looked at the last pixel alone would miss it.
    let mut prog = vec![0xA3, 0x00, 0xD0, 0x02, 0xD0, 0x02];
    prog.resize(0x100, 0);
    prog.push(0x80);
    prog.push(0x00);
    let mut cpu = machine_with(&prog);
    cpu.cycle().unwrap();
    cpu.cycle().unwrap();
    assert_eq!(cpu.register[0xF], 0);
    assert_eq!(cpu.display_snapshot()[0], 1);
    cpu.cycle().unwrap();
    assert_eq!(cpu.register[0xF], 1);
    assert_eq!(cpu.display_snapshot()[0], 0);
}

#[test]
fn drawing_wraps_at_edges() {
    // V0 = 63, V1 = 31, I = glyph of 0 (F0 90 90 90 F0), draw 5 rows.
    let mut cpu = machine_with(&[0x60, 63, 0x61, 31, 0xA0, 0x00, 0xD0, 0x15]);
    for _ in 0..4 {
        cpu.cycle().unwrap();
    }
    let d = cpu.display_snapshot();
    // Row 0 of the glyph lands on row 31, columns 63, 0, 1, 2.
    assert_eq!(d[31 * 64 + 63], 1);
    assert_eq!(d[31 * 64], 1);
    assert_eq!(d[31 * 64 + 2], 1);
    assert_eq!(d[31 * 64 + 3], 0);
    // Row 1 (0x90) wraps to row 0: columns 63 and 2.
    assert_eq!(d[63], 1);
    assert_eq!(d[0], 0);
    assert_eq!(d[2], 1);
    // Row 4 (0xF0) lands on row 3.
    assert_eq!(d[3 * 64 + 63], 1);
    assert_eq!(d[3 * 64 + 1], 1);
    assert_eq!(d.iter().map(|p| *p as u32).sum::<u32>(), 14);
    assert_eq!(cpu.register[0xF], 0);
}

#[test]
fn draw_past_end_of_memory_is_out_of_bounds() {
    // I = 0xFFE, draw 5 rows.
    let mut cpu = machine_with(&[0xAF, 0xFE, 0xD0, 0x05]);
    cpu.cycle().unwrap();
    assert_eq!(cpu.cycle(), Err(Fault::OutOfBounds));
}

#[test]
fn jump_call_and_return() {
    // 200: call 206; 202: jump 20A; 206: V0 = 9; 208: return; 20A: V1 = 1
    let mut cpu = machine_with(&[0x22, 0x06, 0x12, 0x0A, 0x00, 0x00, 0x60, 0x09, 0x00, 0xEE, 0x61, 0x01]);
    cpu.cycle().unwrap();
    assert_eq!(cpu.program_counter, 0x206);
    assert_eq!(cpu.stack_pointer, 1);
    cpu.cycle().unwrap();
    cpu.cycle().unwrap();
    assert_eq!(cpu.program_counter, 0x202);
    assert_eq!(cpu.stack_pointer, 0);
    cpu.cycle().unwrap();
    assert_eq!(cpu.program_counter, 0x20A);
    cpu.cycle().unwrap();
    assert_eq!(cpu.register[0], 9);
    assert_eq!(cpu.register[1], 1);
}

#[test]
fn seventeen_nested_calls_overflow() {
    // 200: call 200, forever.
    let mut cpu = machine_with(&[0x22, 0x00]);
    for depth in 0..16 {
        cpu.cycle().unwrap();
        assert_eq!(cpu.stack_pointer, depth + 1);
    }
    assert_eq!(cpu.cycle(), Err(Fault::StackOverflow));
    assert_eq!(cpu.stack_pointer, 16);
}

#[test]
fn jump_with_offset_adds_v0() {
    let mut cpu = machine_with(&[0x60, 0x10, 0xB3, 0x00]);
    cpu.cycle().unwrap();
    cpu.cycle().unwrap();
    assert_eq!(cpu.program_counter, 0x310);
}

#[test]
fn index_operations() {
    // I = 0x123; V0 = 0x10; I += V0; V1 = 0xB; I = font(V1)
    let mut cpu = machine_with(&[0xA1, 0x23, 0x60, 0x10, 0xF0, 0x1E, 0x61, 0x0B, 0xF1, 0x29]);
    for _ in 0..3 {
        cpu.cycle().unwrap();
    }
    assert_eq!(cpu.index_register, 0x133);
    cpu.cycle().unwrap();
    cpu.cycle().unwrap();
    assert_eq!(cpu.index_register, 55);
}

#[test]
fn binary_coded_decimal() {
    let mut cpu = machine_with(&[0x65, 254, 0xA4, 0x00, 0xF5, 0x33]);
    for _ in 0..3 {
        cpu.cycle().unwrap();
    }
    assert_eq!(&cpu.memory[0x400..0x403], &[2, 5, 4]);
    assert_eq!(cpu.index_register, 0x400);
}

#[test]
fn store_and_load_registers() {
    let mut cpu = machine_with(&[0x60, 1, 0x61, 2, 0x62, 3, 0x63, 4, 0xA5, 0x00, 0xF2, 0x55]);
    for _ in 0..6 {
        cpu.cycle().unwrap();
    }
    assert_eq!(&cpu.memory[0x500..0x504], &[1, 2, 3, 0]);
    let mut cpu = machine_with(&[0xA0, 0x05, 0xF3, 0x65]);
    cpu.cycle().unwrap();
    cpu.cycle().unwrap();
    assert_eq!(&cpu.register[0..5], &FONTSET[5..10][0..4].iter().copied().chain([0]).collect::<Vec<u8>>()[..]);
}

#[test]
fn block_transfer_past_memory_end_faults() {
    let mut cpu = machine_with(&[0xAF, 0xFF, 0xF1, 0x55]);
    cpu.cycle().unwrap();
    let before = cpu.memory;
    assert_eq!(cpu.cycle(), Err(Fault::OutOfBounds));
    assert_eq!(cpu.memory, before);
    let mut cpu = machine_with(&[0xAF, 0xFE, 0xF0, 0x33]);
    cpu.cycle().unwrap();
    assert_eq!(cpu.cycle(), Err(Fault::OutOfBounds));
}

#[test]
fn timers_load_and_tick() {
    let mut cpu = machine_with(&[0x60, 2, 0xF0, 0x15, 0xF0, 0x18, 0xF1, 0x07]);
    for _ in 0..3 {
        cpu.cycle().unwrap();
    }
    assert_eq!(cpu.delay_timer, 2);
    assert_eq!(cpu.sound_timer, 2);
    cpu.tick_timers();
    assert_eq!(cpu.delay_timer, 1);
    cpu.cycle().unwrap();
    assert_eq!(cpu.register[1], 1);
    cpu.tick_timers();
    cpu.tick_timers();
    assert_eq!(cpu.delay_timer, 0);
    assert_eq!(cpu.sound_timer, 0);
}

#[test]
fn key_skips() {
    let mut cpu = machine_with(&[0x60, 0x05, 0xE0, 0x9E, 0x00, 0x00, 0xE0, 0xA1]);
    cpu.set_key(5, true);
    cpu.cycle().unwrap();
    cpu.cycle().unwrap();
    assert_eq!(cpu.program_counter, 0x206);
    cpu.cycle().unwrap();
    assert_eq!(cpu.program_counter, 0x208);
    cpu.set_key(5, false);
    cpu.program_counter = 0x206;
    cpu.cycle().unwrap();
    assert_eq!(cpu.program_counter, 0x20A);
}

#[test]
fn wait_for_key_repeats_until_pressed() {
    let mut cpu = machine_with(&[0xF4, 0x0A]);
    cpu.cycle().unwrap();
    cpu.cycle().unwrap();
    assert_eq!(cpu.program_counter, 0x200);
    cpu.set_key(0xC, true);
    cpu.set_key(0x9, true);
    cpu.cycle().unwrap();
    assert_eq!(cpu.program_counter, 0x202);
    assert_eq!(cpu.register[4], 0x9);
}

#[test]
fn random_is_masked() {
    let mut cpu = machine_with(&[0x60, 0xFF, 0xC0, 0x00, 0xC1, 0x0F]);
    for _ in 0..3 {
        cpu.cycle().unwrap();
    }
    assert_eq!(cpu.register[0], 0);
    assert!(cpu.register[1] <= 0x0F);
    let mut cpu = machine_with(&[0xC2, 0x3C]);
    cpu.cycle_with(0xFF).unwrap();
    assert_eq!(cpu.register[2], 0x3C);
}

#[test]
fn illegal_opcodes_fault() {
    for op in [0x0123u16, 0x5001, 0x8008, 0x800F, 0x9001, 0xE000, 0xE09F, 0xF000, 0xF0FF] {
        let mut cpu = machine_with(&[(op >> 8) as u8, op as u8]);
        assert_eq!(cpu.cycle(), Err(Fault::IllegalOpcode), "opcode {op:04X}");
        assert_eq!(cpu.program_counter, 0x200);
    }
}

#[test]
fn fetch_past_memory_end_is_out_of_bounds() {
    let mut cpu = CPU::init();
    cpu.program_counter = 0xFFF;
    assert_eq!(cpu.fetch(), Err(Fault::OutOfBounds));
    assert_eq!(cpu.cycle(), Err(Fault::OutOfBounds));
    cpu.program_counter = 0xFFE;
    cpu.memory[0xFFE] = 0xAB;
    cpu.memory[0xFFF] = 0xCD;
    assert_eq!(cpu.fetch(), Ok(0xABCD));
}

#[test]
fn rom_size_limit() {
    let mut cpu = CPU::init();
    assert_eq!(cpu.load_program(&vec![0u8; 4096 - 0x200 + 1]), Err(Fault::RomTooLarge));
    assert!(cpu.memory[0x200..].iter().all(|b| *b == 0));
    let rom: Vec<u8> = (0..(4096 - 0x200)).map(|i| (i % 251) as u8 + 1).collect();
    assert_eq!(cpu.load_program(&rom), Ok(()));
    assert_eq!(&cpu.memory[0x200..], &rom[..]);
    assert_eq!(&cpu.memory[0..80], &FONTSET[..]);
}

#[test]
fn decode_table_rows() {
    assert_eq!(Instruction::decode(0x00E0), Ok(Instruction::ClearScreen));
    assert_eq!(Instruction::decode(0x1ABC), Ok(Instruction::Jump { addr: 0xABC }));
    assert_eq!(Instruction::decode(0x8AB4), Ok(Instruction::AddReg { x: 0xA, y: 0xB }));
    assert_eq!(Instruction::decode(0xD12F), Ok(Instruction::Draw { x: 1, y: 2, n: 0xF }));
    assert_eq!(Instruction::decode(0xF765), Ok(Instruction::LoadRegs { x: 7 }));
    assert_eq!(Instruction::decode(0x5AB1), Err(Fault::IllegalOpcode));
}

#[test]
fn execute_and_counter_helpers() {
    let mut cpu = CPU::init();
    cpu.execute(Instruction::LoadByte { x: 2, kk: 7 }, 0).unwrap();
    assert_eq!(cpu.register[2], 7);
    assert_eq!(cpu.program_counter, 0x202);
    cpu.increment_program_counter();
    assert_eq!(cpu.program_counter, 0x204);
    cpu.increment_stack_pointer();
    assert_eq!(cpu.stack_pointer, 1);
}

#[test]
fn frame_runs_cycles_then_ticks_once() {
    // V0 = 5; delay = V0; V1 = 1; V2 = 2
    let mut cpu = machine_with(&[0x60, 5, 0xF0, 0x15, 0x61, 1, 0x62, 2]);
    assert_eq!(cpu.run_frame(3), Ok(()));
    assert_eq!(cpu.program_counter, 0x206);
    assert_eq!(cpu.register[1], 1);
    assert_eq!(cpu.register[2], 0);
    assert_eq!(cpu.delay_timer, 4);
    assert_eq!(cpu.run_frame(0), Ok(()));
    assert_eq!(cpu.delay_timer, 3);
    assert_eq!(cpu.program_counter, 0x206);
}

#[test]
fn frame_stops_at_first_fault_without_tick() {
    // V0 = 5; delay = V0; return with an empty stack; V1 = 1
    let mut cpu = machine_with(&[0x60, 5, 0xF0, 0x15, 0x00, 0xEE, 0x61, 1]);
    assert_eq!(cpu.run_frame(10), Err(Fault::StackUnderflow));
    assert_eq!(cpu.program_counter, 0x204);
    assert_eq!(cpu.delay_timer, 5);
    assert_eq!(cpu.register[1], 0);
}
