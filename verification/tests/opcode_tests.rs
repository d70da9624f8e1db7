use chip8::emulation::{EmuError, Emulation};
use chip8::keypad::ChipKeyCode;

fn boot(rom: Vec<u8>) -> Emulation {
    Emulation::new(rom).unwrap()
}

/// A program image whose first bytes are `prog` and whose byte at address
/// `0x300` onwards is `data` (the gap is zero-filled).
fn rom_with_data(prog: &[u8], data: &[u8]) -> Vec<u8> {
    let mut rom = prog.to_vec();
    while rom.len() < 0x100 {
        rom.push(0);
    }
    rom.extend_from_slice(data);
    rom
}

fn step(emu: &mut Emulation) -> bool {
    emu.execute_next_instruction().unwrap()
}

#[test]
fn set_register_scenario() {
    let mut emu = boot(vec![0x6A, 0x3C]);
    assert!(!step(&mut emu));
    assert_eq!(emu.chip8_data.var_registers[0xA], 0x3C);
    assert_eq!(emu.chip8_data.pc, 0x202);
}

#[test]
fn jump_scenario() {
    let mut emu = boot(vec![0x12, 0x28]);
    step(&mut emu);
    assert_eq!(emu.chip8_data.pc, 0x228);
}

#[test]
fn call_then_return_restores_pc_past_the_call() {
    // 0x200: call 0x300; 0x300: return.
    let mut emu = boot(rom_with_data(&[0x23, 0x00], &[0x00, 0xEE]));
    step(&mut emu);
    assert_eq!(emu.chip8_data.pc, 0x300);
    assert_eq!(emu.chip8_data.stack, vec![0x200]);
    step(&mut emu);
    assert_eq!(emu.chip8_data.pc, 0x202);
    assert!(emu.chip8_data.stack.is_empty());
}

#[test]
fn add_registers_scenario_sets_carry() {
    let mut emu = boot(vec![0x60, 0xFF, 0x61, 0x01, 0x80, 0x14]);
    step(&mut emu);
    step(&mut emu);
    step(&mut emu);
    assert_eq!(emu.chip8_data.var_registers[0x0], 0x00);
    assert_eq!(emu.chip8_data.var_registers[0xF], 1);
}

#[test]
fn draw_scenario_lights_one_pixel_without_collision() {
    // Set index to 0x300 (a single 0b10000000 sprite row), then draw 5 rows
    // at (V0, V0) = (0, 0).
    let mut emu = boot(rom_with_data(&[0xA3, 0x00, 0xD0, 0x05], &[0x80]));
    step(&mut emu);
    assert_eq!(emu.chip8_data.index, 0x300);
    let presented = step(&mut emu);
    assert!(presented);
    assert!(emu.canvas.pixel(0, 0));
    assert!(!emu.canvas.pixel(1, 0));
    assert!(!emu.canvas.pixel(0, 1));
    assert_eq!(emu.chip8_data.var_registers[0xF], 0);
}

#[test]
fn drawing_twice_restores_the_frame_and_collides() {
    let mut emu = boot(rom_with_data(&[0xA3, 0x00, 0xD0, 0x05, 0xD0, 0x05], &[0x80, 0x42]));
    step(&mut emu);
    step(&mut emu);
    assert!(emu.canvas.pixel(0, 0));
    assert!(emu.canvas.pixel(1, 1));
    assert!(emu.canvas.pixel(6, 1));
    assert_eq!(emu.chip8_data.var_registers[0xF], 0);
    step(&mut emu);
    for y in 0..32 {
        for x in 0..64 {
            assert!(!emu.canvas.pixel(x, y));
        }
    }
    assert_eq!(emu.chip8_data.var_registers[0xF], 1);
}

#[test]
fn drawing_clips_at_the_screen_edge() {
    // V0 = 62, V1 = 30: only the two leftmost sprite columns and the two top
    // rows stay visible.
    let mut emu = boot(rom_with_data(
        &[0x60, 0x3E, 0x61, 0x1E, 0xA3, 0x00, 0xD0, 0x15],
        &[0xFF, 0xFF, 0xFF],
    ));
    step(&mut emu);
    step(&mut emu);
    step(&mut emu);
    step(&mut emu);
    assert!(emu.canvas.pixel(62, 30));
    assert!(emu.canvas.pixel(63, 30));
    assert!(emu.canvas.pixel(62, 31));
    assert!(emu.canvas.pixel(63, 31));
    assert!(!emu.canvas.pixel(0, 30));
    assert!(!emu.canvas.pixel(0, 0));
    assert_eq!(emu.chip8_data.var_registers[0xF], 0);
}

#[test]
fn clear_screen_blanks_the_frame() {
    let mut emu = boot(rom_with_data(&[0xA3, 0x00, 0xD0, 0x01, 0x00, 0xE0], &[0xFF]));
    step(&mut emu);
    step(&mut emu);
    assert!(emu.canvas.pixel(0, 0));
    step(&mut emu);
    for y in 0..32 {
        for x in 0..64 {
            assert!(!emu.canvas.pixel(x, y));
        }
    }
}

#[test]
fn dump_then_load_round_trips_registers() {
    // V0 = 7, V1 = 9, V2 = 11; dump V0..V2 at 0x300; clobber V1; reload.
    let mut emu = boot(vec![
        0x60, 0x07, 0x61, 0x09, 0x62, 0x0B, 0xA3, 0x00, 0xF2, 0x55, 0x61, 0x00, 0xF2, 0x65,
    ]);
    for _ in 0..5 {
        step(&mut emu);
    }
    assert_eq!(emu.chip8_data.memory[0x300], 7);
    assert_eq!(emu.chip8_data.memory[0x301], 9);
    assert_eq!(emu.chip8_data.memory[0x302], 11);
    step(&mut emu);
    assert_eq!(emu.chip8_data.var_registers[1], 0);
    step(&mut emu);
    assert_eq!(emu.chip8_data.var_registers[0], 7);
    assert_eq!(emu.chip8_data.var_registers[1], 9);
    assert_eq!(emu.chip8_data.var_registers[2], 11);
}

#[test]
fn skip_if_equal_immediate() {
    let mut emu = boot(vec![0x30, 0x00]);
    step(&mut emu);
    assert_eq!(emu.chip8_data.pc, 0x204);
    let mut emu = boot(vec![0x30, 0x01]);
    step(&mut emu);
    assert_eq!(emu.chip8_data.pc, 0x202);
}

#[test]
fn skip_if_not_equal_immediate() {
    let mut emu = boot(vec![0x40, 0x01]);
    step(&mut emu);
    assert_eq!(emu.chip8_data.pc, 0x204);
    let mut emu = boot(vec![0x40, 0x00]);
    step(&mut emu);
    assert_eq!(emu.chip8_data.pc, 0x202);
}

#[test]
fn skip_on_register_comparison() {
    // V0 == V1 (both zero): 5xy0 skips, 9xy0 does not.
    let mut emu = boot(vec![0x50, 0x10]);
    step(&mut emu);
    assert_eq!(emu.chip8_data.pc, 0x204);
    let mut emu = boot(vec![0x90, 0x10]);
    step(&mut emu);
    assert_eq!(emu.chip8_data.pc, 0x202);
    // V0 = 1 != V1: the other way round.
    let mut emu = boot(vec![0x60, 0x01, 0x50, 0x10]);
    step(&mut emu);
    step(&mut emu);
    assert_eq!(emu.chip8_data.pc, 0x204);
    let mut emu = boot(vec![0x60, 0x01, 0x90, 0x10]);
    step(&mut emu);
    step(&mut emu);
    assert_eq!(emu.chip8_data.pc, 0x206);
}

#[test]
fn add_immediate_wraps_without_touching_flags() {
    let mut emu = boot(vec![0x60, 0xFF, 0x70, 0x02]);
    step(&mut emu);
    step(&mut emu);
    assert_eq!(emu.chip8_data.var_registers[0], 1);
    assert_eq!(emu.chip8_data.var_registers[0xF], 0);
}

#[test]
fn alu_bitwise_operations() {
    // V0 = 0x0F, V1 = 0x35.
    let setup = [0x60, 0x0F, 0x61, 0x35];
    let mut emu = boot([&setup[..], &[0x80, 0x11]].concat());
    step(&mut emu);
    step(&mut emu);
    step(&mut emu);
    assert_eq!(emu.chip8_data.var_registers[0], 0x3F);
    let mut emu = boot([&setup[..], &[0x80, 0x12]].concat());
    step(&mut emu);
    step(&mut emu);
    step(&mut emu);
    assert_eq!(emu.chip8_data.var_registers[0], 0x05);
    let mut emu = boot([&setup[..], &[0x80, 0x13]].concat());
    step(&mut emu);
    step(&mut emu);
    step(&mut emu);
    assert_eq!(emu.chip8_data.var_registers[0], 0x3A);
    let mut emu = boot([&setup[..], &[0x80, 0x10]].concat());
    step(&mut emu);
    step(&mut emu);
    step(&mut emu);
    assert_eq!(emu.chip8_data.var_registers[0], 0x35);
}

#[test]
fn alu_subtract_sets_no_borrow_flag() {
    // V0 = 5, V1 = 3: V0 - V1 = 2, no borrow.
    let mut emu = boot(vec![0x60, 0x05, 0x61, 0x03, 0x80, 0x15]);
    step(&mut emu);
    step(&mut emu);
    step(&mut emu);
    assert_eq!(emu.chip8_data.var_registers[0], 2);
    assert_eq!(emu.chip8_data.var_registers[0xF], 1);
    // V0 = 3, V1 = 5: wraps, borrow.
    let mut emu = boot(vec![0x60, 0x03, 0x61, 0x05, 0x80, 0x15]);
    step(&mut emu);
    step(&mut emu);
    step(&mut emu);
    assert_eq!(emu.chip8_data.var_registers[0], 254);
    assert_eq!(emu.chip8_data.var_registers[0xF], 0);
}

#[test]
fn alu_reverse_subtract() {
    // V0 = 3, V1 = 5: V0 = V1 - V0 = 2, no borrow.
    let mut emu = boot(vec![0x60, 0x03, 0x61, 0x05, 0x80, 0x17]);
    step(&mut emu);
    step(&mut emu);
    step(&mut emu);
    assert_eq!(emu.chip8_data.var_registers[0], 2);
    assert_eq!(emu.chip8_data.var_registers[0xF], 1);
}

#[test]
fn alu_shifts_keep_the_dropped_bit_in_vf() {
    let mut emu = boot(vec![0x60, 0x81, 0x80, 0x06]);
    step(&mut emu);
    step(&mut emu);
    assert_eq!(emu.chip8_data.var_registers[0], 0x40);
    assert_eq!(emu.chip8_data.var_registers[0xF], 1);
    let mut emu = boot(vec![0x60, 0x81, 0x80, 0x0E]);
    step(&mut emu);
    step(&mut emu);
    assert_eq!(emu.chip8_data.var_registers[0], 0x02);
    assert_eq!(emu.chip8_data.var_registers[0xF], 1);
}

#[test]
fn set_index_register() {
    let mut emu = boot(vec![0xA1, 0x23]);
    step(&mut emu);
    assert_eq!(emu.chip8_data.index, 0x123);
    assert_eq!(emu.chip8_data.pc, 0x202);
}

#[test]
fn jump_with_offset_uses_the_named_register() {
    let mut emu = boot(vec![0x62, 0x05, 0xB2, 0x10]);
    step(&mut emu);
    step(&mut emu);
    assert_eq!(emu.chip8_data.pc, 0x15);
}

#[test]
fn random_byte_is_masked() {
    let mut emu = boot(vec![0xC0, 0x0F, 0xC1, 0x00]);
    step(&mut emu);
    assert!(emu.chip8_data.var_registers[0] <= 0x0F);
    step(&mut emu);
    assert_eq!(emu.chip8_data.var_registers[1], 0);
}

#[test]
fn skip_on_key_state() {
    // V0 = 5; key 5 held: Ex9E skips, ExA1 does not.
    let mut emu = boot(vec![0x60, 0x05, 0xE0, 0x9E]);
    emu.events_handler.update_events(vec![ChipKeyCode::FIVE]);
    step(&mut emu);
    step(&mut emu);
    assert_eq!(emu.chip8_data.pc, 0x206);
    let mut emu = boot(vec![0x60, 0x05, 0xE0, 0xA1]);
    emu.events_handler.update_events(vec![ChipKeyCode::FIVE]);
    step(&mut emu);
    step(&mut emu);
    assert_eq!(emu.chip8_data.pc, 0x204);
    // Key not held: the other way round.
    let mut emu = boot(vec![0x60, 0x05, 0xE0, 0x9E]);
    step(&mut emu);
    step(&mut emu);
    assert_eq!(emu.chip8_data.pc, 0x204);
    let mut emu = boot(vec![0x60, 0x05, 0xE0, 0xA1]);
    step(&mut emu);
    step(&mut emu);
    assert_eq!(emu.chip8_data.pc, 0x206);
}

#[test]
fn timers_are_set_read_and_ticked() {
    // delay = 2 via V0, sound = 3 via V1, then read delay back into V4.
    let mut emu = boot(vec![0x60, 0x02, 0x61, 0x03, 0xF0, 0x15, 0xF1, 0x18, 0xF4, 0x07]);
    for _ in 0..5 {
        step(&mut emu);
    }
    assert_eq!(emu.chip8_data.delay_timer, 2);
    assert_eq!(emu.chip8_data.sound_timer, 3);
    assert_eq!(emu.chip8_data.var_registers[4], 2);
    emu.tick_timers();
    assert_eq!(emu.chip8_data.delay_timer, 1);
    assert_eq!(emu.chip8_data.sound_timer, 2);
    emu.tick_timers();
    emu.tick_timers();
    assert_eq!(emu.chip8_data.delay_timer, 0);
    assert_eq!(emu.chip8_data.sound_timer, 0);
    emu.tick_timers();
    assert_eq!(emu.chip8_data.delay_timer, 0);
    assert_eq!(emu.chip8_data.sound_timer, 0);
}

#[test]
fn add_to_index() {
    let mut emu = boot(vec![0xA0, 0x10, 0x60, 0x05, 0xF0, 0x1E]);
    step(&mut emu);
    step(&mut emu);
    step(&mut emu);
    assert_eq!(emu.chip8_data.index, 0x15);
}

#[test]
fn font_character_address_is_five_times_the_digit() {
    let mut emu = boot(vec![0x60, 0x0A, 0xF0, 0x29]);
    step(&mut emu);
    step(&mut emu);
    assert_eq!(emu.chip8_data.index, 50);
    assert_eq!(emu.chip8_data.memory[50], 0xF0);
}

#[test]
fn wait_key_stalls_until_a_key_arrives() {
    let mut emu = boot(vec![0xF0, 0x0A]);
    assert!(!step(&mut emu));
    assert_eq!(emu.chip8_data.pc, 0x200);
    assert!(!step(&mut emu));
    assert_eq!(emu.chip8_data.pc, 0x200);
    emu.events_handler.update_events(vec![ChipKeyCode::A]);
    step(&mut emu);
    assert_eq!(emu.chip8_data.var_registers[0], 0xA);
    assert_eq!(emu.chip8_data.pc, 0x202);
    assert!(emu.events_handler.events.is_empty());
}

#[test]
fn bcd_stores_three_decimal_digits() {
    let mut emu = boot(vec![0x60, 0xEA, 0xA3, 0x00, 0xF0, 0x33]);
    step(&mut emu);
    step(&mut emu);
    step(&mut emu);
    assert_eq!(emu.chip8_data.memory[0x300], 2);
    assert_eq!(emu.chip8_data.memory[0x301], 3);
    assert_eq!(emu.chip8_data.memory[0x302], 4);
}

#[test]
fn unrecognized_opcodes_advance_without_effect() {
    let mut emu = boot(vec![0x00, 0x00, 0x50, 0x11, 0xE0, 0x00, 0xF0, 0xFF]);
    for i in 1..=4u16 {
        step(&mut emu);
        assert_eq!(emu.chip8_data.pc, 0x200 + 2 * i);
    }
    assert_eq!(emu.chip8_data.var_registers, vec![0u8; 16]);
}

#[test]
fn return_with_empty_stack_fails() {
    let mut emu = boot(vec![0x00, 0xEE]);
    assert_eq!(emu.execute_next_instruction(), Err(EmuError::StackUnderflow));
    assert_eq!(emu.chip8_data.pc, 0x200);
}

#[test]
fn fetch_past_the_end_of_memory_fails() {
    let mut emu = boot(vec![]);
    emu.chip8_data.pc = 4095;
    assert_eq!(emu.execute_next_instruction(), Err(EmuError::MemoryOutOfRange));
    assert_eq!(emu.chip8_data.pc, 4095);
}

#[test]
fn bcd_past_the_end_of_memory_fails() {
    let mut emu = boot(vec![0xAF, 0xFE, 0xF0, 0x33]);
    step(&mut emu);
    assert_eq!(emu.execute_next_instruction(), Err(EmuError::MemoryOutOfRange));
}

#[test]
fn draw_past_the_end_of_memory_fails() {
    let mut emu = boot(vec![0xAF, 0xFF, 0xD0, 0x02]);
    step(&mut emu);
    assert_eq!(emu.execute_next_instruction(), Err(EmuError::MemoryOutOfRange));
}

#[test]
fn register_dump_past_the_end_of_memory_fails() {
    let mut emu = boot(vec![0xAF, 0xFF, 0xF1, 0x55]);
    step(&mut emu);
    assert_eq!(emu.execute_next_instruction(), Err(EmuError::MemoryOutOfRange));
}

#[test]
fn register_load_past_the_end_of_memory_fails() {
    let mut emu = boot(vec![0xAF, 0xFF, 0xF1, 0x65]);
    step(&mut emu);
    assert_eq!(emu.execute_next_instruction(), Err(EmuError::MemoryOutOfRange));
}
