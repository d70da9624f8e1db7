use chip8::arith::{add_overflow, least_significant_bit, most_significant_bit, sub_overflow};
use chip8::chip::Chip8Components;
use chip8::display::Framebuffer;
use chip8::emulation::{EmuError, Emulation};
use chip8::keypad::{ChipKeyCode, Keypad};

#[test]
fn add_overflow_carries_past_255() {
    assert_eq!(add_overflow(255, 1), (true, 0));
    assert_eq!(add_overflow(255, 255), (true, 254));
    assert_eq!(add_overflow(10, 20), (false, 30));
    assert_eq!(add_overflow(0, 0), (false, 0));
    assert_eq!(add_overflow(128, 127), (false, 255));
}

#[test]
fn sub_overflow_reports_no_borrow() {
    assert_eq!(sub_overflow(5, 3), (true, 2));
    assert_eq!(sub_overflow(3, 5), (false, 254));
    assert_eq!(sub_overflow(0, 1), (false, 255));
    assert_eq!(sub_overflow(0, 0), (true, 0));
    assert_eq!(sub_overflow(255, 255), (true, 0));
}

#[test]
fn bit_helpers_pick_the_edge_bits() {
    assert_eq!(least_significant_bit(0x81), 1);
    assert_eq!(least_significant_bit(0x80), 0);
    assert_eq!(most_significant_bit(0x81), 1);
    assert_eq!(most_significant_bit(0x01), 0);
}

#[test]
fn fresh_machine_holds_font_and_zeroes() {
    let c = Chip8Components::new();
    assert_eq!(c.memory.len(), 4096);
    assert_eq!(c.memory[0], 0xF0);
    assert_eq!(c.memory[4], 0xF0);
    assert_eq!(c.memory[5], 0x20);
    assert_eq!(c.memory[79], 0x80);
    assert_eq!(c.memory[80], 0);
    assert_eq!(c.memory[4095], 0);
    assert_eq!(c.pc, 0);
    assert_eq!(c.index, 0);
    assert!(c.stack.is_empty());
    assert_eq!(c.delay_timer, 0);
    assert_eq!(c.sound_timer, 0);
    assert_eq!(c.var_registers, vec![0u8; 16]);
}

#[test]
fn rom_load_places_bytes_at_0x200() {
    let emu = Emulation::new(vec![1, 2, 3]).unwrap();
    assert_eq!(emu.chip8_data.pc, 0x200);
    assert_eq!(emu.chip8_data.memory[0x200], 1);
    assert_eq!(emu.chip8_data.memory[0x201], 2);
    assert_eq!(emu.chip8_data.memory[0x202], 3);
    assert_eq!(emu.chip8_data.memory[0x203], 0);
    assert_eq!(emu.chip8_data.memory[0x1FF], 0);
    assert_eq!(emu.instructions, vec![1, 2, 3]);
}

#[test]
fn rom_of_maximal_length_fits() {
    let rom = vec![0xABu8; 3584];
    let emu = Emulation::new(rom).unwrap();
    assert_eq!(emu.chip8_data.memory[0x200], 0xAB);
    assert_eq!(emu.chip8_data.memory[4095], 0xAB);
}

#[test]
fn rom_past_the_end_of_memory_is_refused() {
    let rom = vec![0u8; 3585];
    assert!(matches!(Emulation::new(rom), Err(EmuError::RomTooLarge)));
}

#[test]
fn framebuffer_toggles_and_reports_prior_state() {
    let mut fb = Framebuffer::new();
    assert!(!fb.pixel(3, 2));
    assert!(!fb.invert_pixel(3, 2));
    assert!(fb.pixel(3, 2));
    assert!(fb.invert_pixel(3, 2));
    assert!(!fb.pixel(3, 2));
}

#[test]
fn framebuffer_clear_turns_everything_off() {
    let mut fb = Framebuffer::new();
    fb.invert_pixel(0, 0);
    fb.invert_pixel(63, 31);
    fb.clear_screen();
    for y in 0..32 {
        for x in 0..64 {
            assert!(!fb.pixel(x, y));
        }
    }
}

#[test]
fn keypad_reports_held_keys() {
    let mut pad = Keypad::new();
    pad.update_events(vec![ChipKeyCode::FIVE, ChipKeyCode::A]);
    assert!(pad.is_pressed(0x5));
    assert!(pad.is_pressed(0xA));
    assert!(!pad.is_pressed(0x0));
    assert!(!pad.is_pressed(0xB));
}

#[test]
fn keypad_grab_key_takes_the_latest_key() {
    let mut pad = Keypad::new();
    pad.update_events(vec![ChipKeyCode::ONE, ChipKeyCode::F]);
    assert_eq!(pad.grab_key(), 0xF);
    assert_eq!(pad.grab_key(), 0x1);
    assert!(pad.events.is_empty());
}

#[test]
fn debug_file_lists_rom_bytes_in_hex() {
    let emu = Emulation::new(vec![0xAB, 0x01, 0xFF, 0x00]).unwrap();
    let listing = emu.debug_file();
    assert_eq!(listing.len(), 4);
    assert_eq!(listing[0], "ab");
    assert_eq!(listing[1], "01");
    assert_eq!(listing[2], "ff");
    assert_eq!(listing[3], "00");
}
