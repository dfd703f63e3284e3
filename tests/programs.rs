use chip8::CHIP8;

const STEPS: u64 = 1000;

/// Splits instruction words into the big-endian bytes of a program image.
fn image(words: &[u16]) -> Vec<u8> {
    let mut bytes = Vec::new();
    for w in words {
        bytes.push((w >> 8) as u8);
        bytes.push((w & 0xFF) as u8);
    }
    bytes
}

fn load_and_run(chip8: &mut CHIP8, words: &[u16]) {
    let program = image(words);
    chip8.load_and_run(&program, STEPS).unwrap();
}

#[test]
fn test_clear_screen() {
    let mut chip8 = CHIP8::new();
    chip8.display.cells[0] = true;
    load_and_run(&mut chip8, &[0x00E0, 0x0000]);
    assert_eq!(chip8.display.pixel(0, 0), false);
}

#[test]
fn test_skip_if_equal_iseq() {
    let mut chip8 = CHIP8::new();
    load_and_run(&mut chip8, &[0x6005, 0x3005, 0x6006, 0x0000]);
    assert_eq!(chip8.registers[0], 5);
}

#[test]
fn test_skip_if_equal_noteq() {
    let mut chip8 = CHIP8::new();
    load_and_run(&mut chip8, &[0x6005, 0x3004, 0x6006, 0x0000]);
    assert_eq!(chip8.registers[0], 6);
}

#[test]
fn test_skip_if_not_equal_iseq() {
    let mut chip8 = CHIP8::new();
    load_and_run(&mut chip8, &[0x6005, 0x4005, 0x6006, 0x0000]);
    assert_eq!(chip8.registers[0], 6);
}

#[test]
fn test_skip_if_not_equal_neq() {
    let mut chip8 = CHIP8::new();
    load_and_run(&mut chip8, &[0x6005, 0x4004, 0x6006, 0x0000]);
    assert_eq!(chip8.registers[0], 5);
}

#[test]
fn test_skip_xy_equal_eq() {
    let mut chip8 = CHIP8::new();
    load_and_run(&mut chip8, &[0x6005, 0x6105, 0x5010, 0x6006, 0x0000]);
    assert_eq!(chip8.registers[0], 5);
}

#[test]
fn test_skip_xy_equal_neq() {
    let mut chip8 = CHIP8::new();
    load_and_run(&mut chip8, &[0x6005, 0x6106, 0x5010, 0x6006, 0x0000]);
    assert_eq!(chip8.registers[0], 6);
}

#[test]
fn test_skip_xy_not_equal_eq() {
    let mut chip8 = CHIP8::new();
    load_and_run(&mut chip8, &[0x6005, 0x6105, 0x9010, 0x6006, 0x0000]);
    assert_eq!(chip8.registers[0], 6);
}

#[test]
fn test_skip_xy_not_equal_neq() {
    let mut chip8 = CHIP8::new();
    load_and_run(&mut chip8, &[0x6005, 0x6106, 0x9010, 0x6006, 0x0000]);
    assert_eq!(chip8.registers[0], 5);
}

#[test]
fn test_set_xnn() {
    let mut chip8 = CHIP8::new();
    load_and_run(&mut chip8, &[0x6005, 0x610A, 0x0000]);
    assert_eq!(chip8.registers[0], 5);
    assert_eq!(chip8.registers[1], 10);
}

#[test]
fn test_add_xnn() {
    let mut chip8 = CHIP8::new();
    load_and_run(&mut chip8, &[0x6005, 0x7005, 0x0000]);
    assert_eq!(chip8.registers[0], 10);
}

#[test]
fn test_assign_xy() {
    let mut chip8 = CHIP8::new();
    load_and_run(&mut chip8, &[0x6106, 0x8010, 0x0000]);
    assert_eq!(chip8.registers[0], 6);
}

#[test]
fn test_or_xy() {
    let mut chip8 = CHIP8::new();
    load_and_run(&mut chip8, &[0x60F0, 0x610F, 0x8011, 0x0000]);
    assert_eq!(chip8.registers[0], 255);
}

#[test]
fn test_and_xy() {
    let mut chip8 = CHIP8::new();
    load_and_run(&mut chip8, &[0x60F0, 0x610F, 0x8012, 0x0000]);
    assert_eq!(chip8.registers[0], 0);
}

#[test]
fn test_xor_xy() {
    let mut chip8 = CHIP8::new();
    load_and_run(&mut chip8, &[0x60F0, 0x610F, 0x8013, 0x0000]);
    assert_eq!(chip8.registers[0], 255);
}

#[test]
fn test_add_xy() {
    let mut chip8 = CHIP8::new();
    load_and_run(&mut chip8, &[0x6005, 0x610A, 0x8014, 0x0000]);
    assert_eq!(chip8.registers[0], 15);
}

#[test]
fn test_sub_xy() {
    let mut chip8 = CHIP8::new();
    load_and_run(&mut chip8, &[0x600A, 0x6105, 0x8015, 0x0000]);
    assert_eq!(chip8.registers[0], 5);
}

#[test]
fn test_shift_right() {
    let mut chip8 = CHIP8::new();
    load_and_run(&mut chip8, &[0x6005, 0x8006, 0x0000]);
    assert_eq!(chip8.registers[0], 2);
}

#[test]
fn test_sub_yx() {
    let mut chip8 = CHIP8::new();
    load_and_run(&mut chip8, &[0x6005, 0x610A, 0x8017, 0x0000]);
    assert_eq!(chip8.registers[0], 5);
}

#[test]
fn test_shift_left() {
    let mut chip8 = CHIP8::new();
    chip8.load_into_memory(&image(&[0x6005, 0x800E, 0x0000]));
    chip8.run(STEPS).unwrap();
    assert_eq!(chip8.registers[0], 10);
}

#[test]
fn test_set_16bit_register() {
    let mut chip8 = CHIP8::new();
    load_and_run(&mut chip8, &[0xA00A, 0x0000]);
    assert_eq!(chip8.i, 10);
}

#[test]
fn test_jump_nnn_plus_v0() {
    let mut chip8 = CHIP8::new();
    load_and_run(&mut chip8, &[0x6002, 0xB204, 0x610A, 0x6105, 0x0000]);
    assert_eq!(chip8.registers[1], 5); // We skipped 0x610A
}

#[test]
fn test_rand() {
    let mut chip8 = CHIP8::new();
    assert_eq!(chip8.registers[0], 0);
    load_and_run(&mut chip8, &[0xC0FF, 0x0000]);
    assert_ne!(chip8.registers[0], 0);
}

#[test]
fn test_draw() {
    let mut chip8 = CHIP8::new();
    let mut program = image(&[0xA20A, 0x6000, 0x6100, 0xD013, 0x0000]);
    program.extend_from_slice(&[0x3C, 0xC3, 0xFF]);
    chip8.load_and_run(&program, STEPS).unwrap();

    // Checking if we drew this:
    //   ****
    // **    **
    // ********
    assert_eq!(chip8.memory[chip8.i as usize], 0x3C);
    assert_eq!(chip8.memory[(chip8.i + 1) as usize], 0xC3);
    assert_eq!(chip8.memory[(chip8.i + 2) as usize], 0xFF);
    assert_eq!(chip8.display.pixel(0, 0), false);
    assert_eq!(chip8.display.pixel(1, 0), false);
    assert_eq!(chip8.display.pixel(2, 0), true);
    assert_eq!(chip8.display.pixel(3, 0), true);
    assert_eq!(chip8.display.pixel(4, 0), true);
    assert_eq!(chip8.display.pixel(5, 0), true);
    assert_eq!(chip8.display.pixel(0, 1), true);
    assert_eq!(chip8.display.pixel(1, 1), true);
    assert_eq!(chip8.display.pixel(6, 1), true);
    assert_eq!(chip8.display.pixel(7, 1), true);
    assert_eq!(chip8.display.pixel(5, 0), true);
    assert_eq!(chip8.display.pixel(0, 2), true);
    assert_eq!(chip8.display.pixel(1, 2), true);
    assert_eq!(chip8.display.pixel(2, 2), true);
    assert_eq!(chip8.display.pixel(3, 2), true);
    assert_eq!(chip8.display.pixel(4, 2), true);
    assert_eq!(chip8.display.pixel(5, 2), true);
    assert_eq!(chip8.display.pixel(6, 2), true);
    assert_eq!(chip8.display.pixel(7, 2), true);
}

#[test]
fn test_skip_if_key_pressed() {
    let mut chip8 = CHIP8::new();
    chip8.keypad.keys[0] = true;
    load_and_run(&mut chip8, &[0x6000, 0x6101, 0xE09E, 0x6102, 0x0000]);
    assert_eq!(chip8.registers[1], 1); // Skips last operation
}

#[test]
fn test_skip_if_key_pressed_not_pressed() {
    let mut chip8 = CHIP8::new();
    chip8.keypad.keys[0] = false;
    load_and_run(&mut chip8, &[0x6000, 0x6101, 0xE09E, 0x6102, 0x0000]);
    assert_eq!(chip8.registers[1], 2); // Does not skip last operation
}

#[test]
fn test_skip_if_key_not_pressed_np() {
    let mut chip8 = CHIP8::new();
    chip8.keypad.keys[0] = false;
    load_and_run(&mut chip8, &[0x6000, 0x6101, 0xE0A1, 0x6102, 0x0000]);
    assert_eq!(chip8.registers[1], 1); // Skips last operation
}

#[test]
fn test_skip_if_key_not_pressed_p() {
    let mut chip8 = CHIP8::new();
    chip8.keypad.keys[0] = true;
    load_and_run(&mut chip8, &[0x6000, 0x6101, 0xE0A1, 0x6102, 0x0000]);
    assert_eq!(chip8.registers[1], 2); // Does not skip last operation
}

#[test]
fn test_set_timers() {
    let mut chip8 = CHIP8::new();
    assert_eq!(chip8.sound_timer, 0);
    assert_eq!(chip8.delay_timer, 0);
    load_and_run(&mut chip8, &[0x6005, 0x610A, 0xF015, 0xF118, 0x6000, 0xF007, 0x0000]);
    assert_eq!(chip8.registers[0], 5);
    assert_eq!(chip8.delay_timer, 5);
    assert_eq!(chip8.sound_timer, 10);
}

#[test]
fn test_set_x_to_keypress() {
    let mut chip8 = CHIP8::new();
    // Pressing 'w' makes the wait end with key 5.
    let key = chip8::keypad::key_for_char('w').unwrap();
    chip8.set_key(key, true);
    load_and_run(&mut chip8, &[0xF00A, 0x0000]);
    assert_eq!(chip8.registers[0], 5);
}

#[test]
fn test_add_ix() {
    let mut chip8 = CHIP8::new();
    load_and_run(&mut chip8, &[0x6005, 0xF01E, 0x0000]);
    assert_eq!(chip8.registers[0], 5);
    assert_eq!(chip8.i, 5);
}

#[test]
fn test_set_i_sprite_addr_x() {
    let mut chip8 = CHIP8::new();
    load_and_run(&mut chip8, &[0x600A, 0xF029, 0x0000]);
    assert_eq!(chip8.i, 130);
}

#[test]
fn test_set_bcd() {
    let mut chip8 = CHIP8::new();
    chip8.i = 0x600;
    load_and_run(&mut chip8, &[0x60EE, 0xF033, 0x0000]);

    assert_eq!(chip8.memory[1536], 2);
    assert_eq!(chip8.memory[1537], 3);
    assert_eq!(chip8.memory[1538], 8);
}

#[test]
fn test_reg_dump() {
    let mut chip8 = CHIP8::new();
    load_and_run(&mut chip8, &[0x6001, 0x6102, 0x6203, 0x6304, 0xA600, 0xF255, 0x0000]);
    assert_eq!(chip8.memory[0x600], 1);
    assert_eq!(chip8.memory[0x601], 2);
    assert_eq!(chip8.memory[0x602], 3);
    assert_eq!(chip8.memory[0x603], 0);
    assert_eq!(chip8.i, 0x600);
}

#[test]
fn test_reg_load() {
    let mut chip8 = CHIP8::new();
    let mut program = image(&[0x6309, 0xA20A, 0xF265, 0x0000, 0x0000]);
    program.extend_from_slice(&[7, 8, 9, 10]);
    chip8.load_and_run(&program, STEPS).unwrap();
    assert_eq!(chip8.registers[0], 7);
    assert_eq!(chip8.registers[1], 8);
    assert_eq!(chip8.registers[2], 9);
    assert_eq!(chip8.registers[3], 9);
}

#[test]
fn test_load_into_memory() {
    let mut chip8 = CHIP8::new();
    let mut program = image(&[0x6005, 0x610A, 0x2300, 0x2300, 0x0000]);
    program.resize(0x100, 0);
    program.extend_from_slice(&image(&[0x8014, 0x8014, 0x00EE]));
    chip8.load_into_memory(&program);

    // Check that everything is in place
    assert_eq!(chip8.registers[0], 0);
    assert_eq!(chip8.registers[1], 0);

    // Check the fonts

    // Check for zero
    assert_eq!(chip8.memory[0x50], 0xf0);
    assert_eq!(chip8.memory[0x51], 0x90);
    assert_eq!(chip8.memory[0x52], 0x90);
    assert_eq!(chip8.memory[0x53], 0x90);
    assert_eq!(chip8.memory[0x54], 0xf0);

    // Check loaded program memory
    assert_eq!(chip8.memory[0x200], 0x60);
    assert_eq!(chip8.memory[0x201], 0x05);
    assert_eq!(chip8.memory[0x202], 0x61);
    assert_eq!(chip8.memory[0x203], 0x0A);
    assert_eq!(chip8.memory[0x204], 0x23);
    assert_eq!(chip8.memory[0x205], 0x00);
    assert_eq!(chip8.memory[0x206], 0x23);
    assert_eq!(chip8.memory[0x207], 0x00);
    assert_eq!(chip8.memory[0x300], 0x80);
    assert_eq!(chip8.memory[0x301], 0x14);
    assert_eq!(chip8.memory[0x302], 0x80);
    assert_eq!(chip8.memory[0x303], 0x14);
    assert_eq!(chip8.memory[0x304], 0x00);
    assert_eq!(chip8.memory[0x305], 0xEE);

    chip8.run(STEPS).unwrap();

    // Check the results in the registers
    assert_eq!(chip8.registers[1], 10);
    assert_eq!(chip8.registers[0], 45);
}
