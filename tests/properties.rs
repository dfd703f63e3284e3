use chip8::display::Display;
use chip8::opcode::Instruction;
use chip8::{ErrorKind, MachineState, CHIP8};

const STEPS: u64 = 1000;

fn image(words: &[u16]) -> Vec<u8> {
    let mut bytes = Vec::new();
    for w in words {
        bytes.push((w >> 8) as u8);
        bytes.push((w & 0xFF) as u8);
    }
    bytes
}

fn machine_with(regs: &[(usize, u8)]) -> CHIP8 {
    let mut m = CHIP8::new();
    for &(r, v) in regs {
        m.registers[r] = v;
    }
    m
}

#[test]
fn add_immediate_wraps_and_leaves_flag() {
    let mut m = machine_with(&[(0, 250), (15, 7)]);
    m.execute(Instruction::AddImmediate { x: 0, nn: 10 }, 0).unwrap();
    assert_eq!(m.registers[0], 4);
    assert_eq!(m.registers[15], 7);
}

#[test]
fn add_with_carry_sets_flag_on_overflow() {
    let mut m = machine_with(&[(0, 200), (1, 100)]);
    m.execute(Instruction::AddWithCarry { x: 0, y: 1 }, 0).unwrap();
    assert_eq!(m.registers[0], 44);
    assert_eq!(m.registers[15], 1);

    let mut m = machine_with(&[(0, 200), (1, 55), (15, 1)]);
    m.execute(Instruction::AddWithCarry { x: 0, y: 1 }, 0).unwrap();
    assert_eq!(m.registers[0], 255);
    assert_eq!(m.registers[15], 0);
}

#[test]
fn subtract_flag_is_strict_greater() {
    let mut m = machine_with(&[(0, 10), (1, 5)]);
    m.execute(Instruction::Subtract { x: 0, y: 1 }, 0).unwrap();
    assert_eq!((m.registers[0], m.registers[15]), (5, 1));

    let mut m = machine_with(&[(0, 5), (1, 10)]);
    m.execute(Instruction::Subtract { x: 0, y: 1 }, 0).unwrap();
    assert_eq!((m.registers[0], m.registers[15]), (251, 0));

    let mut m = machine_with(&[(0, 7), (1, 7), (15, 1)]);
    m.execute(Instruction::Subtract { x: 0, y: 1 }, 0).unwrap();
    assert_eq!((m.registers[0], m.registers[15]), (0, 0));

    let mut m = machine_with(&[(0, 10), (1, 5)]);
    m.execute(Instruction::SubtractReversed { x: 0, y: 1 }, 0).unwrap();
    assert_eq!((m.registers[0], m.registers[15]), (251, 0));
}

#[test]
fn shifts_flag_the_bit_shifted_out() {
    let mut m = machine_with(&[(0, 0x81)]);
    m.execute(Instruction::ShiftRight { x: 0 }, 0).unwrap();
    assert_eq!((m.registers[0], m.registers[15]), (0x40, 1));

    let mut m = machine_with(&[(0, 0x81)]);
    m.execute(Instruction::ShiftLeft { x: 0 }, 0).unwrap();
    assert_eq!((m.registers[0], m.registers[15]), (0x02, 1));

    let mut m = machine_with(&[(0, 0x7E), (15, 1)]);
    m.execute(Instruction::ShiftLeft { x: 0 }, 0).unwrap();
    assert_eq!((m.registers[0], m.registers[15]), (0xFC, 0));
}

#[test]
fn drawing_twice_restores_the_display() {
    let mut d = Display::new();
    d.cells[3] = true;
    let before = d.cells;
    let first = d.draw_sprite(0, 0, &[0xF0]);
    assert!(first);
    assert_eq!(d.pixel(3, 0), false);
    assert_eq!(d.pixel(0, 0), true);
    let second = d.draw_sprite(0, 0, &[0xF0]);
    assert!(second);
    assert!(d.cells == before);
}

#[test]
fn sprite_wraps_at_both_edges() {
    let mut d = Display::new();
    let hit = d.draw_sprite(63, 31, &[0xFF]);
    assert!(!hit);
    let mut lit = Vec::new();
    for py in 0..32 {
        for px in 0..64 {
            if d.pixel(px, py) {
                lit.push((px, py));
            }
        }
    }
    assert_eq!(lit, vec![(0, 31), (1, 31), (2, 31), (3, 31), (4, 31), (5, 31), (6, 31), (63, 31)]);
}

#[test]
fn call_then_return_resumes_after_the_call() {
    let mut m = CHIP8::new();
    let mut program = image(&[0x6001, 0x2300, 0x6102, 0x0000]);
    program.resize(0x100, 0);
    program.extend_from_slice(&image(&[0x00EE]));
    m.load_into_memory(&program);
    m.step().unwrap();
    m.step().unwrap();
    assert_eq!(m.pc, 0x300);
    assert_eq!(m.stack, vec![0x204]);
    m.step().unwrap();
    assert_eq!(m.pc, 0x204);
    assert!(m.stack.is_empty());
    assert_eq!(m.run(STEPS), Ok(MachineState::Halted));
    assert_eq!(m.registers[1], 2);
}

#[test]
fn seventeenth_nested_call_overflows() {
    let mut m = CHIP8::new();
    m.load_into_memory(&image(&[0x2200]));
    let fault = m.run(STEPS).unwrap_err();
    assert_eq!(fault.kind, ErrorKind::StackOverflow);
    assert_eq!(fault.address, 0x200);
    assert_eq!(fault.opcode, 0x2200);
    assert_eq!(m.stack.len(), 16);
}

#[test]
fn return_without_call_underflows() {
    let mut m = CHIP8::new();
    m.load_into_memory(&image(&[0x00EE]));
    let fault = m.step().unwrap_err();
    assert_eq!(fault.kind, ErrorKind::StackUnderflow);
    assert_eq!(fault.address, 0x200);
    assert_eq!(fault.opcode, 0x00EE);
    assert_eq!(m.pc, 0x200);
}

#[test]
fn stack_program_sums_to_forty_five() {
    let mut m = CHIP8::new();
    let mut program = image(&[0x6005, 0x610A, 0x2300, 0x2300, 0x0000]);
    program.resize(0x100, 0);
    program.extend_from_slice(&image(&[0x8014, 0x8014, 0x00EE]));
    assert_eq!(m.load_and_run(&program, STEPS), Ok(MachineState::Halted));
    assert_eq!(m.registers[1], 10);
    assert_eq!(m.registers[0], 45);
}

#[test]
fn or_and_xor_of_registers() {
    let mut m = CHIP8::new();
    m.load_and_run(&image(&[0x60FF, 0x61FF, 0x8011, 0x0000]), STEPS).unwrap();
    assert_eq!(m.registers[0], 0xFF);

    let mut m = CHIP8::new();
    m.load_and_run(&image(&[0x60FF, 0x610F, 0x8013, 0x0000]), STEPS).unwrap();
    assert_eq!(m.registers[0], 0xF0);

    let mut m = CHIP8::new();
    m.load_and_run(&image(&[0x60F0, 0x610F, 0x8012, 0x0000]), STEPS).unwrap();
    assert_eq!(m.registers[0], 0);
}

#[test]
fn bcd_of_238() {
    let mut m = machine_with(&[(4, 238)]);
    m.i = 0x400;
    m.execute(Instruction::StoreBcd { x: 4 }, 0).unwrap();
    assert_eq!(&m.memory[0x400..0x403], &[2, 3, 8]);
}

#[test]
fn unknown_words_are_invalid() {
    for word in [0x0123u16, 0x8008, 0xE0FF, 0xF0FF] {
        let mut m = CHIP8::new();
        m.load_into_memory(&image(&[word]));
        let fault = m.step().unwrap_err();
        assert_eq!(fault.kind, ErrorKind::InvalidOpcode);
        assert_eq!(fault.opcode, word);
    }
}

#[test]
fn accesses_past_memory_are_out_of_bounds() {
    let mut m = CHIP8::new();
    m.load_into_memory(&image(&[0xAFFE, 0xD015]));
    m.step().unwrap();
    let fault = m.step().unwrap_err();
    assert_eq!(fault.kind, ErrorKind::OutOfBoundsAccess);
    assert_eq!(fault.address, 0x202);

    let mut m = CHIP8::new();
    m.load_into_memory(&image(&[0x6010, 0xE09E]));
    m.step().unwrap();
    assert_eq!(m.step().unwrap_err().kind, ErrorKind::OutOfBoundsAccess);

    let mut m = CHIP8::new();
    m.load_into_memory(&image(&[0x1FFF]));
    m.step().unwrap();
    let fault = m.step().unwrap_err();
    assert_eq!((fault.kind, fault.address, fault.opcode), (ErrorKind::OutOfBoundsAccess, 0xFFF, 0));

    let mut m = CHIP8::new();
    m.i = 0xFFE;
    assert_eq!(m.execute(Instruction::StoreBcd { x: 0 }, 0), Err(ErrorKind::OutOfBoundsAccess));
    assert_eq!(m.execute(Instruction::DumpRegisters { x: 2 }, 0), Err(ErrorKind::OutOfBoundsAccess));
    assert_eq!(m.execute(Instruction::LoadRegisters { x: 2 }, 0), Err(ErrorKind::OutOfBoundsAccess));
    assert_eq!(m.execute(Instruction::DumpRegisters { x: 1 }, 0), Ok(()));
}

#[test]
fn key_wait_suspends_until_a_key_is_pressed() {
    let mut m = CHIP8::new();
    m.load_into_memory(&image(&[0xF30A, 0x0000]));
    assert_eq!(m.run(STEPS), Ok(MachineState::WaitingForKey { x: 3 }));
    assert_eq!(m.step(), Ok(MachineState::WaitingForKey { x: 3 }));
    m.set_key(0xB, true);
    m.set_key(0x7, true);
    assert_eq!(m.step(), Ok(MachineState::Running));
    assert_eq!(m.registers[3], 0x7);
    assert_eq!(m.run(STEPS), Ok(MachineState::Halted));
}

#[test]
fn random_byte_is_masked() {
    let mut m = CHIP8::new();
    m.execute(Instruction::Random { x: 2, nn: 0x0F }, 0xAB).unwrap();
    assert_eq!(m.registers[2], 0x0B);
    let mut m = CHIP8::new();
    m.load_and_run(&image(&[0xC00F, 0x0000]), STEPS).unwrap();
    assert!(m.registers[0] <= 0x0F);
}

#[test]
fn timers_count_down_to_zero() {
    let mut m = CHIP8::new();
    m.delay_timer = 2;
    m.sound_timer = 1;
    m.tick_timers();
    assert_eq!((m.delay_timer, m.sound_timer), (1, 0));
    m.tick_timers();
    m.tick_timers();
    assert_eq!((m.delay_timer, m.sound_timer), (0, 0));
}

#[test]
fn glyph_address_and_jump_with_offset() {
    let mut m = machine_with(&[(0, 0xF), (5, 3)]);
    m.execute(Instruction::SetIndexToGlyph { x: 5 }, 0).unwrap();
    assert_eq!(m.i, 0x50 + 15);
    m.execute(Instruction::JumpPlusV0 { addr: 0x300 }, 0).unwrap();
    assert_eq!(m.pc, 0x30F);
    m.i = 0xFFFF;
    m.execute(Instruction::AddToIndex { x: 5 }, 0).unwrap();
    assert_eq!(m.i, 2);
}

#[test]
fn halted_machine_stays_halted() {
    let mut m = CHIP8::new();
    m.load_into_memory(&[]);
    assert_eq!(m.step(), Ok(MachineState::Halted));
    assert_eq!(m.pc, 0x202);
    assert_eq!(m.step(), Ok(MachineState::Halted));
    assert_eq!(m.pc, 0x202);
}

#[test]
fn long_programs_are_truncated() {
    let mut m = CHIP8::new();
    let program = vec![0xAB; 5000];
    m.load_into_memory(&program);
    assert_eq!(m.memory[0x200], 0xAB);
    assert_eq!(m.memory[0xFFF], 0xAB);
    assert_eq!(m.memory[0x1FF], 0);
    assert_eq!(m.memory[0x9F], 0x80);
}
