use chip8::color::Color;
use chip8::debugger::{DebugGate, GateAction, GateSignal};
use chip8::display::Display;
use chip8::keypad::{key_for_char, Keypad};
use chip8::opcode::{decode, join_bytes, Instruction};
use chip8::CHIP8;

#[test]
fn decodes_each_family() {
    assert_eq!(decode(0x0000), Some(Instruction::Halt));
    assert_eq!(decode(0x00E0), Some(Instruction::ClearScreen));
    assert_eq!(decode(0x00EE), Some(Instruction::Return));
    assert_eq!(decode(0x1ABC), Some(Instruction::Jump { addr: 0xABC }));
    assert_eq!(decode(0x2ABC), Some(Instruction::Call { addr: 0xABC }));
    assert_eq!(decode(0x3A12), Some(Instruction::SkipIfEqual { x: 0xA, nn: 0x12 }));
    assert_eq!(decode(0x8AB4), Some(Instruction::AddWithCarry { x: 0xA, y: 0xB }));
    assert_eq!(decode(0x8ABE), Some(Instruction::ShiftLeft { x: 0xA }));
    assert_eq!(decode(0xD123), Some(Instruction::Draw { x: 1, y: 2, n: 3 }));
    assert_eq!(decode(0xE5A1), Some(Instruction::SkipIfKeyNotPressed { x: 5 }));
    assert_eq!(decode(0xF765), Some(Instruction::LoadRegisters { x: 7 }));
    assert_eq!(decode(0x0001), None);
    assert_eq!(decode(0x800F), None);
    assert_eq!(join_bytes(0xA2, 0xF0), 0xA2F0);
}

#[test]
fn color_names_and_values() {
    assert_eq!(Color::from_name("green"), Color::Green);
    assert_eq!(Color::from_name("red"), Color::Red);
    assert_eq!(Color::from_name("blue"), Color::Blue);
    assert_eq!(Color::from_name("purple"), Color::Purple);
    assert_eq!(Color::from_name("teal"), Color::Purple);
    assert_eq!(Color::from_name("greenish"), Color::Purple);
    assert_eq!("red".parse::<Color>(), Ok(Color::Red));
    assert_eq!(Color::Purple.hex_color(), 0xaf12e8);
    assert_eq!(Color::Green.hex_color(), 0x008000);
    assert_eq!(Color::Red.hex_color(), 0xff0000);
    assert_eq!(Color::Blue.hex_color(), 0x0000ff);
}

#[test]
fn keyboard_layout() {
    assert_eq!(key_for_char('1'), Some(0x1));
    assert_eq!(key_for_char('4'), Some(0xC));
    assert_eq!(key_for_char('x'), Some(0x0));
    assert_eq!(key_for_char('v'), Some(0xF));
    assert_eq!(key_for_char('p'), None);
    let mut seen = [false; 16];
    for c in "1234qwerasdfzxcv".chars() {
        let k = key_for_char(c).unwrap() as usize;
        assert!(!seen[k]);
        seen[k] = true;
    }
}

#[test]
fn lowest_pressed_key_wins() {
    let mut p = Keypad::new();
    assert_eq!(p.first_pressed(), None);
    p.set(9, true);
    p.set(4, true);
    assert_eq!(p.first_pressed(), Some(4));
    p.set(4, false);
    assert_eq!(p.first_pressed(), Some(9));
    assert!(p.is_pressed(9));
    assert!(!p.is_pressed(4));
}

#[test]
fn frame_buffer_uses_the_tint() {
    let mut m = CHIP8::new();
    m.display.cells[65] = true;
    let frame = m.frame(Color::Red);
    assert_eq!(frame.len(), 2048);
    assert_eq!(frame[65], 0xff0000);
    assert_eq!(frame[64], 0);
    m.display.clear();
    assert!(m.frame(Color::Red).iter().all(|&p| p == 0));
}

#[test]
fn display_collision_only_when_lit_pixel_goes_off() {
    let mut d = Display::new();
    assert!(!d.draw_sprite(10, 5, &[0x80, 0x80]));
    assert!(d.pixel(10, 5) && d.pixel(10, 6));
    assert!(d.draw_sprite(10, 6, &[0x80]));
    assert!(!d.pixel(10, 6));
    assert!(!d.draw_sprite(200, 40, &[0x01]));
    assert!(d.pixel((200 + 7) % 64, 40 % 32));
}

#[test]
fn debug_gate_signals() {
    let mut g = DebugGate::new(true);
    assert!(g.must_wait());
    assert_eq!(g.on_signal(GateSignal::Step), GateAction::Proceed);
    assert!(g.must_wait());
    assert_eq!(g.on_signal(GateSignal::Quit), GateAction::Abort);
    assert_eq!(g.on_signal(GateSignal::Resume), GateAction::Proceed);
    assert!(!g.must_wait());
}
