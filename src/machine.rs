//! The executable machine: loader, fetch-decode-execute step and run loop.

use vstd::prelude::*;
use crate::color::{rgb_of, Color};
use crate::display::{Display, OFF_RGB};
use crate::keypad::Keypad;
use crate::opcode::{decode, join_bytes, operands_in_range, Instruction};
use crate::semantics::{
    execute_spec,
    font_bytes,
    loaded_memory,
    power_on,
    registers_dumped,
    registers_loaded,
    run_spec,
    skip_if,
    step_spec,
    ticked,
    well_formed,
    ErrorKind,
    Fault,
    MachineState,
    MachineView,
    FLAG,
    FONT_START,
    GLYPH_SIZE,
    MEMORY_SIZE,
    PROGRAM_CAPACITY,
    PROGRAM_START,
    STACK_DEPTH,
};

verus! {

/// The interpreter: registers, memory, call stack, timers, key latch and
/// display of one machine.
pub struct CHIP8 {
    /// `V0` to `VF`.
    pub registers: [u8; 16],
    /// The index register `I`.
    pub i: u16,
    /// The program counter.
    pub pc: u16,
    pub memory: [u8; 4096],
    /// Return addresses, the innermost call last; at most sixteen.
    pub stack: Vec<u16>,
    pub keypad: Keypad,
    pub delay_timer: u8,
    pub sound_timer: u8,
    pub display: Display,
    pub state: MachineState,
}

impl View for CHIP8 {
    type V = MachineView;

    open spec fn view(&self) -> MachineView {
        MachineView {
            registers: self.registers@,
            index: self.i,
            pc: self.pc,
            memory: self.memory@,
            stack: self.stack@,
            keys: self.keypad@,
            delay_timer: self.delay_timer,
            sound_timer: self.sound_timer,
            display: self.display@,
            state: self.state,
        }
    }
}

/// `r` and `after` are what executing `ins` on `before` gives; a fault
/// leaves the state as it was.
pub open spec fn executed(
    before: MachineView,
    ins: Instruction,
    rnd: u8,
    r: Result<(), ErrorKind>,
    after: MachineView,
) -> bool {
    &&& execute_spec(before, ins, rnd) == match r {
        Ok(_) => Ok(after),
        Err(kind) => Err(kind),
    }
    &&& r is Err ==> after == before
}

/// Executing `ins` on `before` cannot fault and gives `after`.
pub open spec fn executes_to(before: MachineView, ins: Instruction, rnd: u8, after: MachineView) -> bool {
    execute_spec(before, ins, rnd) == Ok::<MachineView, ErrorKind>(after)
}

/// `r` and `after` are what one step of `before` gives.
pub open spec fn stepped(
    before: MachineView,
    rnd: u8,
    r: Result<MachineState, Fault>,
    after: MachineView,
) -> bool {
    match r {
        Ok(s) => step_spec(before, rnd) == Ok::<MachineView, Fault>(after) && s == after.state,
        Err(f) => step_spec(before, rnd) == Err::<MachineView, Fault>(f) && after == before,
    }
}

/// `r` and `after` are what running `before` with the random bytes `rnds`
/// gives; after a fault, `after` is the state that the faulting step began in.
pub open spec fn ran(
    before: MachineView,
    rnds: Seq<u8>,
    r: Result<MachineState, Fault>,
    after: MachineView,
) -> bool {
    match r {
        Ok(s) => run_spec(before, rnds) == Ok::<MachineView, Fault>(after) && s == after.state,
        Err(f) => {
            &&& run_spec(before, rnds) == Err::<MachineView, Fault>(f)
            &&& rnds.len() > 0
            &&& run_spec(before, rnds.drop_last()) == Ok::<MachineView, Fault>(after)
        },
    }
}

/// The glyph table.
fn font_glyphs() -> (glyphs: [u8; 80])
    ensures
        glyphs@ == font_bytes(),
{
    let glyphs = [
        0xf0u8, 0x90u8, 0x90u8, 0x90u8, 0xf0u8, // 0
        0x20u8, 0x60u8, 0x20u8, 0x20u8, 0x70u8, // 1
        0xf0u8, 0x10u8, 0xf0u8, 0x80u8, 0xf0u8, // 2
        0xf0u8, 0x10u8, 0xf0u8, 0x10u8, 0xf0u8, // 3
        0x90u8, 0x90u8, 0xf0u8, 0x10u8, 0x10u8, // 4
        0xf0u8, 0x80u8, 0xf0u8, 0x10u8, 0xf0u8, // 5
        0xf0u8, 0x80u8, 0xf0u8, 0x90u8, 0xf0u8, // 6
        0xf0u8, 0x10u8, 0x20u8, 0x40u8, 0x40u8, // 7
        0xf0u8, 0x90u8, 0xf0u8, 0x90u8, 0xf0u8, // 8
        0xf0u8, 0x90u8, 0xf0u8, 0x10u8, 0xf0u8, // 9
        0xf0u8, 0x90u8, 0xf0u8, 0x90u8, 0x90u8, // A
        0xe0u8, 0x90u8, 0xe0u8, 0x90u8, 0xe0u8, // B
        0xf0u8, 0x80u8, 0x80u8, 0x80u8, 0xf0u8, // C
        0xe0u8, 0x90u8, 0x90u8, 0x90u8, 0xe0u8, // D
        0xf0u8, 0x80u8, 0xf0u8, 0x80u8, 0xf0u8, // E
        0xf0u8, 0x80u8, 0xf0u8, 0x80u8, 0x80u8, // F
    ];
    assert(glyphs@ =~= font_bytes());
    glyphs
}

/// Relies on `rand::random::<u8>`: some byte from the thread-local generator.
#[verifier::external_body]
fn random_byte() -> u8 {
    rand::random::<u8>()
}

/// `(a - b) mod 256` for bytes.
proof fn lemma_wrapping_difference(a: u8, b: u8)
    ensures
        (a - b) % 256 == if a >= b { a - b } else { a + 256 - b },
{
    if a >= b {
        vstd::arithmetic::div_mod::lemma_small_mod((a - b) as nat, 256);
    } else {
        vstd::arithmetic::div_mod::lemma_fundamental_div_mod_converse(a - b, 256, -1, a + 256 - b);
    }
}

/// `a - b` wrapped to a byte.
fn wrapping_difference(a: u8, b: u8) -> (d: u8)
    ensures
        d == ((a - b) % 256) as u8,
{
    proof {
        lemma_wrapping_difference(a, b);
    }
    if a >= b {
        a - b
    } else {
        (a as u16 + 256 - b as u16) as u8
    }
}

impl CHIP8 {
    /// A machine at power-on: memory, registers, timers, keys and display
    /// all zero or off, the program counter at `0x200`, running.
    pub fn new() -> (m: CHIP8)
        ensures
            m@ == power_on(),
            well_formed(m@),
    {
        let m = CHIP8 {
            registers: [0; 16],
            i: 0,
            pc: PROGRAM_START,
            memory: [0; 4096],
            stack: Vec::new(),
            keypad: Keypad::new(),
            delay_timer: 0,
            sound_timer: 0,
            display: Display::new(),
            state: MachineState::Running,
        };
        assert(m.registers@ =~= Seq::new(16, |r: int| 0u8));
        assert(m.memory@ =~= Seq::new(4096, |a: int| 0u8));
        m
    }

    /// Installs the font at `0x050` and copies `program` to `0x200` on,
    /// truncated to the 3584 bytes that fit and followed by zeros.
    pub fn load_into_memory(&mut self, program: &[u8])
        requires
            well_formed(old(self)@),
        ensures
            final(self)@ == (MachineView {
                memory: loaded_memory(old(self)@.memory, program@),
                ..old(self)@
            }),
            well_formed(final(self)@),
    {
        let ghost start = self@;
        let glyphs = font_glyphs();
        let mut k: usize = 0;
        while k < 80
            invariant
                k <= 80,
                glyphs@ == font_bytes(),
                self@ == (MachineView { memory: self@.memory, ..start }),
                self@.memory.len() == 4096,
                forall|a: int|
                    0 <= a < 4096 ==> #[trigger] self@.memory[a] == if 0x50 <= a < 0x50 + k {
                        font_bytes()[a - 0x50]
                    } else {
                        start.memory[a]
                    },
            decreases 80 - k,
        {
            self.memory[FONT_START as usize + k] = glyphs[k];
            k = k + 1;
        }
        let mut a: usize = 0;
        while a < PROGRAM_CAPACITY
            invariant
                a <= 3584,
                self@ == (MachineView { memory: self@.memory, ..start }),
                self@.memory.len() == 4096,
                forall|m: int|
                    0 <= m < 4096 ==> #[trigger] self@.memory[m] == if 0x200 <= m < 0x200 + a {
                        if m - 0x200 < program@.len() {
                            program@[m - 0x200]
                        } else {
                            0u8
                        }
                    } else if 0x50 <= m < 0xA0 {
                        font_bytes()[m - 0x50]
                    } else {
                        start.memory[m]
                    },
            decreases 3584 - a,
        {
            let byte = if a < program.len() {
                program[a]
            } else {
                0
            };
            self.memory[PROGRAM_START as usize + a] = byte;
            a = a + 1;
        }
        assert(self@.memory =~= loaded_memory(start.memory, program@));
    }

    /// Records key `k` as pressed or released.
    pub fn set_key(&mut self, k: u8, pressed: bool)
        requires
            k < 16,
            well_formed(old(self)@),
        ensures
            final(self)@ == (MachineView {
                keys: old(self)@.keys.update(k as int, pressed),
                ..old(self)@
            }),
            well_formed(final(self)@),
    {
        self.keypad.set(k, pressed);
    }

    /// One tick of the 60 Hz timer clock: each timer above zero goes down
    /// by one.
    pub fn tick_timers(&mut self)
        requires
            well_formed(old(self)@),
        ensures
            final(self)@ == (MachineView {
                delay_timer: ticked(old(self)@.delay_timer),
                sound_timer: ticked(old(self)@.sound_timer),
                ..old(self)@
            }),
            well_formed(final(self)@),
    {
        if self.delay_timer > 0 {
            self.delay_timer = self.delay_timer - 1;
        }
        if self.sound_timer > 0 {
            self.sound_timer = self.sound_timer - 1;
        }
    }
}

impl CHIP8 {
    /// Skips the next instruction when `cond` holds.
    fn skip_next_if(&mut self, cond: bool)
        requires
            old(self).pc <= MEMORY_SIZE,
        ensures
            final(self)@ == skip_if(old(self)@, cond),
    {
        if cond {
            self.pc = self.pc + 2;
        }
    }

    /// `00E0`: turns every pixel off.
    fn clear_screen(&mut self)
        requires
            well_formed(old(self)@),
        ensures
            executes_to(old(self)@, Instruction::ClearScreen, 0, final(self)@),
    {
        self.display.clear();
    }

    /// `1nnn`: jumps to `addr`.
    fn goto(&mut self, addr: u16)
        ensures
            executes_to(old(self)@, Instruction::Jump { addr }, 0, final(self)@),
    {
        self.pc = addr;
    }

    /// `2nnn`: pushes the program counter and jumps to `addr`; a seventeenth
    /// nested call overflows the stack.
    fn call(&mut self, addr: u16) -> (r: Result<(), ErrorKind>)
        requires
            well_formed(old(self)@),
        ensures
            executed(old(self)@, Instruction::Call { addr }, 0, r, final(self)@),
    {
        if self.stack.len() >= STACK_DEPTH {
            return Err(ErrorKind::StackOverflow);
        }
        self.stack.push(self.pc);
        self.pc = addr;
        Ok(())
    }

    /// `00EE`: pops the return address into the program counter; a return
    /// with an empty stack underflows it.
    fn ret(&mut self) -> (r: Result<(), ErrorKind>)
        requires
            well_formed(old(self)@),
        ensures
            executed(old(self)@, Instruction::Return, 0, r, final(self)@),
    {
        match self.stack.pop() {
            Some(addr) => {
                self.pc = addr;
                Ok(())
            },
            None => Err(ErrorKind::StackUnderflow),
        }
    }

    /// `3xnn`: skips the next instruction if `Vx == nn`.
    fn skip_if_equal(&mut self, x: u8, nn: u8)
        requires
            well_formed(old(self)@),
            x < 16,
            old(self).pc <= MEMORY_SIZE,
        ensures
            executes_to(old(self)@, Instruction::SkipIfEqual { x, nn }, 0, final(self)@),
    {
        let cond = self.registers[x as usize] == nn;
        self.skip_next_if(cond);
    }

    /// `4xnn`: skips the next instruction if `Vx != nn`.
    fn skip_if_not_equal(&mut self, x: u8, nn: u8)
        requires
            well_formed(old(self)@),
            x < 16,
            old(self).pc <= MEMORY_SIZE,
        ensures
            executes_to(old(self)@, Instruction::SkipIfNotEqual { x, nn }, 0, final(self)@),
    {
        let cond = self.registers[x as usize] != nn;
        self.skip_next_if(cond);
    }

    /// `5xy0`: skips the next instruction if `Vx == Vy`.
    fn skip_xy_equal(&mut self, x: u8, y: u8)
        requires
            well_formed(old(self)@),
            x < 16,
            y < 16,
            old(self).pc <= MEMORY_SIZE,
        ensures
            executes_to(old(self)@, Instruction::SkipIfRegistersEqual { x, y }, 0, final(self)@),
    {
        let cond = self.registers[x as usize] == self.registers[y as usize];
        self.skip_next_if(cond);
    }

    /// `6xnn`: `Vx = nn`.
    fn set_xnn(&mut self, x: u8, nn: u8)
        requires
            well_formed(old(self)@),
            x < 16,
        ensures
            executes_to(old(self)@, Instruction::SetImmediate { x, nn }, 0, final(self)@),
    {
        self.registers[x as usize] = nn;
    }

    /// `7xnn`: `Vx += nn`, wrapping; `VF` is left alone.
    fn add_xnn(&mut self, x: u8, nn: u8)
        requires
            well_formed(old(self)@),
            x < 16,
        ensures
            executes_to(old(self)@, Instruction::AddImmediate { x, nn }, 0, final(self)@),
    {
        let sum = self.registers[x as usize] as u16 + nn as u16;
        self.registers[x as usize] = (sum % 256) as u8;
    }

    /// `8xy0`: `Vx = Vy`.
    fn assign_xy(&mut self, x: u8, y: u8)
        requires
            well_formed(old(self)@),
            x < 16,
            y < 16,
        ensures
            executes_to(old(self)@, Instruction::Assign { x, y }, 0, final(self)@),
    {
        self.registers[x as usize] = self.registers[y as usize];
    }

    /// `8xy1`: `Vx |= Vy`.
    fn or_xy(&mut self, x: u8, y: u8)
        requires
            well_formed(old(self)@),
            x < 16,
            y < 16,
        ensures
            executes_to(old(self)@, Instruction::Or { x, y }, 0, final(self)@),
    {
        self.registers[x as usize] = self.registers[x as usize] | self.registers[y as usize];
    }

    /// `8xy2`: `Vx &= Vy`.
    fn and_xy(&mut self, x: u8, y: u8)
        requires
            well_formed(old(self)@),
            x < 16,
            y < 16,
        ensures
            executes_to(old(self)@, Instruction::And { x, y }, 0, final(self)@),
    {
        self.registers[x as usize] = self.registers[x as usize] & self.registers[y as usize];
    }

    /// `8xy3`: `Vx ^= Vy`.
    fn xor_xy(&mut self, x: u8, y: u8)
        requires
            well_formed(old(self)@),
            x < 16,
            y < 16,
        ensures
            executes_to(old(self)@, Instruction::Xor { x, y }, 0, final(self)@),
    {
        self.registers[x as usize] = self.registers[x as usize] ^ self.registers[y as usize];
    }

    /// `8xy4`: `Vx += Vy`; `VF` becomes 1 when the sum exceeds 255, else 0.
    fn add_xy(&mut self, x: u8, y: u8)
        requires
            well_formed(old(self)@),
            x < 16,
            y < 16,
        ensures
            executes_to(old(self)@, Instruction::AddWithCarry { x, y }, 0, final(self)@),
    {
        let sum = self.registers[x as usize] as u16 + self.registers[y as usize] as u16;
        self.registers[FLAG] = if sum > 0xFF {
            1
        } else {
            0
        };
        self.registers[x as usize] = (sum % 256) as u8;
    }

    /// `8xy5`: `Vx -= Vy`, wrapping; `VF` becomes 1 when `Vx > Vy` before.
    fn sub_xy(&mut self, x: u8, y: u8)
        requires
            well_formed(old(self)@),
            x < 16,
            y < 16,
        ensures
            executes_to(old(self)@, Instruction::Subtract { x, y }, 0, final(self)@),
    {
        let vx = self.registers[x as usize];
        let vy = self.registers[y as usize];
        self.registers[FLAG] = if vx > vy {
            1
        } else {
            0
        };
        self.registers[x as usize] = wrapping_difference(vx, vy);
    }

    /// `8xy6`: `Vx >>= 1`; `VF` takes the bit shifted out.
    fn shift_right(&mut self, x: u8)
        requires
            well_formed(old(self)@),
            x < 16,
        ensures
            executes_to(old(self)@, Instruction::ShiftRight { x }, 0, final(self)@),
    {
        let vx = self.registers[x as usize];
        assert(vx & 1 == vx % 2 && vx >> 1 == vx / 2) by (bit_vector);
        self.registers[FLAG] = vx & 1;
        self.registers[x as usize] = vx >> 1;
    }

    /// `8xy7`: `Vx = Vy - Vx`, wrapping; `VF` becomes 1 when `Vy > Vx` before.
    fn sub_yx(&mut self, x: u8, y: u8)
        requires
            well_formed(old(self)@),
            x < 16,
            y < 16,
        ensures
            executes_to(old(self)@, Instruction::SubtractReversed { x, y }, 0, final(self)@),
    {
        let vx = self.registers[x as usize];
        let vy = self.registers[y as usize];
        self.registers[FLAG] = if vy > vx {
            1
        } else {
            0
        };
        self.registers[x as usize] = wrapping_difference(vy, vx);
    }

    /// `8xyE`: `Vx <<= 1`; `VF` takes the bit shifted out.
    fn shift_left(&mut self, x: u8)
        requires
            well_formed(old(self)@),
            x < 16,
        ensures
            executes_to(old(self)@, Instruction::ShiftLeft { x }, 0, final(self)@),
    {
        let vx = self.registers[x as usize];
        assert((vx & 0x80) >> 7 == (if vx >= 128 { 1u8 } else { 0u8 })) by (bit_vector);
        assert(vx << 1 == (vx * 2) % 256) by (bit_vector);
        self.registers[FLAG] = (vx & 0x80) >> 7;
        self.registers[x as usize] = vx << 1;
    }

    /// `9xy0`: skips the next instruction if `Vx != Vy`.
    fn skip_xy_not_equal(&mut self, x: u8, y: u8)
        requires
            well_formed(old(self)@),
            x < 16,
            y < 16,
            old(self).pc <= MEMORY_SIZE,
        ensures
            executes_to(old(self)@, Instruction::SkipIfRegistersNotEqual { x, y }, 0, final(self)@),
    {
        let cond = self.registers[x as usize] != self.registers[y as usize];
        self.skip_next_if(cond);
    }

    /// `Annn`: `I = addr`.
    fn set_16bit_register(&mut self, addr: u16)
        ensures
            executes_to(old(self)@, Instruction::SetIndex { addr }, 0, final(self)@),
    {
        self.i = addr;
    }

    /// `Bnnn`: jumps to `addr + V0`.
    fn jump_nnn_plus_v0(&mut self, addr: u16)
        requires
            well_formed(old(self)@),
            addr < 4096,
        ensures
            executes_to(old(self)@, Instruction::JumpPlusV0 { addr }, 0, final(self)@),
    {
        self.pc = self.registers[0] as u16 + addr;
    }

    /// `Cxnn`: `Vx = rnd & nn`.
    fn rand(&mut self, x: u8, nn: u8, rnd: u8)
        requires
            well_formed(old(self)@),
            x < 16,
        ensures
            executes_to(old(self)@, Instruction::Random { x, nn }, rnd, final(self)@),
    {
        self.registers[x as usize] = rnd & nn;
    }

    /// `Ex9E`: skips the next instruction if key `Vx` is pressed; a key
    /// index above `0xF` is out of range.
    fn skip_if_key_pressed(&mut self, x: u8) -> (r: Result<(), ErrorKind>)
        requires
            well_formed(old(self)@),
            x < 16,
            old(self).pc <= MEMORY_SIZE,
        ensures
            executed(old(self)@, Instruction::SkipIfKeyPressed { x }, 0, r, final(self)@),
    {
        let k = self.registers[x as usize];
        if k >= 16 {
            return Err(ErrorKind::OutOfBoundsAccess);
        }
        let cond = self.keypad.is_pressed(k);
        self.skip_next_if(cond);
        Ok(())
    }

    /// `ExA1`: skips the next instruction if key `Vx` is not pressed; a key
    /// index above `0xF` is out of range.
    fn skip_if_key_not_pressed(&mut self, x: u8) -> (r: Result<(), ErrorKind>)
        requires
            well_formed(old(self)@),
            x < 16,
            old(self).pc <= MEMORY_SIZE,
        ensures
            executed(old(self)@, Instruction::SkipIfKeyNotPressed { x }, 0, r, final(self)@),
    {
        let k = self.registers[x as usize];
        if k >= 16 {
            return Err(ErrorKind::OutOfBoundsAccess);
        }
        let cond = !self.keypad.is_pressed(k);
        self.skip_next_if(cond);
        Ok(())
    }

    /// `Fx07`: `Vx = delay timer`.
    fn set_x_to_delay_timer(&mut self, x: u8)
        requires
            well_formed(old(self)@),
            x < 16,
        ensures
            executes_to(old(self)@, Instruction::ReadDelayTimer { x }, 0, final(self)@),
    {
        self.registers[x as usize] = self.delay_timer;
    }

    /// `Fx0A`: stores the lowest pressed key in `Vx`, or suspends the
    /// machine until a key is pressed.
    fn set_x_to_keypress(&mut self, x: u8)
        requires
            well_formed(old(self)@),
            x < 16,
        ensures
            executes_to(old(self)@, Instruction::WaitForKey { x }, 0, final(self)@),
    {
        match self.keypad.first_pressed() {
            Some(k) => {
                self.registers[x as usize] = k;
            },
            None => {
                self.state = MachineState::WaitingForKey { x };
            },
        }
    }

    /// `Fx15`: `delay timer = Vx`.
    fn set_delay_timer_to_x(&mut self, x: u8)
        requires
            well_formed(old(self)@),
            x < 16,
        ensures
            executes_to(old(self)@, Instruction::SetDelayTimer { x }, 0, final(self)@),
    {
        self.delay_timer = self.registers[x as usize];
    }

    /// `Fx18`: `sound timer = Vx`.
    fn set_sound_timer_to_x(&mut self, x: u8)
        requires
            well_formed(old(self)@),
            x < 16,
        ensures
            executes_to(old(self)@, Instruction::SetSoundTimer { x }, 0, final(self)@),
    {
        self.sound_timer = self.registers[x as usize];
    }

    /// `Fx1E`: `I += Vx`, wrapping at 16 bits.
    fn add_ix(&mut self, x: u8)
        requires
            well_formed(old(self)@),
            x < 16,
        ensures
            executes_to(old(self)@, Instruction::AddToIndex { x }, 0, final(self)@),
    {
        let sum = self.i as u32 + self.registers[x as usize] as u32;
        self.i = (sum % 65536) as u16;
    }

    /// `Fx29`: points `I` at the font glyph of `Vx`.
    fn set_i_sprite_addr_x(&mut self, x: u8)
        requires
            well_formed(old(self)@),
            x < 16,
        ensures
            executes_to(old(self)@, Instruction::SetIndexToGlyph { x }, 0, final(self)@),
    {
        self.i = FONT_START + GLYPH_SIZE * (self.registers[x as usize] as u16);
    }

    /// `Dxyn`: draws the `n`-byte sprite at `I` at `(Vx, Vy)`; `VF` becomes 1
    /// when a lit pixel goes off, else 0. A sprite that runs past the end of
    /// memory is out of range.
    fn draw(&mut self, x: u8, y: u8, n: u8) -> (r: Result<(), ErrorKind>)
        requires
            well_formed(old(self)@),
            x < 16,
            y < 16,
            n < 16,
        ensures
            executed(old(self)@, Instruction::Draw { x, y, n }, 0, r, final(self)@),
            well_formed(final(self)@),
    {
        let start = self.i as usize;
        if start + n as usize > MEMORY_SIZE {
            return Err(ErrorKind::OutOfBoundsAccess);
        }
        let mut sprite: Vec<u8> = Vec::new();
        let mut k: usize = 0;
        while k < n as usize
            invariant
                k <= n,
                start + n <= 4096,
                start == self.i,
                self.memory@.len() == 4096,
                sprite@ == self.memory@.subrange(start as int, start + k),
            decreases n - k,
        {
            sprite.push(self.memory[start + k]);
            k = k + 1;
            assert(sprite@ =~= self.memory@.subrange(start as int, start + k));
        }
        let vx = self.registers[x as usize];
        let vy = self.registers[y as usize];
        let hit = self.display.draw_sprite(vx, vy, sprite.as_slice());
        self.registers[FLAG] = if hit {
            1
        } else {
            0
        };
        Ok(())
    }

    /// `Fx33`: stores the hundreds, tens and ones digits of `Vx` at `I`,
    /// `I + 1` and `I + 2`. Digits that run past the end of memory are out
    /// of range.
    fn set_bcd(&mut self, x: u8) -> (r: Result<(), ErrorKind>)
        requires
            well_formed(old(self)@),
            x < 16,
        ensures
            executed(old(self)@, Instruction::StoreBcd { x }, 0, r, final(self)@),
    {
        let start = self.i as usize;
        if start + 3 > MEMORY_SIZE {
            return Err(ErrorKind::OutOfBoundsAccess);
        }
        let vx = self.registers[x as usize];
        self.memory[start] = vx / 100;
        self.memory[start + 1] = (vx / 10) % 10;
        self.memory[start + 2] = vx % 10;
        Ok(())
    }

    /// `Fx55`: stores `V0..=Vx` in memory from `I` on. Bytes that run past
    /// the end of memory are out of range.
    fn reg_dump(&mut self, x: u8) -> (r: Result<(), ErrorKind>)
        requires
            well_formed(old(self)@),
            x < 16,
        ensures
            executed(old(self)@, Instruction::DumpRegisters { x }, 0, r, final(self)@),
    {
        let start = self.i as usize;
        if start + x as usize + 1 > MEMORY_SIZE {
            return Err(ErrorKind::OutOfBoundsAccess);
        }
        let ghost before = self@;
        let mut k: usize = 0;
        while k <= x as usize
            invariant
                k <= x + 1,
                x < 16,
                start == before.index,
                start + x + 1 <= 4096,
                self@ == (MachineView { memory: self@.memory, ..before }),
                self@.memory =~= registers_dumped(before.memory, before.registers, start as int, k - 1),
            decreases x + 1 - k,
        {
            self.memory[start + k] = self.registers[k];
            k = k + 1;
        }
        Ok(())
    }

    /// `Fx65`: loads `V0..=Vx` from memory from `I` on. Bytes that run past
    /// the end of memory are out of range.
    fn reg_load(&mut self, x: u8) -> (r: Result<(), ErrorKind>)
        requires
            well_formed(old(self)@),
            x < 16,
        ensures
            executed(old(self)@, Instruction::LoadRegisters { x }, 0, r, final(self)@),
    {
        let start = self.i as usize;
        if start + x as usize + 1 > MEMORY_SIZE {
            return Err(ErrorKind::OutOfBoundsAccess);
        }
        let ghost before = self@;
        let mut k: usize = 0;
        while k <= x as usize
            invariant
                k <= x + 1,
                x < 16,
                start == before.index,
                start + x + 1 <= 4096,
                self@ == (MachineView { registers: self@.registers, ..before }),
                self@.registers =~= registers_loaded(before.registers, before.memory, start as int, k - 1),
            decreases x + 1 - k,
        {
            self.registers[k] = self.memory[start + k];
            k = k + 1;
        }
        Ok(())
    }
}

impl CHIP8 {
    /// Executes an instruction whose word has already been fetched (the
    /// program counter points past it). `rnd` is the byte that `Cxnn` masks.
    /// A fault leaves the machine as it was.
    pub fn execute(&mut self, ins: Instruction, rnd: u8) -> (r: Result<(), ErrorKind>)
        requires
            well_formed(old(self)@),
            operands_in_range(ins),
            old(self).pc <= MEMORY_SIZE,
        ensures
            executed(old(self)@, ins, rnd, r, final(self)@),
            well_formed(final(self)@),
    {
        match ins {
            Instruction::Halt => {
                self.state = MachineState::Halted;
                Ok(())
            },
            Instruction::ClearScreen => {
                self.clear_screen();
                Ok(())
            },
            Instruction::Return => self.ret(),
            Instruction::Jump { addr } => {
                self.goto(addr);
                Ok(())
            },
            Instruction::Call { addr } => self.call(addr),
            Instruction::SkipIfEqual { x, nn } => {
                self.skip_if_equal(x, nn);
                Ok(())
            },
            Instruction::SkipIfNotEqual { x, nn } => {
                self.skip_if_not_equal(x, nn);
                Ok(())
            },
            Instruction::SkipIfRegistersEqual { x, y } => {
                self.skip_xy_equal(x, y);
                Ok(())
            },
            Instruction::SetImmediate { x, nn } => {
                self.set_xnn(x, nn);
                Ok(())
            },
            Instruction::AddImmediate { x, nn } => {
                self.add_xnn(x, nn);
                Ok(())
            },
            Instruction::Assign { x, y } => {
                self.assign_xy(x, y);
                Ok(())
            },
            Instruction::Or { x, y } => {
                self.or_xy(x, y);
                Ok(())
            },
            Instruction::And { x, y } => {
                self.and_xy(x, y);
                Ok(())
            },
            Instruction::Xor { x, y } => {
                self.xor_xy(x, y);
                Ok(())
            },
            Instruction::AddWithCarry { x, y } => {
                self.add_xy(x, y);
                Ok(())
            },
            Instruction::Subtract { x, y } => {
                self.sub_xy(x, y);
                Ok(())
            },
            Instruction::ShiftRight { x } => {
                self.shift_right(x);
                Ok(())
            },
            Instruction::SubtractReversed { x, y } => {
                self.sub_yx(x, y);
                Ok(())
            },
            Instruction::ShiftLeft { x } => {
                self.shift_left(x);
                Ok(())
            },
            Instruction::SkipIfRegistersNotEqual { x, y } => {
                self.skip_xy_not_equal(x, y);
                Ok(())
            },
            Instruction::SetIndex { addr } => {
                self.set_16bit_register(addr);
                Ok(())
            },
            Instruction::JumpPlusV0 { addr } => {
                self.jump_nnn_plus_v0(addr);
                Ok(())
            },
            Instruction::Random { x, nn } => {
                self.rand(x, nn, rnd);
                Ok(())
            },
            Instruction::Draw { x, y, n } => self.draw(x, y, n),
            Instruction::SkipIfKeyPressed { x } => self.skip_if_key_pressed(x),
            Instruction::SkipIfKeyNotPressed { x } => self.skip_if_key_not_pressed(x),
            Instruction::ReadDelayTimer { x } => {
                self.set_x_to_delay_timer(x);
                Ok(())
            },
            Instruction::WaitForKey { x } => {
                self.set_x_to_keypress(x);
                Ok(())
            },
            Instruction::SetDelayTimer { x } => {
                self.set_delay_timer_to_x(x);
                Ok(())
            },
            Instruction::SetSoundTimer { x } => {
                self.set_sound_timer_to_x(x);
                Ok(())
            },
            Instruction::AddToIndex { x } => {
                self.add_ix(x);
                Ok(())
            },
            Instruction::SetIndexToGlyph { x } => {
                self.set_i_sprite_addr_x(x);
                Ok(())
            },
            Instruction::StoreBcd { x } => self.set_bcd(x),
            Instruction::DumpRegisters { x } => self.reg_dump(x),
            Instruction::LoadRegisters { x } => self.reg_load(x),
        }
    }

    /// One step with `rnd` as the random byte: a halted machine stays
    /// halted; a waiting one takes the lowest pressed key, if any, and runs
    /// on; a running one fetches, decodes and executes the instruction at
    /// the program counter. Returns the state after the step; a fault leaves
    /// the machine as it was.
    pub fn step_with(&mut self, rnd: u8) -> (r: Result<MachineState, Fault>)
        requires
            well_formed(old(self)@),
        ensures
            stepped(old(self)@, rnd, r, final(self)@),
            well_formed(final(self)@),
    {
        reveal(step_spec);
        match self.state {
            MachineState::Halted => Ok(MachineState::Halted),
            MachineState::WaitingForKey { x } => match self.keypad.first_pressed() {
                Some(k) => {
                    self.registers[x as usize] = k;
                    self.state = MachineState::Running;
                    Ok(MachineState::Running)
                },
                None => Ok(self.state),
            },
            MachineState::Running => {
                let pc = self.pc;
                if pc as usize + 1 >= MEMORY_SIZE {
                    return Err(Fault { kind: ErrorKind::OutOfBoundsAccess, address: pc, opcode: 0 });
                }
                let word = join_bytes(self.memory[pc as usize], self.memory[pc as usize + 1]);
                match decode(word) {
                    None => Err(Fault { kind: ErrorKind::InvalidOpcode, address: pc, opcode: word }),
                    Some(ins) => {
                        self.pc = pc + 2;
                        match self.execute(ins, rnd) {
                            Ok(()) => Ok(self.state),
                            Err(kind) => {
                                self.pc = pc;
                                Err(Fault { kind, address: pc, opcode: word })
                            },
                        }
                    },
                }
            },
        }
    }

    /// Whether the next step executes a `Cxnn`, which needs a random byte.
    fn next_needs_random(&self) -> bool {
        match self.state {
            MachineState::Running => {
                let pc = self.pc as usize;
                pc + 1 < MEMORY_SIZE && self.memory[pc] >> 4 == 0xC
            },
            _ => false,
        }
    }

    /// One step, drawing a random byte from the system generator when the
    /// instruction is `Cxnn`. What holds is what `step_with` gives for some
    /// byte.
    pub fn step(&mut self) -> (r: Result<MachineState, Fault>)
        requires
            well_formed(old(self)@),
        ensures
            exists|rnd: u8| stepped(old(self)@, rnd, r, final(self)@),
            well_formed(final(self)@),
    {
        let rnd = if self.next_needs_random() {
            random_byte()
        } else {
            0
        };
        self.step_with(rnd)
    }

    /// Steps while the machine is running, at most `max_steps` times.
    /// Returns the state it stopped in (still running only when the steps
    /// ran out) or the fault that stopped it; the machine is then as the
    /// faulting step found it.
    pub fn run(&mut self, max_steps: u64) -> (r: Result<MachineState, Fault>)
        requires
            well_formed(old(self)@),
        ensures
            exists|rnds: Seq<u8>|
                {
                    &&& rnds.len() <= max_steps
                    &&& ran(old(self)@, rnds, r, final(self)@)
                    &&& r == Ok::<MachineState, Fault>(MachineState::Running) ==> rnds.len()
                        == max_steps
                },
            well_formed(final(self)@),
    {
        let ghost start = self@;
        let ghost mut rnds: Seq<u8> = Seq::empty();
        let mut count: u64 = 0;
        while count < max_steps && self.state == MachineState::Running
            invariant
                start == old(self)@,
                well_formed(self@),
                count <= max_steps,
                rnds.len() == count,
                run_spec(start, rnds) == Ok::<MachineView, Fault>(self@),
            decreases max_steps - count,
        {
            let ghost before = self@;
            let r = self.step();
            proof {
                let b = choose|b: u8| stepped(before, b, r, self@);
                let prior = rnds;
                rnds = rnds.push(b);
                assert(rnds.drop_last() =~= prior);
                assert(run_spec(start, rnds) == step_spec(before, b));
            }
            match r {
                Err(f) => {
                    assert(rnds.len() <= max_steps && ran(start, rnds, Err(f), self@));
                    return Err(f);
                },
                Ok(_) => {},
            }
            count = count + 1;
        }
        Ok(self.state)
    }

    /// Loads `program` (see `load_into_memory`) and runs it for at most
    /// `max_steps` steps (see `run`).
    pub fn load_and_run(&mut self, program: &[u8], max_steps: u64) -> (r: Result<
        MachineState,
        Fault,
    >)
        requires
            well_formed(old(self)@),
        ensures
            exists|rnds: Seq<u8>|
                {
                    &&& rnds.len() <= max_steps
                    &&& ran(
                        MachineView { memory: loaded_memory(old(self)@.memory, program@), ..old(self)@ },
                        rnds,
                        r,
                        final(self)@,
                    )
                    &&& r == Ok::<MachineState, Fault>(MachineState::Running) ==> rnds.len()
                        == max_steps
                },
            well_formed(final(self)@),
    {
        self.load_into_memory(program);
        self.run(max_steps)
    }

    /// The display as `0xRRGGBB` values, row by row: lit pixels in the
    /// tint `color`, unlit ones black.
    pub fn frame(&self, color: Color) -> (buf: Vec<u32>)
        ensures
            buf@ == Seq::new(2048, |i: int| if self@.display[i] { rgb_of(color) } else { OFF_RGB }),
    {
        self.display.frame_buffer(color.hex_color())
    }
}

} // verus!
