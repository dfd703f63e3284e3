//! The machine as a mathematical value, and what one step does to it.

use vstd::prelude::*;
use crate::display::{blit, collides};
use crate::keypad::lowest_pressed;
use crate::opcode::{decode_spec, word_of, Instruction};

verus! {

/// Bytes of memory.
pub const MEMORY_SIZE: usize = 4096;

/// Nested calls that the stack holds.
pub const STACK_DEPTH: usize = 16;

/// The flag register `VF`.
pub const FLAG: usize = 15;

/// Where programs are loaded and where execution starts.
pub const PROGRAM_START: u16 = 0x200;

/// Where the font glyphs are installed.
pub const FONT_START: u16 = 0x50;

/// Bytes per font glyph.
pub const GLYPH_SIZE: u16 = 5;

/// Bytes of program that fit between the load origin and the end of memory.
pub const PROGRAM_CAPACITY: usize = 3584;

/// Where the machine is in its fetch-decode-execute cycle.
#[derive(Clone, Copy, Debug, PartialEq, Eq, Structural)]
pub enum MachineState {
    /// Executing instructions.
    Running,
    /// Suspended by `Fx0A` until a key is pressed; the key goes to `Vx`.
    WaitingForKey { x: u8 },
    /// Stopped by the halt instruction.
    Halted,
}

/// The kinds of fault that stop a run.
#[derive(Clone, Copy, Debug, PartialEq, Eq, Structural)]
pub enum ErrorKind {
    /// A call with sixteen return addresses already on the stack.
    StackOverflow,
    /// A return with no return address on the stack.
    StackUnderflow,
    /// A word that encodes no operation.
    InvalidOpcode,
    /// A memory address or key index outside its range.
    OutOfBoundsAccess,
}

/// A fault, with the address of the instruction that raised it and the
/// instruction word (`0` when the word itself could not be fetched).
#[derive(Clone, Copy, Debug, PartialEq, Eq, Structural)]
pub struct Fault {
    pub kind: ErrorKind,
    pub address: u16,
    pub opcode: u16,
}

/// The whole machine state.
pub struct MachineView {
    /// `V0` to `VF`.
    pub registers: Seq<u8>,
    /// The index register `I`.
    pub index: u16,
    /// The program counter.
    pub pc: u16,
    pub memory: Seq<u8>,
    /// Return addresses, the innermost call last.
    pub stack: Seq<u16>,
    pub keys: Seq<bool>,
    pub delay_timer: u8,
    pub sound_timer: u8,
    /// Pixels, row by row.
    pub display: Seq<bool>,
    pub state: MachineState,
}

/// The sizes that every machine state has.
pub open spec fn well_formed(v: MachineView) -> bool {
    &&& v.registers.len() == 16
    &&& v.memory.len() == 4096
    &&& v.stack.len() <= 16
    &&& v.keys.len() == 16
    &&& v.display.len() == 2048
    &&& v.state matches MachineState::WaitingForKey { x } ==> x < 16
}

/// `v` with register `x` set to `val`.
pub open spec fn with_register(v: MachineView, x: int, val: u8) -> MachineView {
    MachineView { registers: v.registers.update(x, val), ..v }
}

/// `v` with `VF` set to `flag` and then register `x` set to `val`.
pub open spec fn with_flag_then(v: MachineView, flag: bool, x: int, val: u8) -> MachineView {
    with_register(with_register(v, 15, if flag { 1 } else { 0 }), x, val)
}

/// `v` with the program counter at `pc`.
pub open spec fn with_pc(v: MachineView, pc: u16) -> MachineView {
    MachineView { pc, ..v }
}

/// `v` with the next instruction skipped when `cond` holds.
pub open spec fn skip_if(v: MachineView, cond: bool) -> MachineView {
    if cond {
        with_pc(v, (v.pc + 2) as u16)
    } else {
        v
    }
}

/// The `n` bytes of sprite at `I`.
pub open spec fn sprite_at(v: MachineView, n: u8) -> Seq<u8> {
    v.memory.subrange(v.index as int, v.index + n)
}

/// Memory with the decimal digits of `val` at `i`, `i + 1`, `i + 2`.
pub open spec fn bcd_written(memory: Seq<u8>, i: int, val: u8) -> Seq<u8> {
    memory.update(i, val / 100).update(i + 1, (val / 10) % 10).update(i + 2, val % 10)
}

/// Memory with `V0..=Vx` stored from `i` on.
pub open spec fn registers_dumped(memory: Seq<u8>, registers: Seq<u8>, i: int, x: int) -> Seq<u8> {
    Seq::new(memory.len(), |a: int| if i <= a <= i + x { registers[a - i] } else { memory[a] })
}

/// Registers with `V0..=Vx` loaded from memory at `i` on.
pub open spec fn registers_loaded(registers: Seq<u8>, memory: Seq<u8>, i: int, x: int) -> Seq<u8> {
    Seq::new(registers.len(), |r: int| if r <= x { memory[i + r] } else { registers[r] })
}

/// What instruction `ins` does to state `v`, whose program counter already
/// points past it; `rnd` is the random byte that `Cxnn` masks.
pub open spec fn execute_spec(v: MachineView, ins: Instruction, rnd: u8) -> Result<
    MachineView,
    ErrorKind,
> {
    let reg = v.registers;
    match ins {
        Instruction::Halt => Ok(MachineView { state: MachineState::Halted, ..v }),
        Instruction::ClearScreen => Ok(MachineView { display: Seq::new(2048, |i: int| false), ..v }),
        Instruction::Return => if v.stack.len() == 0 {
            Err(ErrorKind::StackUnderflow)
        } else {
            Ok(MachineView { pc: v.stack.last(), stack: v.stack.drop_last(), ..v })
        },
        Instruction::Jump { addr } => Ok(with_pc(v, addr)),
        Instruction::Call { addr } => if v.stack.len() >= 16 {
            Err(ErrorKind::StackOverflow)
        } else {
            Ok(MachineView { pc: addr, stack: v.stack.push(v.pc), ..v })
        },
        Instruction::SkipIfEqual { x, nn } => Ok(skip_if(v, reg[x as int] == nn)),
        Instruction::SkipIfNotEqual { x, nn } => Ok(skip_if(v, reg[x as int] != nn)),
        Instruction::SkipIfRegistersEqual { x, y } => Ok(skip_if(v, reg[x as int] == reg[y as int])),
        Instruction::SetImmediate { x, nn } => Ok(with_register(v, x as int, nn)),
        Instruction::AddImmediate { x, nn } => Ok(
            with_register(v, x as int, ((reg[x as int] + nn) % 256) as u8),
        ),
        Instruction::Assign { x, y } => Ok(with_register(v, x as int, reg[y as int])),
        Instruction::Or { x, y } => Ok(with_register(v, x as int, reg[x as int] | reg[y as int])),
        Instruction::And { x, y } => Ok(with_register(v, x as int, reg[x as int] & reg[y as int])),
        Instruction::Xor { x, y } => Ok(with_register(v, x as int, reg[x as int] ^ reg[y as int])),
        Instruction::AddWithCarry { x, y } => {
            let sum = reg[x as int] + reg[y as int];
            Ok(with_flag_then(v, sum > 255, x as int, (sum % 256) as u8))
        },
        Instruction::Subtract { x, y } => Ok(
            with_flag_then(
                v,
                reg[x as int] > reg[y as int],
                x as int,
                ((reg[x as int] - reg[y as int]) % 256) as u8,
            ),
        ),
        Instruction::ShiftRight { x } => Ok(
            with_flag_then(v, reg[x as int] % 2 == 1, x as int, (reg[x as int] / 2) as u8),
        ),
        Instruction::SubtractReversed { x, y } => Ok(
            with_flag_then(
                v,
                reg[y as int] > reg[x as int],
                x as int,
                ((reg[y as int] - reg[x as int]) % 256) as u8,
            ),
        ),
        Instruction::ShiftLeft { x } => Ok(
            with_flag_then(v, reg[x as int] >= 128, x as int, ((reg[x as int] * 2) % 256) as u8),
        ),
        Instruction::SkipIfRegistersNotEqual { x, y } => Ok(
            skip_if(v, reg[x as int] != reg[y as int]),
        ),
        Instruction::SetIndex { addr } => Ok(MachineView { index: addr, ..v }),
        Instruction::JumpPlusV0 { addr } => Ok(with_pc(v, (addr + reg[0]) as u16)),
        Instruction::Random { x, nn } => Ok(with_register(v, x as int, rnd & nn)),
        Instruction::Draw { x, y, n } => if v.index + n > 4096 {
            Err(ErrorKind::OutOfBoundsAccess)
        } else {
            let sprite = sprite_at(v, n);
            let hit = collides(v.display, sprite, reg[x as int], reg[y as int]);
            let drawn = MachineView {
                display: blit(v.display, sprite, reg[x as int], reg[y as int]),
                ..v
            };
            Ok(with_register(drawn, 15, if hit { 1 } else { 0 }))
        },
        Instruction::SkipIfKeyPressed { x } => if reg[x as int] >= 16 {
            Err(ErrorKind::OutOfBoundsAccess)
        } else {
            Ok(skip_if(v, v.keys[reg[x as int] as int]))
        },
        Instruction::SkipIfKeyNotPressed { x } => if reg[x as int] >= 16 {
            Err(ErrorKind::OutOfBoundsAccess)
        } else {
            Ok(skip_if(v, !v.keys[reg[x as int] as int]))
        },
        Instruction::ReadDelayTimer { x } => Ok(with_register(v, x as int, v.delay_timer)),
        Instruction::WaitForKey { x } => match lowest_pressed(v.keys) {
            Some(k) => Ok(with_register(v, x as int, k)),
            None => Ok(MachineView { state: MachineState::WaitingForKey { x }, ..v }),
        },
        Instruction::SetDelayTimer { x } => Ok(MachineView { delay_timer: reg[x as int], ..v }),
        Instruction::SetSoundTimer { x } => Ok(MachineView { sound_timer: reg[x as int], ..v }),
        Instruction::AddToIndex { x } => Ok(
            MachineView { index: ((v.index + reg[x as int]) % 65536) as u16, ..v },
        ),
        Instruction::SetIndexToGlyph { x } => Ok(
            MachineView { index: (0x50 + 5 * reg[x as int]) as u16, ..v },
        ),
        Instruction::StoreBcd { x } => if v.index + 3 > 4096 {
            Err(ErrorKind::OutOfBoundsAccess)
        } else {
            Ok(
                MachineView {
                    memory: bcd_written(v.memory, v.index as int, reg[x as int]),
                    ..v
                },
            )
        },
        Instruction::DumpRegisters { x } => if v.index + x + 1 > 4096 {
            Err(ErrorKind::OutOfBoundsAccess)
        } else {
            Ok(MachineView { memory: registers_dumped(v.memory, reg, v.index as int, x as int), ..v })
        },
        Instruction::LoadRegisters { x } => if v.index + x + 1 > 4096 {
            Err(ErrorKind::OutOfBoundsAccess)
        } else {
            Ok(
                MachineView {
                    registers: registers_loaded(reg, v.memory, v.index as int, x as int),
                    ..v
                },
            )
        },
    }
}

/// The instruction word at the program counter.
pub open spec fn word_at_pc(v: MachineView) -> u16 {
    word_of(v.memory[v.pc as int], v.memory[v.pc + 1])
}

/// One step of the machine: a halted machine stays as it is; a waiting one
/// takes the lowest pressed key, if any, and runs on; a running one fetches
/// the word at the program counter, moves the counter past it, decodes it
/// and executes it. A fault leaves the state as it was.
#[verifier::opaque]
pub open spec fn step_spec(v: MachineView, rnd: u8) -> Result<MachineView, Fault> {
    match v.state {
        MachineState::Halted => Ok(v),
        MachineState::WaitingForKey { x } => match lowest_pressed(v.keys) {
            Some(k) => Ok(MachineView { state: MachineState::Running, ..with_register(v, x as int, k) }),
            None => Ok(v),
        },
        MachineState::Running => if v.pc + 1 >= 4096 {
            Err(Fault { kind: ErrorKind::OutOfBoundsAccess, address: v.pc, opcode: 0 })
        } else {
            let w = word_at_pc(v);
            match decode_spec(w) {
                None => Err(Fault { kind: ErrorKind::InvalidOpcode, address: v.pc, opcode: w }),
                Some(ins) => match execute_spec(with_pc(v, (v.pc + 2) as u16), ins, rnd) {
                    Ok(next) => Ok(next),
                    Err(kind) => Err(Fault { kind, address: v.pc, opcode: w }),
                },
            }
        },
    }
}

/// The state after the steps that `rnds` feed, one random byte per step,
/// stopping at the first fault and stepping no further once the machine
/// has stopped running.
pub open spec fn run_spec(v: MachineView, rnds: Seq<u8>) -> Result<MachineView, Fault>
    decreases rnds.len(),
{
    if rnds.len() == 0 {
        Ok(v)
    } else {
        match run_spec(v, rnds.drop_last()) {
            Ok(m) => if m.state is Running {
                step_spec(m, rnds.last())
            } else {
                Ok(m)
            },
            Err(f) => Err(f),
        }
    }
}

/// The sixteen 5-byte glyphs of the hexadecimal digits, `0` to `F`.
pub open spec fn font_bytes() -> Seq<u8> {
    seq![
        0xf0, 0x90, 0x90, 0x90, 0xf0, // 0
        0x20, 0x60, 0x20, 0x20, 0x70, // 1
        0xf0, 0x10, 0xf0, 0x80, 0xf0, // 2
        0xf0, 0x10, 0xf0, 0x10, 0xf0, // 3
        0x90, 0x90, 0xf0, 0x10, 0x10, // 4
        0xf0, 0x80, 0xf0, 0x10, 0xf0, // 5
        0xf0, 0x80, 0xf0, 0x90, 0xf0, // 6
        0xf0, 0x10, 0x20, 0x40, 0x40, // 7
        0xf0, 0x90, 0xf0, 0x90, 0xf0, // 8
        0xf0, 0x90, 0xf0, 0x10, 0xf0, // 9
        0xf0, 0x90, 0xf0, 0x90, 0x90, // A
        0xe0, 0x90, 0xe0, 0x90, 0xe0, // B
        0xf0, 0x80, 0x80, 0x80, 0xf0, // C
        0xe0, 0x90, 0x90, 0x90, 0xe0, // D
        0xf0, 0x80, 0xf0, 0x80, 0xf0, // E
        0xf0, 0x80, 0xf0, 0x80, 0x80, // F
    ]
}

/// The state at power-on: everything zero and off, the program counter at
/// the load origin, running.
pub open spec fn power_on() -> MachineView {
    MachineView {
        registers: Seq::new(16, |r: int| 0u8),
        index: 0,
        pc: 0x200,
        memory: Seq::new(4096, |a: int| 0u8),
        stack: Seq::empty(),
        keys: Seq::new(16, |k: int| false),
        delay_timer: 0,
        sound_timer: 0,
        display: Seq::new(2048, |i: int| false),
        state: MachineState::Running,
    }
}

/// Memory after loading `program`: the font at `0x050`, the first 3584
/// bytes of the program from `0x200` on and zeros after it; the rest as it
/// was.
pub open spec fn loaded_memory(memory: Seq<u8>, program: Seq<u8>) -> Seq<u8> {
    Seq::new(
        memory.len(),
        |a: int|
            if 0x50 <= a < 0xA0 {
                font_bytes()[a - 0x50]
            } else if a >= 0x200 {
                if a - 0x200 < program.len() {
                    program[a - 0x200]
                } else {
                    0u8
                }
            } else {
                memory[a]
            },
    )
}

/// A timer one tick later: down by one, stopping at zero.
pub open spec fn ticked(t: u8) -> u8 {
    if t > 0 {
        (t - 1) as u8
    } else {
        0
    }
}

} // verus!
