//! Decoding of 16-bit instruction words.

use vstd::prelude::*;

verus! {

/// Register index `x`: bits 8 to 11 of the word.
pub open spec fn x_of(w: u16) -> u8 {
    ((w as int / 256) % 16) as u8
}

/// Register index `y`: bits 4 to 7 of the word.
pub open spec fn y_of(w: u16) -> u8 {
    ((w as int / 16) % 16) as u8
}

/// Nibble `n`: bits 0 to 3 of the word.
pub open spec fn n_of(w: u16) -> u8 {
    (w as int % 16) as u8
}

/// Byte `nn`: bits 0 to 7 of the word.
pub open spec fn nn_of(w: u16) -> u8 {
    (w as int % 256) as u8
}

/// Address `nnn`: bits 0 to 11 of the word.
pub open spec fn nnn_of(w: u16) -> u16 {
    (w as int % 4096) as u16
}

/// The opcode family: bits 12 to 15 of the word.
pub open spec fn family_of(w: u16) -> u8 {
    (w as int / 4096) as u8
}

/// One decoded operation with its operand fields. Register operands are
/// always below 16, a sprite height `n` below 16, an address below 4096.
#[derive(Clone, Copy, Debug, PartialEq, Eq, Structural)]
pub enum Instruction {
    /// `0000`: stop the machine.
    Halt,
    /// `00E0`: turn every pixel off.
    ClearScreen,
    /// `00EE`: pop the return address into the program counter.
    Return,
    /// `1nnn`: jump to `nnn`.
    Jump { addr: u16 },
    /// `2nnn`: push the program counter and jump to `nnn`.
    Call { addr: u16 },
    /// `3xnn`: skip the next instruction if `Vx == nn`.
    SkipIfEqual { x: u8, nn: u8 },
    /// `4xnn`: skip the next instruction if `Vx != nn`.
    SkipIfNotEqual { x: u8, nn: u8 },
    /// `5xyn`: skip the next instruction if `Vx == Vy`.
    SkipIfRegistersEqual { x: u8, y: u8 },
    /// `6xnn`: `Vx = nn`.
    SetImmediate { x: u8, nn: u8 },
    /// `7xnn`: `Vx += nn`, wrapping, flags untouched.
    AddImmediate { x: u8, nn: u8 },
    /// `8xy0`: `Vx = Vy`.
    Assign { x: u8, y: u8 },
    /// `8xy1`: `Vx |= Vy`.
    Or { x: u8, y: u8 },
    /// `8xy2`: `Vx &= Vy`.
    And { x: u8, y: u8 },
    /// `8xy3`: `Vx ^= Vy`.
    Xor { x: u8, y: u8 },
    /// `8xy4`: `Vx += Vy` with carry into `VF`.
    AddWithCarry { x: u8, y: u8 },
    /// `8xy5`: `Vx -= Vy` with "no borrow" into `VF`.
    Subtract { x: u8, y: u8 },
    /// `8xy6`: `Vx >>= 1`, the bit shifted out into `VF`.
    ShiftRight { x: u8 },
    /// `8xy7`: `Vx = Vy - Vx` with "no borrow" into `VF`.
    SubtractReversed { x: u8, y: u8 },
    /// `8xyE`: `Vx <<= 1`, the bit shifted out into `VF`.
    ShiftLeft { x: u8 },
    /// `9xyn`: skip the next instruction if `Vx != Vy`.
    SkipIfRegistersNotEqual { x: u8, y: u8 },
    /// `Annn`: `I = nnn`.
    SetIndex { addr: u16 },
    /// `Bnnn`: jump to `nnn + V0`.
    JumpPlusV0 { addr: u16 },
    /// `Cxnn`: `Vx = random byte & nn`.
    Random { x: u8, nn: u8 },
    /// `Dxyn`: draw the `n`-byte sprite at `I` at `(Vx, Vy)`.
    Draw { x: u8, y: u8, n: u8 },
    /// `Ex9E`: skip the next instruction if key `Vx` is pressed.
    SkipIfKeyPressed { x: u8 },
    /// `ExA1`: skip the next instruction if key `Vx` is not pressed.
    SkipIfKeyNotPressed { x: u8 },
    /// `Fx07`: `Vx = delay timer`.
    ReadDelayTimer { x: u8 },
    /// `Fx0A`: wait for a key press and store its index in `Vx`.
    WaitForKey { x: u8 },
    /// `Fx15`: `delay timer = Vx`.
    SetDelayTimer { x: u8 },
    /// `Fx18`: `sound timer = Vx`.
    SetSoundTimer { x: u8 },
    /// `Fx1E`: `I += Vx`, wrapping at 16 bits.
    AddToIndex { x: u8 },
    /// `Fx29`: `I` = address of the font glyph for `Vx`.
    SetIndexToGlyph { x: u8 },
    /// `Fx33`: store the decimal digits of `Vx` at `I`, `I + 1`, `I + 2`.
    StoreBcd { x: u8 },
    /// `Fx55`: store `V0..=Vx` in memory from `I` on.
    DumpRegisters { x: u8 },
    /// `Fx65`: load `V0..=Vx` from memory from `I` on.
    LoadRegisters { x: u8 },
}

/// The operation that `w` encodes, or `None` when `w` encodes none.
pub open spec fn decode_spec(w: u16) -> Option<Instruction> {
    let x = x_of(w);
    let y = y_of(w);
    let n = n_of(w);
    let nn = nn_of(w);
    let nnn = nnn_of(w);
    let family = family_of(w);
    if w == 0x0000 {
        Some(Instruction::Halt)
    } else if w == 0x00E0 {
        Some(Instruction::ClearScreen)
    } else if w == 0x00EE {
        Some(Instruction::Return)
    } else if family == 0x0 {
        None
    } else if family == 0x1 {
        Some(Instruction::Jump { addr: nnn })
    } else if family == 0x2 {
        Some(Instruction::Call { addr: nnn })
    } else if family == 0x3 {
        Some(Instruction::SkipIfEqual { x, nn })
    } else if family == 0x4 {
        Some(Instruction::SkipIfNotEqual { x, nn })
    } else if family == 0x5 {
        Some(Instruction::SkipIfRegistersEqual { x, y })
    } else if family == 0x6 {
        Some(Instruction::SetImmediate { x, nn })
    } else if family == 0x7 {
        Some(Instruction::AddImmediate { x, nn })
    } else if family == 0x8 {
        decode_arithmetic(x, y, n)
    } else if family == 0x9 {
        Some(Instruction::SkipIfRegistersNotEqual { x, y })
    } else if family == 0xA {
        Some(Instruction::SetIndex { addr: nnn })
    } else if family == 0xB {
        Some(Instruction::JumpPlusV0 { addr: nnn })
    } else if family == 0xC {
        Some(Instruction::Random { x, nn })
    } else if family == 0xD {
        Some(Instruction::Draw { x, y, n })
    } else if family == 0xE {
        if nn == 0x9E {
            Some(Instruction::SkipIfKeyPressed { x })
        } else if nn == 0xA1 {
            Some(Instruction::SkipIfKeyNotPressed { x })
        } else {
            None
        }
    } else {
        decode_misc(x, nn)
    }
}

/// The `8xyn` family, selected by `n`.
pub open spec fn decode_arithmetic(x: u8, y: u8, n: u8) -> Option<Instruction> {
    if n == 0x0 {
        Some(Instruction::Assign { x, y })
    } else if n == 0x1 {
        Some(Instruction::Or { x, y })
    } else if n == 0x2 {
        Some(Instruction::And { x, y })
    } else if n == 0x3 {
        Some(Instruction::Xor { x, y })
    } else if n == 0x4 {
        Some(Instruction::AddWithCarry { x, y })
    } else if n == 0x5 {
        Some(Instruction::Subtract { x, y })
    } else if n == 0x6 {
        Some(Instruction::ShiftRight { x })
    } else if n == 0x7 {
        Some(Instruction::SubtractReversed { x, y })
    } else if n == 0xE {
        Some(Instruction::ShiftLeft { x })
    } else {
        None
    }
}

/// The `Fxnn` family, selected by `nn`.
pub open spec fn decode_misc(x: u8, nn: u8) -> Option<Instruction> {
    if nn == 0x07 {
        Some(Instruction::ReadDelayTimer { x })
    } else if nn == 0x0A {
        Some(Instruction::WaitForKey { x })
    } else if nn == 0x15 {
        Some(Instruction::SetDelayTimer { x })
    } else if nn == 0x18 {
        Some(Instruction::SetSoundTimer { x })
    } else if nn == 0x1E {
        Some(Instruction::AddToIndex { x })
    } else if nn == 0x29 {
        Some(Instruction::SetIndexToGlyph { x })
    } else if nn == 0x33 {
        Some(Instruction::StoreBcd { x })
    } else if nn == 0x55 {
        Some(Instruction::DumpRegisters { x })
    } else if nn == 0x65 {
        Some(Instruction::LoadRegisters { x })
    } else {
        None
    }
}

/// The operand bounds that every decoded instruction meets.
pub open spec fn operands_in_range(i: Instruction) -> bool {
    match i {
        Instruction::Jump { addr } | Instruction::Call { addr } | Instruction::SetIndex { addr }
        | Instruction::JumpPlusV0 { addr } => addr < 4096,
        Instruction::SkipIfEqual { x, .. } | Instruction::SkipIfNotEqual { x, .. }
        | Instruction::SetImmediate { x, .. } | Instruction::AddImmediate { x, .. }
        | Instruction::ShiftRight { x } | Instruction::ShiftLeft { x }
        | Instruction::Random { x, .. } | Instruction::SkipIfKeyPressed { x }
        | Instruction::SkipIfKeyNotPressed { x } | Instruction::ReadDelayTimer { x }
        | Instruction::WaitForKey { x } | Instruction::SetDelayTimer { x }
        | Instruction::SetSoundTimer { x } | Instruction::AddToIndex { x }
        | Instruction::SetIndexToGlyph { x } | Instruction::StoreBcd { x }
        | Instruction::DumpRegisters { x } | Instruction::LoadRegisters { x } => x < 16,
        Instruction::SkipIfRegistersEqual { x, y } | Instruction::Assign { x, y }
        | Instruction::Or { x, y } | Instruction::And { x, y } | Instruction::Xor { x, y }
        | Instruction::AddWithCarry { x, y } | Instruction::Subtract { x, y }
        | Instruction::SubtractReversed { x, y }
        | Instruction::SkipIfRegistersNotEqual { x, y } => x < 16 && y < 16,
        Instruction::Draw { x, y, n } => x < 16 && y < 16 && n < 16,
        Instruction::Halt | Instruction::ClearScreen | Instruction::Return => true,
    }
}

/// The word at `hi`, `lo`: the high byte comes first in memory.
pub open spec fn word_of(hi: u8, lo: u8) -> u16 {
    (hi as int * 256 + lo as int) as u16
}

/// Joins two bytes into an instruction word, high byte first.
pub fn join_bytes(hi: u8, lo: u8) -> (w: u16)
    ensures
        w == word_of(hi, lo),
{
    let w = ((hi as u16) << 8) | (lo as u16);
    assert(((hi as u16) << 8) | (lo as u16) == (hi as u16) * 256 + (lo as u16)) by (bit_vector);
    w
}

/// Decodes one instruction word. A word that encodes no operation of the
/// instruction set yields `None`.
pub fn decode(w: u16) -> (r: Option<Instruction>)
    ensures
        r == decode_spec(w),
        r matches Some(i) ==> operands_in_range(i),
{
    let x = ((w >> 8) & 0x0F) as u8;
    let y = ((w >> 4) & 0x0F) as u8;
    let n = (w & 0x000F) as u8;
    let nn = (w & 0x00FF) as u8;
    let nnn = w & 0x0FFF;
    let family = (w >> 12) as u8;
    assert((w >> 8) & 0x0F == (w / 256) % 16) by (bit_vector);
    assert((w >> 4) & 0x0F == (w / 16) % 16) by (bit_vector);
    assert(w & 0x000F == w % 16) by (bit_vector);
    assert(w & 0x00FF == w % 256) by (bit_vector);
    assert(w & 0x0FFF == w % 4096) by (bit_vector);
    assert(w >> 12 == w / 4096) by (bit_vector);
    if w == 0x0000 {
        Some(Instruction::Halt)
    } else if w == 0x00E0 {
        Some(Instruction::ClearScreen)
    } else if w == 0x00EE {
        Some(Instruction::Return)
    } else {
        match family {
            0x0 => None,
            0x1 => Some(Instruction::Jump { addr: nnn }),
            0x2 => Some(Instruction::Call { addr: nnn }),
            0x3 => Some(Instruction::SkipIfEqual { x, nn }),
            0x4 => Some(Instruction::SkipIfNotEqual { x, nn }),
            0x5 => Some(Instruction::SkipIfRegistersEqual { x, y }),
            0x6 => Some(Instruction::SetImmediate { x, nn }),
            0x7 => Some(Instruction::AddImmediate { x, nn }),
            0x8 => match n {
                0x0 => Some(Instruction::Assign { x, y }),
                0x1 => Some(Instruction::Or { x, y }),
                0x2 => Some(Instruction::And { x, y }),
                0x3 => Some(Instruction::Xor { x, y }),
                0x4 => Some(Instruction::AddWithCarry { x, y }),
                0x5 => Some(Instruction::Subtract { x, y }),
                0x6 => Some(Instruction::ShiftRight { x }),
                0x7 => Some(Instruction::SubtractReversed { x, y }),
                0xE => Some(Instruction::ShiftLeft { x }),
                _ => None,
            },
            0x9 => Some(Instruction::SkipIfRegistersNotEqual { x, y }),
            0xA => Some(Instruction::SetIndex { addr: nnn }),
            0xB => Some(Instruction::JumpPlusV0 { addr: nnn }),
            0xC => Some(Instruction::Random { x, nn }),
            0xD => Some(Instruction::Draw { x, y, n }),
            0xE => match nn {
                0x9E => Some(Instruction::SkipIfKeyPressed { x }),
                0xA1 => Some(Instruction::SkipIfKeyNotPressed { x }),
                _ => None,
            },
            _ => match nn {
                0x07 => Some(Instruction::ReadDelayTimer { x }),
                0x0A => Some(Instruction::WaitForKey { x }),
                0x15 => Some(Instruction::SetDelayTimer { x }),
                0x18 => Some(Instruction::SetSoundTimer { x }),
                0x1E => Some(Instruction::AddToIndex { x }),
                0x29 => Some(Instruction::SetIndexToGlyph { x }),
                0x33 => Some(Instruction::StoreBcd { x }),
                0x55 => Some(Instruction::DumpRegisters { x }),
                0x65 => Some(Instruction::LoadRegisters { x }),
                _ => None,
            },
        }
    }
}

} // verus!
