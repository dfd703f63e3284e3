//! Properties of the instruction set that hold for every machine state.

use vstd::prelude::*;
use crate::display::{blit, collides, covers};
use crate::opcode::{decode_spec, word_of, Instruction};
use crate::semantics::{
    execute_spec,
    step_spec,
    well_formed,
    word_at_pc,
    ErrorKind,
    Fault,
    MachineState,
    MachineView,
};

verus! {

/// Registers other than `x` keep their values from `v` to `w`.
pub open spec fn others_kept(v: MachineView, w: MachineView, x: int) -> bool {
    forall|r: int| 0 <= r < 16 && r != x ==> w.registers[r] == v.registers[r]
}

/// Adding an immediate wraps modulo 256 and changes no register but its
/// destination, so `VF` keeps its value unless it is the destination.
pub proof fn add_immediate_wraps(v: MachineView, x: u8, nn: u8, rnd: u8)
    requires
        well_formed(v),
        x < 16,
    ensures
        execute_spec(v, Instruction::AddImmediate { x, nn }, rnd) matches Ok(w) && {
            &&& w.registers[x as int] == (v.registers[x as int] + nn) % 256
            &&& others_kept(v, w, x as int)
        },
{
}

/// Adding with carry sets `VF` to 1 exactly when the sum exceeds 255 and
/// leaves the sum modulo 256 in the destination (when the destination is not
/// `VF` itself).
pub proof fn add_with_carry_flags_overflow(v: MachineView, x: u8, y: u8, rnd: u8)
    requires
        well_formed(v),
        x < 15,
        y < 16,
    ensures
        execute_spec(v, Instruction::AddWithCarry { x, y }, rnd) matches Ok(w) && {
            &&& w.registers[15] == (if v.registers[x as int] + v.registers[y as int] > 255 {
                1u8
            } else {
                0u8
            })
            &&& w.registers[x as int] == (v.registers[x as int] + v.registers[y as int]) % 256
            &&& forall|r: int| 0 <= r < 15 && r != x ==> w.registers[r] == v.registers[r]
        },
{
}

/// Subtracting sets `VF` to 1 exactly when the minuend is strictly greater
/// than the subtrahend, whatever the wrapped difference is, and leaves the
/// difference modulo 256 in the destination (when that is not `VF`). The
/// same holds of the reversed subtraction `Vx = Vy - Vx`.
pub proof fn subtract_flags_no_borrow(v: MachineView, x: u8, y: u8, rnd: u8)
    requires
        well_formed(v),
        x < 15,
        y < 16,
    ensures
        execute_spec(v, Instruction::Subtract { x, y }, rnd) matches Ok(w) && {
            &&& w.registers[15] == (if v.registers[x as int] > v.registers[y as int] {
                1u8
            } else {
                0u8
            })
            &&& w.registers[x as int] == (v.registers[x as int] - v.registers[y as int]) % 256
        },
        execute_spec(v, Instruction::SubtractReversed { x, y }, rnd) matches Ok(w) && {
            &&& w.registers[15] == (if v.registers[y as int] > v.registers[x as int] {
                1u8
            } else {
                0u8
            })
            &&& w.registers[x as int] == (v.registers[y as int] - v.registers[x as int]) % 256
        },
{
}

/// A shift moves the bit that leaves the register, taken before the shift,
/// into `VF`: the low bit for a right shift, the high bit for a left shift
/// (when the shifted register is not `VF` itself).
pub proof fn shift_flags_the_bit_shifted_out(v: MachineView, x: u8, rnd: u8)
    requires
        well_formed(v),
        x < 15,
    ensures
        execute_spec(v, Instruction::ShiftRight { x }, rnd) matches Ok(w) && {
            &&& w.registers[15] == v.registers[x as int] % 2
            &&& w.registers[x as int] == v.registers[x as int] / 2
        },
        execute_spec(v, Instruction::ShiftLeft { x }, rnd) matches Ok(w) && {
            &&& w.registers[15] == v.registers[x as int] / 128
            &&& w.registers[x as int] == (v.registers[x as int] * 2) % 256
        },
{
}

/// Drawing a sprite twice at the same place restores every pixel. The
/// first draw reports a collision exactly when the sprite covers a lit
/// pixel, the second exactly when it covers a pixel that was unlit before
/// the first; so a sprite that covers any pixel reports a collision in at
/// least one of the two draws.
pub proof fn draw_twice_restores(cells: Seq<bool>, sprite: Seq<u8>, x0: u8, y0: u8)
    requires
        cells.len() == 2048,
    ensures
        blit(blit(cells, sprite, x0, y0), sprite, x0, y0) == cells,
        collides(cells, sprite, x0, y0) <==> exists|i: int|
            0 <= i < 2048 && #[trigger] covers(sprite, x0, y0, i) && cells[i],
        collides(blit(cells, sprite, x0, y0), sprite, x0, y0) <==> exists|i: int|
            0 <= i < 2048 && #[trigger] covers(sprite, x0, y0, i) && !cells[i],
        (exists|i: int| 0 <= i < 2048 && #[trigger] covers(sprite, x0, y0, i)) ==> collides(
            cells,
            sprite,
            x0,
            y0,
        ) || collides(blit(cells, sprite, x0, y0), sprite, x0, y0),
{
    let once = blit(cells, sprite, x0, y0);
    assert(blit(once, sprite, x0, y0) =~= cells);
    if exists|i: int| 0 <= i < 2048 && #[trigger] covers(sprite, x0, y0, i) && cells[i] {
        let i = choose|i: int| 0 <= i < 2048 && #[trigger] covers(sprite, x0, y0, i) && cells[i];
        assert(cells[i]);
    }
    if exists|i: int| 0 <= i < 2048 && #[trigger] covers(sprite, x0, y0, i) && !cells[i] {
        let i = choose|i: int| 0 <= i < 2048 && #[trigger] covers(sprite, x0, y0, i) && !cells[i];
        assert(once[i]);
    }
    if exists|i: int| 0 <= i < 2048 && #[trigger] covers(sprite, x0, y0, i) {
        let i = choose|i: int| 0 <= i < 2048 && #[trigger] covers(sprite, x0, y0, i);
        if cells[i] {
            assert(cells[i]);
        } else {
            assert(once[i]);
        }
    }
}

/// A call from address `b` to `a` followed by the return at `a` resumes at
/// `b + 2` with the stack as it was before the call.
pub proof fn call_then_return_resumes_after_call(v: MachineView, a: u16, rnd1: u8, rnd2: u8)
    requires
        well_formed(v),
        v.state == MachineState::Running,
        v.pc + 1 < 4096,
        v.stack.len() < 16,
        decode_spec(word_at_pc(v)) == Some(Instruction::Call { addr: a }),
        a + 1 < 4096,
        decode_spec(word_of(v.memory[a as int], v.memory[a + 1])) == Some(Instruction::Return),
    ensures
        step_spec(v, rnd1) matches Ok(w) && {
            &&& w.pc == a
            &&& w.stack == v.stack.push((v.pc + 2) as u16)
            &&& step_spec(w, rnd2) matches Ok(u) && {
                &&& u.pc == v.pc + 2
                &&& u.stack == v.stack
                &&& u.state == MachineState::Running
            }
        },
{
    reveal(step_spec);
    let w = step_spec(v, rnd1)->Ok_0;
    assert(w.stack.drop_last() =~= v.stack);
}

/// A call with sixteen return addresses on the stack overflows it and a
/// return with none underflows it; a call with fewer than sixteen, or a
/// return with at least one, succeeds. A step that faults names the
/// instruction's address and word.
pub proof fn stack_faults(v: MachineView, a: u16, rnd: u8)
    requires
        well_formed(v),
    ensures
        execute_spec(v, Instruction::Call { addr: a }, rnd) == Err::<MachineView, ErrorKind>(
            ErrorKind::StackOverflow,
        ) <==> v.stack.len() == 16,
        execute_spec(v, Instruction::Call { addr: a }, rnd) is Ok <==> v.stack.len() < 16,
        execute_spec(v, Instruction::Return, rnd) == Err::<MachineView, ErrorKind>(
            ErrorKind::StackUnderflow,
        ) <==> v.stack.len() == 0,
        execute_spec(v, Instruction::Return, rnd) is Ok <==> v.stack.len() > 0,
        v.state == MachineState::Running && v.pc + 1 < 4096 && v.stack.len() == 16 && decode_spec(
            word_at_pc(v),
        ) == Some(Instruction::Call { addr: a }) ==> step_spec(v, rnd) == Err::<MachineView, Fault>(
            Fault { kind: ErrorKind::StackOverflow, address: v.pc, opcode: word_at_pc(v) },
        ),
        v.state == MachineState::Running && v.pc + 1 < 4096 && v.stack.len() == 0 && decode_spec(
            word_at_pc(v),
        ) == Some(Instruction::Return) ==> step_spec(v, rnd) == Err::<MachineView, Fault>(
            Fault { kind: ErrorKind::StackUnderflow, address: v.pc, opcode: word_at_pc(v) },
        ),
{
    reveal(step_spec);
}

} // verus!
