//! The instruction set: the nibble fields of an instruction word, the
//! wrap-around sprite-drawing semantics, and the effect of every
//! implemented opcode as a spec-level step function, together with laws
//! proved about it.

use vstd::prelude::*;

use crate::state::{
    spec_pop, spec_push, wf, Chip8Error, MachineState, RAM_SIZE, SCREEN_HEIGHT, SCREEN_WIDTH,
    STACK_SIZE,
};

verus! {

/// Highest nibble of an instruction word: selects the instruction family.
pub open spec fn nib1(op: u16) -> u16 {
    op >> 12u16
}

/// Second nibble: the X register selector.
pub open spec fn nib2(op: u16) -> u16 {
    (op >> 8u16) & 0xF
}

/// Third nibble: the Y register selector.
pub open spec fn nib3(op: u16) -> u16 {
    (op >> 4u16) & 0xF
}

/// Lowest nibble: the N operand, and the operation selector within the
/// arithmetic family.
pub open spec fn nib4(op: u16) -> u16 {
    op & 0xF
}

/// Low byte of an instruction word: the NN immediate.
pub open spec fn imm_nn(op: u16) -> u8 {
    (op & 0xFF) as u8
}

/// Low twelve bits of an instruction word: the NNN address immediate.
pub open spec fn imm_nnn(op: u16) -> u16 {
    op & 0xFFF
}

/// One sprite pixel XORed into the display: coordinates wrap modulo the
/// screen size, the cell flips, and the second component reports whether
/// the cell was set before — a collision.
pub open spec fn draw_bit(screen: Seq<bool>, x: int, y: int) -> (Seq<bool>, bool)
    recommends
        screen.len() == SCREEN_WIDTH * SCREEN_HEIGHT,
        0 <= x,
        0 <= y,
{
    let idx = x % (SCREEN_WIDTH as int) + (SCREEN_WIDTH as int) * (y % (SCREEN_HEIGHT as int));
    (screen.update(idx, !screen[idx]), screen[idx])
}

/// The first `ncols` pixels of one sprite row, most significant bit first,
/// drawn at wrapped coordinates; only set bits touch the display. The flag
/// records whether any drawn pixel hit a set cell.
pub open spec fn draw_row(screen: Seq<bool>, pixels: u8, x0: int, y: int, ncols: int) -> (
    Seq<bool>,
    bool,
)
    recommends
        screen.len() == SCREEN_WIDTH * SCREEN_HEIGHT,
        0 <= x0,
        0 <= y,
        ncols <= 8,
    decreases ncols,
{
    if ncols <= 0 {
        (screen, false)
    } else {
        let rest = draw_row(screen, pixels, x0, y, ncols - 1);
        let col = ncols - 1;
        if pixels & (0x80u8 >> (col as u8)) != 0 {
            let hit = draw_bit(rest.0, x0 + col, y);
            (hit.0, rest.1 || hit.1)
        } else {
            rest
        }
    }
}

/// The first `nrows` rows of a sprite whose bytes start at address `i`,
/// drawn with wrap-around; the flag records whether any row collided.
pub open spec fn draw_rows(
    screen: Seq<bool>,
    ram: Seq<u8>,
    i: u16,
    x0: int,
    y0: int,
    nrows: int,
) -> (Seq<bool>, bool)
    recommends
        screen.len() == SCREEN_WIDTH * SCREEN_HEIGHT,
        ram.len() == RAM_SIZE,
        0 <= x0,
        0 <= y0,
        nrows == 0 || i + nrows <= RAM_SIZE,
    decreases nrows,
{
    if nrows <= 0 {
        (screen, false)
    } else {
        let rest = draw_rows(screen, ram, i, x0, y0, nrows - 1);
        let r = nrows - 1;
        let row = draw_row(rest.0, ram[i + r], x0, y0 + r, 8);
        (row.0, rest.1 || row.1)
    }
}

/// The arithmetic family (high nibble 8): moves, bitwise operations,
/// add and subtract with the carry or borrow recorded in VF, and shifts
/// with the shifted-out bit recorded in VF. VF is written after the
/// result, so when X is 15 the flag is what remains. An unassigned
/// selector leaves the state unchanged.
pub open spec fn step_alu(s: MachineState, op: u16) -> MachineState
    recommends
        wf(s),
        nib1(op) == 0x8,
{
    let x = nib2(op) as int;
    let vx = s.v[x];
    let vy = s.v[nib3(op) as int];
    let sel = nib4(op);
    if sel == 0x0 {
        MachineState { v: s.v.update(x, vy), ..s }
    } else if sel == 0x1 {
        MachineState { v: s.v.update(x, vx | vy), ..s }
    } else if sel == 0x2 {
        MachineState { v: s.v.update(x, vx & vy), ..s }
    } else if sel == 0x3 {
        MachineState { v: s.v.update(x, vx ^ vy), ..s }
    } else if sel == 0x4 {
        let flag: u8 = if vx + vy > 255 {
            1u8
        } else {
            0u8
        };
        MachineState { v: s.v.update(x, vx.wrapping_add(vy)).update(15, flag), ..s }
    } else if sel == 0x5 {
        let flag: u8 = if vx < vy {
            0u8
        } else {
            1u8
        };
        MachineState { v: s.v.update(x, vx.wrapping_sub(vy)).update(15, flag), ..s }
    } else if sel == 0x6 {
        MachineState { v: s.v.update(x, vx >> 1u8).update(15, vx & 1), ..s }
    } else if sel == 0x7 {
        let flag: u8 = if vy < vx {
            0u8
        } else {
            1u8
        };
        MachineState { v: s.v.update(x, vy.wrapping_sub(vx)).update(15, flag), ..s }
    } else if sel == 0xE {
        MachineState { v: s.v.update(x, vx << 1u8).update(15, (vx >> 7u8) & 1), ..s }
    } else {
        s
    }
}

/// The effect of one instruction word on the abstract machine. `rnd` is
/// the uniformly random byte consumed by the CXNN opcode and ignored by
/// every other. A word that decodes to no implemented instruction is a
/// no-op: the state is returned unchanged and execution may continue.
/// The faults — return with an empty stack, call with a full one, a
/// sprite read past the top of memory — are reported with no partial
/// effect applied.
pub open spec fn step(s: MachineState, op: u16, rnd: u8) -> Result<MachineState, Chip8Error>
    recommends
        wf(s),
{
    let x = nib2(op) as int;
    let y = nib3(op) as int;
    let nn = imm_nn(op);
    let nnn = imm_nnn(op);
    if op == 0x00E0 {
        // CLS: every display cell is unset.
        Ok(
            MachineState {
                screen: Seq::new((SCREEN_WIDTH * SCREEN_HEIGHT) as nat, |c: int| false),
                ..s
            },
        )
    } else if op == 0x00EE {
        // RET: the program counter comes back off the stack.
        if s.sp == 0 {
            Err(Chip8Error::StackUnderflow)
        } else {
            Ok(MachineState { pc: spec_pop(s).1, ..spec_pop(s).0 })
        }
    } else if nib1(op) == 0x1 {
        // JMP NNN.
        Ok(MachineState { pc: nnn, ..s })
    } else if nib1(op) == 0x2 {
        // CALL NNN: the already-advanced counter is saved, then overridden.
        if s.sp == STACK_SIZE {
            Err(Chip8Error::StackOverflow)
        } else {
            Ok(MachineState { pc: nnn, ..spec_push(s, s.pc) })
        }
    } else if nib1(op) == 0x3 {
        // Skip the next instruction if VX == NN.
        if s.v[x] == nn {
            Ok(MachineState { pc: s.pc.wrapping_add(2), ..s })
        } else {
            Ok(s)
        }
    } else if nib1(op) == 0x4 {
        // Skip if VX != NN.
        if s.v[x] != nn {
            Ok(MachineState { pc: s.pc.wrapping_add(2), ..s })
        } else {
            Ok(s)
        }
    } else if nib1(op) == 0x5 {
        // Skip if VX == VY. This family dispatches on the high nibble
        // alone, so any low nibble behaves as 5XY0 — the observed machine
        // ignores the low nibble here, unlike in the 9-family below.
        if s.v[x] == s.v[y] {
            Ok(MachineState { pc: s.pc.wrapping_add(2), ..s })
        } else {
            Ok(s)
        }
    } else if nib1(op) == 0x6 {
        // VX = NN.
        Ok(MachineState { v: s.v.update(x, nn), ..s })
    } else if nib1(op) == 0x7 {
        // VX += NN, wrapping, no flag.
        Ok(MachineState { v: s.v.update(x, s.v[x].wrapping_add(nn)), ..s })
    } else if nib1(op) == 0x8 {
        Ok(step_alu(s, op))
    } else if nib1(op) == 0x9 && nib4(op) == 0x0 {
        // 9XY0: skip if VX != VY. Only the zero low nibble is assigned in
        // this family; every other 9-prefixed word is a no-op below.
        if s.v[x] != s.v[y] {
            Ok(MachineState { pc: s.pc.wrapping_add(2), ..s })
        } else {
            Ok(s)
        }
    } else if nib1(op) == 0xA {
        // I = NNN.
        Ok(MachineState { i: nnn, ..s })
    } else if nib1(op) == 0xB {
        // JMP V0 + NNN.
        Ok(MachineState { pc: (s.v[0] + nnn) as u16, ..s })
    } else if nib1(op) == 0xC {
        // VX = random byte masked by NN.
        Ok(MachineState { v: s.v.update(x, rnd & nn), ..s })
    } else if nib1(op) == 0xD {
        // DXYN: draw an N-row sprite from memory at I, at (VX, VY), with
        // wrap-around; VF records whether any set cell was unset.
        let n = nib4(op) as int;
        if n > 0 && s.i + n > RAM_SIZE {
            Err(Chip8Error::OutOfBounds)
        } else {
            let drawn = draw_rows(s.screen, s.ram, s.i, s.v[x] as int, s.v[y] as int, n);
            Ok(
                MachineState {
                    screen: drawn.0,
                    v: s.v.update(
                        15,
                        if drawn.1 {
                            1u8
                        } else {
                            0u8
                        },
                    ),
                    ..s
                },
            )
        }
    } else {
        // No implemented instruction: a diagnosed no-op.
        Ok(s)
    }
}

/// Clear law: from any well-formed state — whatever sequence of draws has
/// happened — the clear-screen opcode succeeds and leaves every display
/// cell unset.
pub proof fn lemma_clear_blanks_screen(s: MachineState, rnd: u8)
    requires
        wf(s),
    ensures
        step(s, 0x00E0, rnd) is Ok,
        forall|c: int|
            0 <= c < SCREEN_WIDTH * SCREEN_HEIGHT ==> !step(s, 0x00E0, rnd)->Ok_0.screen[c],
{
}

/// Call/return law: from any well-formed state with room on the stack, a
/// call saves the already-advanced program counter and jumps to its
/// operand, and a subsequent return restores that counter and leaves the
/// stack pointer as it was.
pub proof fn lemma_call_return_round_trip(s: MachineState, op: u16, rnd1: u8, rnd2: u8)
    requires
        wf(s),
        nib1(op) == 0x2,
        s.sp < STACK_SIZE,
    ensures
        step(s, op, rnd1) is Ok,
        ({
            let called = step(s, op, rnd1)->Ok_0;
            &&& called.pc == imm_nnn(op)
            &&& step(called, 0x00EE, rnd2) is Ok
            &&& step(called, 0x00EE, rnd2)->Ok_0.pc == s.pc
            &&& step(called, 0x00EE, rnd2)->Ok_0.sp == s.sp
        }),
{
    assert(op >> 12u16 == 0x2 ==> op != 0x00E0 && op != 0x00EE) by (bit_vector);
}

/// Jump exactness law: an instruction of the jump family sets the program
/// counter to its low twelve bits, whatever the counter held before, and
/// changes nothing else.
pub proof fn lemma_jump_sets_pc(s: MachineState, op: u16, rnd: u8)
    requires
        wf(s),
        nib1(op) == 0x1,
    ensures
        step(s, op, rnd) is Ok,
        step(s, op, rnd)->Ok_0 == (MachineState { pc: imm_nnn(op), ..s }),
{
    assert(op >> 12u16 == 0x1 ==> op != 0x00E0 && op != 0x00EE) by (bit_vector);
}

} // verus!
