//! The decode-execute cycle: an executable dispatcher proved to apply the
//! spec-level step function exactly. The one random draw the instruction
//! set needs stands behind a trusted wrapper, and everything after it is
//! verified for every byte the generator may return.

use vstd::prelude::*;

use rand::Rng;

use crate::chip8::Emu;
use crate::isa::{draw_row, draw_rows, nib1, nib2, nib3, nib4, step};
use crate::state::{wf, Chip8Error, MachineState, RAM_SIZE, SCREEN_HEIGHT, SCREEN_WIDTH};

verus! {

/// How one interpreter call relates the states before and after, its
/// result, the instruction word and the random byte: on success the
/// machine stands in exactly the step function's successor state; on a
/// fault the step function faults the same way and the machine is
/// untouched.
pub open spec fn step_applied(
    pre: MachineState,
    post: MachineState,
    r: Result<(), Chip8Error>,
    op: u16,
    rnd: u8,
) -> bool {
    match step(pre, op, rnd) {
        Ok(s) => r is Ok && post == s,
        Err(e) => r == Err::<(), Chip8Error>(e) && post == pre,
    }
}

/// Relies on rand::thread_rng and rand::Rng::gen: one byte drawn uniformly
/// from the thread-local generator. Nothing is promised of the value; the
/// dispatcher is verified for every byte that can come back.
#[verifier::external_body]
fn random_byte() -> u8 {
    rand::thread_rng().gen()
}

impl Emu {
    /// Draws the N-row sprite at memory address I onto the display at
    /// (VX, VY) with wrap-around and writes the collision flag to VF; or
    /// reports `OutOfBounds`, touching nothing, when a sprite row would be
    /// read past the top of memory.
    #[verifier::loop_isolation(false)]
    fn op_draw(&mut self, op: u16, x: usize, y: usize) -> (r: Result<(), Chip8Error>)
        requires
            wf(old(self)@),
            nib1(op) == 0xD,
            x as int == nib2(op) as int,
            y as int == nib3(op) as int,
        ensures
            wf(final(self)@),
            ({
                let s = old(self)@;
                let n = nib4(op) as int;
                if n > 0 && s.i + n > RAM_SIZE {
                    r == Err::<(), Chip8Error>(Chip8Error::OutOfBounds) && final(self)@ == s
                } else {
                    let drawn = draw_rows(
                        s.screen,
                        s.ram,
                        s.i,
                        s.v[nib2(op) as int] as int,
                        s.v[nib3(op) as int] as int,
                        n,
                    );
                    r is Ok && final(self)@ == (MachineState {
                        screen: drawn.0,
                        v: s.v.update(
                            15,
                            if drawn.1 {
                                1u8
                            } else {
                                0u8
                            },
                        ),
                        ..s
                    })
                }
            }),
    {
        proof {
            assert((op >> 8u16) & 0xF < 16 && (op >> 4u16) & 0xF < 16 && (op & 0xF) < 16)
                by (bit_vector);
        }
        let n = (op & 0xF) as usize;
        let base = self.i_reg as usize;
        if n > 0 && base + n > RAM_SIZE {
            return Err(Chip8Error::OutOfBounds);
        }
        let x0 = self.v_reg[x] as usize;
        let y0 = self.v_reg[y] as usize;
        let mut flipped = false;
        let mut row: usize = 0;
        while row < n
            invariant
                wf(old(self)@),
                row <= n,
                n == nib4(op) as int,
                n > 0 ==> old(self)@.i + n <= RAM_SIZE,
                base == old(self)@.i,
                x0 == old(self)@.v[nib2(op) as int],
                y0 == old(self)@.v[nib3(op) as int],
                self.pc == old(self)@.pc,
                self.ram@ == old(self)@.ram,
                self.v_reg@ == old(self)@.v,
                self.i_reg == old(self)@.i,
                self.sp as nat == old(self)@.sp,
                self.stack@ == old(self)@.stack,
                self.keys@ == old(self)@.keys,
                self.dt == old(self)@.dt,
                self.st == old(self)@.st,
                self.screen@.len() == SCREEN_WIDTH * SCREEN_HEIGHT,
                self.screen@ == draw_rows(
                    old(self)@.screen,
                    old(self)@.ram,
                    old(self)@.i,
                    x0 as int,
                    y0 as int,
                    row as int,
                ).0,
                flipped == draw_rows(
                    old(self)@.screen,
                    old(self)@.ram,
                    old(self)@.i,
                    x0 as int,
                    y0 as int,
                    row as int,
                ).1,
            decreases n - row,
        {
            let addr = base + row;
            let pixels = self.ram[addr];
            let yy = y0 + row;
            let ghost row_screen = self.screen@;
            let ghost row_flipped = flipped;
            let mut col: usize = 0;
            while col < 8
                invariant
                    col <= 8,
                    x0 < 256,
                    yy < 272,
                    self.pc == old(self)@.pc,
                    self.ram@ == old(self)@.ram,
                    self.v_reg@ == old(self)@.v,
                    self.i_reg == old(self)@.i,
                    self.sp as nat == old(self)@.sp,
                    self.stack@ == old(self)@.stack,
                    self.keys@ == old(self)@.keys,
                    self.dt == old(self)@.dt,
                    self.st == old(self)@.st,
                    self.screen@.len() == SCREEN_WIDTH * SCREEN_HEIGHT,
                    row_screen.len() == SCREEN_WIDTH * SCREEN_HEIGHT,
                    self.screen@ == draw_row(
                        row_screen,
                        pixels,
                        x0 as int,
                        yy as int,
                        col as int,
                    ).0,
                    flipped == (row_flipped || draw_row(
                        row_screen,
                        pixels,
                        x0 as int,
                        yy as int,
                        col as int,
                    ).1),
                decreases 8 - col,
            {
                if pixels & (0x80u8 >> (col as u8)) != 0 {
                    let px = (x0 + col) % SCREEN_WIDTH;
                    let py = yy % SCREEN_HEIGHT;
                    let idx = px + SCREEN_WIDTH * py;
                    let cur = self.screen[idx];
                    flipped = flipped || cur;
                    self.screen[idx] = !cur;
                }
                col += 1;
            }
            row += 1;
        }
        self.v_reg[15] = if flipped {
            1
        } else {
            0
        };
        Ok(())
    }

    /// Decodes one instruction word with the random byte supplied by the
    /// caller — which makes a run deterministic and testable — and applies
    /// it: the machine moves to exactly the step function's successor
    /// state, or reports the step function's fault with the state
    /// untouched.
    pub fn execute_with_random(&mut self, op: u16, rnd: u8) -> (r: Result<(), Chip8Error>)
        requires
            wf(old(self)@),
        ensures
            wf(final(self)@),
            step_applied(old(self)@, final(self)@, r, op, rnd),
    {
        proof {
            assert((op >> 8u16) & 0xF < 16 && (op >> 4u16) & 0xF < 16 && (op & 0xFF) < 256 && (op
                & 0xFFF) < 4096 && (op & 0xF) < 16) by (bit_vector);
        }
        let x = ((op >> 8u16) & 0xF) as usize;
        let y = ((op >> 4u16) & 0xF) as usize;
        let nn = (op & 0xFF) as u8;
        let nnn = op & 0xFFF;
        let d1 = op >> 12u16;
        if op == 0x00E0 {
            // CLS.
            self.screen = vec![false; SCREEN_WIDTH * SCREEN_HEIGHT];
            proof {
                assert(self@.screen =~= Seq::new(
                    (SCREEN_WIDTH * SCREEN_HEIGHT) as nat,
                    |c: int| false,
                ));
            }
            Ok(())
        } else if op == 0x00EE {
            // RET.
            match self.pop() {
                Ok(addr) => {
                    self.pc = addr;
                    Ok(())
                },
                Err(e) => Err(e),
            }
        } else if d1 == 0x1 {
            // JMP NNN.
            self.pc = nnn;
            Ok(())
        } else if d1 == 0x2 {
            // CALL NNN.
            let ret = self.pc;
            match self.push(ret) {
                Ok(_) => {
                    self.pc = nnn;
                    Ok(())
                },
                Err(e) => Err(e),
            }
        } else if d1 == 0x3 {
            // Skip if VX == NN.
            if self.v_reg[x] == nn {
                self.pc = self.pc.wrapping_add(2);
            }
            Ok(())
        } else if d1 == 0x4 {
            // Skip if VX != NN.
            if self.v_reg[x] != nn {
                self.pc = self.pc.wrapping_add(2);
            }
            Ok(())
        } else if d1 == 0x5 {
            // Skip if VX == VY; this family ignores the low nibble.
            if self.v_reg[x] == self.v_reg[y] {
                self.pc = self.pc.wrapping_add(2);
            }
            Ok(())
        } else if d1 == 0x6 {
            // VX = NN.
            self.v_reg[x] = nn;
            Ok(())
        } else if d1 == 0x7 {
            // VX += NN, wrapping, no flag.
            let vx = self.v_reg[x];
            self.v_reg[x] = vx.wrapping_add(nn);
            Ok(())
        } else if d1 == 0x8 {
            // The arithmetic family; the selector is the low nibble.
            let sel = op & 0xF;
            let vx = self.v_reg[x];
            let vy = self.v_reg[y];
            if sel == 0x0 {
                self.v_reg[x] = vy;
            } else if sel == 0x1 {
                self.v_reg[x] = vx | vy;
            } else if sel == 0x2 {
                self.v_reg[x] = vx & vy;
            } else if sel == 0x3 {
                self.v_reg[x] = vx ^ vy;
            } else if sel == 0x4 {
                self.v_reg[x] = vx.wrapping_add(vy);
                self.v_reg[15] = if (vx as u16) + (vy as u16) > 255 {
                    1
                } else {
                    0
                };
            } else if sel == 0x5 {
                self.v_reg[x] = vx.wrapping_sub(vy);
                self.v_reg[15] = if vx < vy {
                    0
                } else {
                    1
                };
            } else if sel == 0x6 {
                self.v_reg[x] = vx >> 1u8;
                self.v_reg[15] = vx & 1;
            } else if sel == 0x7 {
                self.v_reg[x] = vy.wrapping_sub(vx);
                self.v_reg[15] = if vy < vx {
                    0
                } else {
                    1
                };
            } else if sel == 0xE {
                self.v_reg[x] = vx << 1u8;
                self.v_reg[15] = (vx >> 7u8) & 1;
            }
            Ok(())
        } else if d1 == 0x9 && (op & 0xF) == 0x0 {
            // 9XY0: skip if VX != VY; other 9-prefixed words are no-ops.
            if self.v_reg[x] != self.v_reg[y] {
                self.pc = self.pc.wrapping_add(2);
            }
            Ok(())
        } else if d1 == 0xA {
            // I = NNN.
            self.i_reg = nnn;
            Ok(())
        } else if d1 == 0xB {
            // JMP V0 + NNN.
            self.pc = (self.v_reg[0] as u16) + nnn;
            Ok(())
        } else if d1 == 0xC {
            // VX = random byte masked by NN.
            self.v_reg[x] = rnd & nn;
            Ok(())
        } else if d1 == 0xD {
            // DXYN: sprite draw.
            self.op_draw(op, x, y)
        } else {
            // No implemented instruction: a diagnosed no-op.
            Ok(())
        }
    }

    /// Decodes and executes one instruction word, drawing the random byte
    /// the CXNN opcode consumes from the thread-local generator. Whatever
    /// byte came back, the machine moves to the step function's successor
    /// state for that byte, or reports its fault with the state untouched.
    pub fn execute(&mut self, op: u16) -> (r: Result<(), Chip8Error>)
        requires
            wf(old(self)@),
        ensures
            wf(final(self)@),
            exists|rnd: u8| step_applied(old(self)@, final(self)@, r, op, rnd),
    {
        let rnd = random_byte();
        let r = self.execute_with_random(op, rnd);
        proof {
            assert(step_applied(old(self)@, self@, r, op, rnd));
        }
        r
    }
}

} // verus!
