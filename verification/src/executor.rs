//! The executor: the semantics of one decoded instruction, as a
//! mathematical step function over the machine model and an executable
//! function proved to implement it exactly.
//!
//! Every fatal condition (bounds, stack depth, impossible glyph or key) is
//! reported before any state changes; a faulting step leaves the machine
//! untouched.
use vstd::prelude::*;

use crate::decoder::op_wf;
use crate::decoder::Op;
use crate::framebuffer::blank_fb;
use crate::framebuffer::draw_hits;
use crate::framebuffer::draw_rows;
use crate::machine::Machine;
use crate::machine::MachineSnap;
use crate::ram::GLYPH_BYTES;
use crate::registers::FLAG_REG;
use crate::CHIP8_HEIGHT;
use crate::GPR_SIZE;
use crate::KEY_COUNT;
use crate::RAM_SIZE;
use crate::STACK_DEPTH;

verus! {

/// A fatal runtime condition. Each variant names the address of the
/// offending instruction; the engine stops before any further mutation.
#[derive(Clone, Copy, PartialEq, Eq, Structural, Debug)]
pub enum Fault {
    /// The program counter does not point at a whole instruction in memory.
    PcOutOfRange { pc: u16 },
    /// A computed address range reaches past memory capacity.
    AddressOutOfRange { pc: u16, addr: u16 },
    /// ADD I,Vx pushed the index register past its 16-bit range.
    IndexOverflow { pc: u16 },
    /// CALL on a full call stack.
    StackOverflow { pc: u16 },
    /// RET on an empty call stack.
    StackUnderflow { pc: u16 },
    /// SKP/SKNP consulted a key code past the sixteen logical keys.
    KeyOutOfRange { pc: u16, key: u8 },
    /// LD F,Vx asked for the glyph of a value that has none.
    GlyphOutOfRange { pc: u16, digit: u8 },
    /// An unrecognized opcode under the strict engine policy.
    UnknownOpcode { pc: u16, byte1: u8, byte2: u8 },
}

/// What the engine must do after one executed instruction.
#[derive(Clone, Copy, PartialEq, Eq, Structural, Debug)]
pub enum Flow {
    /// Carry on with the next fetch.
    Next,
    /// Hold instruction progression until a key press arrives, then load
    /// its code into Vx.
    AwaitKey { x: u8 },
}

/// The register-to-register arithmetic and logic opcodes.
pub open spec fn op_is_alu(op: Op) -> bool {
    match op {
        Op::LdReg { .. } => true,
        Op::OrReg { .. } => true,
        Op::AndReg { .. } => true,
        Op::XorReg { .. } => true,
        Op::AddReg { .. } => true,
        Op::SubReg { .. } => true,
        Op::Shr { .. } => true,
        Op::SubnReg { .. } => true,
        Op::Shl { .. } => true,
        _ => false,
    }
}

/// The timer, index-register and memory-block opcodes.
pub open spec fn op_is_misc(op: Op) -> bool {
    match op {
        Op::LdVxDt { .. } => true,
        Op::LdDtVx { .. } => true,
        Op::LdStVx { .. } => true,
        Op::AddI { .. } => true,
        Op::LdFont { .. } => true,
        Op::LdBcd { .. } => true,
        Op::StRegs { .. } => true,
        Op::LdRegs { .. } => true,
        _ => false,
    }
}

/// 8-bit wraparound addition.
pub open spec fn wrap_add(a: u8, b: u8) -> u8 {
    ((a + b) % 256) as u8
}

/// 8-bit wraparound subtraction.
pub open spec fn wrap_sub(a: u8, b: u8) -> u8 {
    ((a - b) % 256) as u8
}

/// The program counter one instruction further on.
pub open spec fn pc_next(pc: u16) -> u16 {
    (pc + 2) as u16
}

/// The program counter after a skip instruction: two instructions further
/// on when the condition holds, one otherwise.
pub open spec fn pc_skip(pc: u16, cond: bool) -> u16 {
    if cond {
        (pc + 4) as u16
    } else {
        (pc + 2) as u16
    }
}

/// Hundreds digit of a byte's decimal expansion.
pub open spec fn bcd_hundreds(v: u8) -> u8 {
    (v / 100) as u8
}

/// Tens digit of a byte's decimal expansion.
pub open spec fn bcd_tens(v: u8) -> u8 {
    ((v / 10) % 10) as u8
}

/// Ones digit of a byte's decimal expansion.
pub open spec fn bcd_ones(v: u8) -> u8 {
    (v % 10) as u8
}

/// Memory after V0 through Vx are stored at addresses I through I+x.
pub open spec fn regs_stored(ram: Seq<u8>, v: Seq<u8>, i: int, x: int) -> Seq<u8> {
    Seq::new(ram.len(), |t: int| if i <= t <= i + x {
        v[t - i]
    } else {
        ram[t]
    })
}

/// Registers after V0 through Vx are loaded from addresses I through I+x.
pub open spec fn regs_loaded(v: Seq<u8>, ram: Seq<u8>, i: int, x: int) -> Seq<u8> {
    Seq::new(v.len(), |k: int| if k <= x {
        ram[i + k]
    } else {
        v[k]
    })
}

/// The register file after one arithmetic or logic opcode. The flag
/// register VF is written in the documented order relative to the
/// destination register, so an instruction whose destination is VF itself
/// keeps the machine's original hazard.
pub open spec fn alu_regs(v: Seq<u8>, op: Op) -> Seq<u8> {
    match op {
        Op::LdReg { x, y } => v.update(x as int, v[y as int]),
        Op::OrReg { x, y } => v.update(x as int, v[x as int] | v[y as int]),
        Op::AndReg { x, y } => v.update(x as int, v[x as int] & v[y as int]),
        Op::XorReg { x, y } => v.update(x as int, v[x as int] ^ v[y as int]),
        // The truncated sum is written first; VF then takes the carry of
        // the true, untruncated sum.
        Op::AddReg { x, y } => v.update(x as int, wrap_add(v[x as int], v[y as int])).update(
            FLAG_REG as int,
            if v[x as int] + v[y as int] > 255 {
                1u8
            } else {
                0u8
            },
        ),
        // VF takes the no-borrow flag first; the difference is then
        // computed from the registers as they stand after that write.
        Op::SubReg { x, y } => {
            let v1 = v.update(
                FLAG_REG as int,
                if v[x as int] >= v[y as int] {
                    1u8
                } else {
                    0u8
                },
            );
            v1.update(x as int, wrap_sub(v1[x as int], v1[y as int]))
        },
        // VF takes the pre-shift least-significant bit first.
        Op::Shr { x } => {
            let v1 = v.update(FLAG_REG as int, (v[x as int] % 2) as u8);
            v1.update(x as int, (v1[x as int] / 2) as u8)
        },
        Op::SubnReg { x, y } => {
            let v1 = v.update(
                FLAG_REG as int,
                if v[y as int] >= v[x as int] {
                    1u8
                } else {
                    0u8
                },
            );
            v1.update(x as int, wrap_sub(v1[y as int], v1[x as int]))
        },
        // VF takes the pre-shift most-significant bit first.
        Op::Shl { x } => {
            let v1 = v.update(FLAG_REG as int, (v[x as int] / 128) as u8);
            v1.update(x as int, ((v1[x as int] * 2) % 256) as u8)
        },
        _ => v,
    }
}

/// One arithmetic or logic step: only the register file and the program
/// counter move.
pub open spec fn alu_step(s: MachineSnap, op: Op) -> Result<(MachineSnap, Flow), Fault> {
    Ok((MachineSnap { v: alu_regs(s.v, op), pc: pc_next(s.pc), ..s }, Flow::Next))
}

/// DRW Vx,Vy,n: XOR the n-byte sprite at memory I onto the grid at
/// (Vx, Vy), coordinates wrapping; VF reports whether any pixel went from
/// on to off. Reading past memory capacity is fatal.
pub open spec fn drw_step(s: MachineSnap, x: u8, y: u8, n: u8) -> Result<
    (MachineSnap, Flow),
    Fault,
> {
    if s.i + n > RAM_SIZE {
        Err(Fault::AddressOutOfRange { pc: s.pc, addr: s.i })
    } else {
        let rows = s.ram.subrange(s.i as int, s.i + n);
        let hit = draw_hits(s.fb, rows, s.v[x as int], s.v[y as int], n as int);
        Ok(
            (
                MachineSnap {
                    fb: draw_rows(s.fb, rows, s.v[x as int], s.v[y as int], n as int),
                    v: s.v.update(FLAG_REG as int, if hit {
                        1u8
                    } else {
                        0u8
                    }),
                    pc: pc_next(s.pc),
                    ..s
                },
                Flow::Next,
            ),
        )
    }
}

/// LD B,Vx: the decimal digits of Vx at addresses I, I+1, I+2.
pub open spec fn bcd_step(s: MachineSnap, x: u8) -> Result<(MachineSnap, Flow), Fault> {
    if s.i + 3 > RAM_SIZE {
        Err(Fault::AddressOutOfRange { pc: s.pc, addr: s.i })
    } else {
        let vx = s.v[x as int];
        Ok(
            (
                MachineSnap {
                    ram: s.ram.update(s.i as int, bcd_hundreds(vx)).update(
                        s.i + 1,
                        bcd_tens(vx),
                    ).update(s.i + 2, bcd_ones(vx)),
                    pc: pc_next(s.pc),
                    ..s
                },
                Flow::Next,
            ),
        )
    }
}

/// LD [I],Vx: block-copy V0 through Vx into memory at I.
pub open spec fn st_regs_step(s: MachineSnap, x: u8) -> Result<(MachineSnap, Flow), Fault> {
    if s.i + x + 1 > RAM_SIZE {
        Err(Fault::AddressOutOfRange { pc: s.pc, addr: s.i })
    } else {
        Ok(
            (
                MachineSnap {
                    ram: regs_stored(s.ram, s.v, s.i as int, x as int),
                    pc: pc_next(s.pc),
                    ..s
                },
                Flow::Next,
            ),
        )
    }
}

/// LD Vx,[I]: block-load V0 through Vx from memory at I.
pub open spec fn ld_regs_step(s: MachineSnap, x: u8) -> Result<(MachineSnap, Flow), Fault> {
    if s.i + x + 1 > RAM_SIZE {
        Err(Fault::AddressOutOfRange { pc: s.pc, addr: s.i })
    } else {
        Ok(
            (
                MachineSnap {
                    v: regs_loaded(s.v, s.ram, s.i as int, x as int),
                    pc: pc_next(s.pc),
                    ..s
                },
                Flow::Next,
            ),
        )
    }
}

/// The semantics of one instruction: the machine state after executing
/// `op` in state `s` with `rand` drawn from the randomness source, or the
/// fatal condition it raises.
pub open spec fn step_spec(s: MachineSnap, op: Op, rand: u8) -> Result<(MachineSnap, Flow), Fault> {
    match op {
        Op::Cls => Ok((MachineSnap { fb: blank_fb(), pc: pc_next(s.pc), ..s }, Flow::Next)),
        Op::Ret => if s.stack.len() == 0 {
            Err(Fault::StackUnderflow { pc: s.pc })
        } else {
            Ok((MachineSnap { pc: s.stack.last(), stack: s.stack.drop_last(), ..s }, Flow::Next))
        },
        Op::Jp { nnn } => Ok((MachineSnap { pc: nnn, ..s }, Flow::Next)),
        Op::Call { nnn } => if s.stack.len() >= STACK_DEPTH {
            Err(Fault::StackOverflow { pc: s.pc })
        } else {
            Ok((MachineSnap { stack: s.stack.push(pc_next(s.pc)), pc: nnn, ..s }, Flow::Next))
        },
        Op::SeImm { x, kk } => Ok(
            (MachineSnap { pc: pc_skip(s.pc, s.v[x as int] == kk), ..s }, Flow::Next),
        ),
        Op::SneImm { x, kk } => Ok(
            (MachineSnap { pc: pc_skip(s.pc, s.v[x as int] != kk), ..s }, Flow::Next),
        ),
        Op::SeReg { x, y } => Ok(
            (MachineSnap { pc: pc_skip(s.pc, s.v[x as int] == s.v[y as int]), ..s }, Flow::Next),
        ),
        Op::LdImm { x, kk } => Ok(
            (MachineSnap { v: s.v.update(x as int, kk), pc: pc_next(s.pc), ..s }, Flow::Next),
        ),
        Op::AddImm { x, kk } => Ok(
            (
                MachineSnap {
                    v: s.v.update(x as int, wrap_add(s.v[x as int], kk)),
                    pc: pc_next(s.pc),
                    ..s
                },
                Flow::Next,
            ),
        ),
        Op::LdReg { .. } => alu_step(s, op),
        Op::OrReg { .. } => alu_step(s, op),
        Op::AndReg { .. } => alu_step(s, op),
        Op::XorReg { .. } => alu_step(s, op),
        Op::AddReg { .. } => alu_step(s, op),
        Op::SubReg { .. } => alu_step(s, op),
        Op::Shr { .. } => alu_step(s, op),
        Op::SubnReg { .. } => alu_step(s, op),
        Op::Shl { .. } => alu_step(s, op),
        Op::SneReg { x, y } => Ok(
            (MachineSnap { pc: pc_skip(s.pc, s.v[x as int] != s.v[y as int]), ..s }, Flow::Next),
        ),
        Op::LdI { nnn } => Ok((MachineSnap { i: nnn, pc: pc_next(s.pc), ..s }, Flow::Next)),
        Op::JpV0 { nnn } => Ok((MachineSnap { pc: (nnn + s.v[0]) as u16, ..s }, Flow::Next)),
        Op::Rnd { x, kk } => Ok(
            (MachineSnap { v: s.v.update(x as int, rand & kk), pc: pc_next(s.pc), ..s }, Flow::Next),
        ),
        Op::Drw { x, y, n } => drw_step(s, x, y, n),
        Op::Skp { x } => if s.v[x as int] >= KEY_COUNT {
            Err(Fault::KeyOutOfRange { pc: s.pc, key: s.v[x as int] })
        } else {
            Ok((MachineSnap { pc: pc_skip(s.pc, s.keys[s.v[x as int] as int]), ..s }, Flow::Next))
        },
        Op::Sknp { x } => if s.v[x as int] >= KEY_COUNT {
            Err(Fault::KeyOutOfRange { pc: s.pc, key: s.v[x as int] })
        } else {
            Ok((MachineSnap { pc: pc_skip(s.pc, !s.keys[s.v[x as int] as int]), ..s }, Flow::Next))
        },
        Op::LdVxDt { x } => Ok(
            (
                MachineSnap { v: s.v.update(x as int, s.delay_timer), pc: pc_next(s.pc), ..s },
                Flow::Next,
            ),
        ),
        Op::LdVxKey { x } => Ok((MachineSnap { pc: pc_next(s.pc), ..s }, Flow::AwaitKey { x })),
        Op::LdDtVx { x } => Ok(
            (MachineSnap { delay_timer: s.v[x as int], pc: pc_next(s.pc), ..s }, Flow::Next),
        ),
        Op::LdStVx { x } => Ok(
            (MachineSnap { sound_timer: s.v[x as int], pc: pc_next(s.pc), ..s }, Flow::Next),
        ),
        Op::AddI { x } => if s.i + s.v[x as int] > u16::MAX {
            Err(Fault::IndexOverflow { pc: s.pc })
        } else {
            Ok((MachineSnap { i: (s.i + s.v[x as int]) as u16, pc: pc_next(s.pc), ..s }, Flow::Next))
        },
        Op::LdFont { x } => if s.v[x as int] >= 16 {
            Err(Fault::GlyphOutOfRange { pc: s.pc, digit: s.v[x as int] })
        } else {
            Ok(
                (
                    MachineSnap {
                        i: (GLYPH_BYTES * s.v[x as int]) as u16,
                        pc: pc_next(s.pc),
                        ..s
                    },
                    Flow::Next,
                ),
            )
        },
        Op::LdBcd { x } => bcd_step(s, x),
        Op::StRegs { x } => st_regs_step(s, x),
        Op::LdRegs { x } => ld_regs_step(s, x),
        // The lenient policy: an unrecognized word is a no-op that advances
        // the program counter normally. The strict policy is applied by the
        // engine before this step is taken.
        Op::Unknown { .. } => Ok((MachineSnap { pc: pc_next(s.pc), ..s }, Flow::Next)),
    }
}

impl Machine {
    /// Apply the semantics of one decoded instruction. The program counter
    /// still points at the instruction itself; on success it has been
    /// advanced or redirected as the opcode demands, and on a fault the
    /// machine is exactly as it was.
    pub fn execute(&mut self, op: Op, rand: u8) -> (r: Result<Flow, Fault>)
        requires
            old(self).wf(),
            op_wf(op),
            old(self).regs.pc + 1 < RAM_SIZE,
        ensures
            final(self).wf(),
            match step_spec(old(self)@, op, rand) {
                Ok(next) => r == Ok::<Flow, Fault>(next.1) && final(self)@ == next.0,
                Err(f) => r == Err::<Flow, Fault>(f) && final(self)@ == old(self)@,
            },
    {
        match op {
            Op::Cls => {
                self.fb.clear();
                self.regs.pc = self.regs.pc + 2;
                Ok(Flow::Next)
            },
            Op::Ret => {
                if self.stack.is_empty() {
                    return Err(Fault::StackUnderflow { pc: self.regs.pc });
                }
                let target = self.stack.pop();
                self.regs.pc = target;
                Ok(Flow::Next)
            },
            Op::Jp { nnn } => {
                self.regs.pc = nnn;
                Ok(Flow::Next)
            },
            Op::Call { nnn } => {
                if self.stack.is_full() {
                    return Err(Fault::StackOverflow { pc: self.regs.pc });
                }
                let ret = self.regs.pc + 2;
                self.stack.push(ret);
                self.regs.pc = nnn;
                Ok(Flow::Next)
            },
            Op::SeImm { x, kk } => {
                let cond = self.regs.v[x as usize] == kk;
                self.regs.pc = self.regs.pc + if cond {
                    4
                } else {
                    2
                };
                Ok(Flow::Next)
            },
            Op::SneImm { x, kk } => {
                let cond = self.regs.v[x as usize] != kk;
                self.regs.pc = self.regs.pc + if cond {
                    4
                } else {
                    2
                };
                Ok(Flow::Next)
            },
            Op::SeReg { x, y } => {
                let cond = self.regs.v[x as usize] == self.regs.v[y as usize];
                self.regs.pc = self.regs.pc + if cond {
                    4
                } else {
                    2
                };
                Ok(Flow::Next)
            },
            Op::LdImm { x, kk } => {
                self.regs.v[x as usize] = kk;
                self.regs.pc = self.regs.pc + 2;
                Ok(Flow::Next)
            },
            Op::AddImm { x, kk } => {
                let vx = self.regs.v[x as usize];
                self.regs.v[x as usize] = vx.wrapping_add(kk);
                self.regs.pc = self.regs.pc + 2;
                Ok(Flow::Next)
            },
            Op::LdReg { .. } => self.execute_alu(op),
            Op::OrReg { .. } => self.execute_alu(op),
            Op::AndReg { .. } => self.execute_alu(op),
            Op::XorReg { .. } => self.execute_alu(op),
            Op::AddReg { .. } => self.execute_alu(op),
            Op::SubReg { .. } => self.execute_alu(op),
            Op::Shr { .. } => self.execute_alu(op),
            Op::SubnReg { .. } => self.execute_alu(op),
            Op::Shl { .. } => self.execute_alu(op),
            Op::SneReg { x, y } => {
                let cond = self.regs.v[x as usize] != self.regs.v[y as usize];
                self.regs.pc = self.regs.pc + if cond {
                    4
                } else {
                    2
                };
                Ok(Flow::Next)
            },
            Op::LdI { nnn } => {
                self.regs.i = nnn;
                self.regs.pc = self.regs.pc + 2;
                Ok(Flow::Next)
            },
            Op::JpV0 { nnn } => {
                let v0 = self.regs.v[0];
                self.regs.pc = nnn + v0 as u16;
                Ok(Flow::Next)
            },
            Op::Rnd { x, kk } => {
                self.regs.v[x as usize] = rand & kk;
                self.regs.pc = self.regs.pc + 2;
                Ok(Flow::Next)
            },
            Op::Drw { x, y, n } => self.execute_draw(x, y, n),
            Op::Skp { x } => {
                let key = self.regs.v[x as usize];
                if key as usize >= KEY_COUNT {
                    return Err(Fault::KeyOutOfRange { pc: self.regs.pc, key });
                }
                let cond = self.keys[key as usize];
                self.regs.pc = self.regs.pc + if cond {
                    4
                } else {
                    2
                };
                Ok(Flow::Next)
            },
            Op::Sknp { x } => {
                let key = self.regs.v[x as usize];
                if key as usize >= KEY_COUNT {
                    return Err(Fault::KeyOutOfRange { pc: self.regs.pc, key });
                }
                let cond = !self.keys[key as usize];
                self.regs.pc = self.regs.pc + if cond {
                    4
                } else {
                    2
                };
                Ok(Flow::Next)
            },
            Op::LdVxKey { x } => {
                self.regs.pc = self.regs.pc + 2;
                Ok(Flow::AwaitKey { x })
            },
            Op::LdVxDt { .. } => self.execute_misc(op),
            Op::LdDtVx { .. } => self.execute_misc(op),
            Op::LdStVx { .. } => self.execute_misc(op),
            Op::AddI { .. } => self.execute_misc(op),
            Op::LdFont { .. } => self.execute_misc(op),
            Op::LdBcd { .. } => self.execute_misc(op),
            Op::StRegs { .. } => self.execute_misc(op),
            Op::LdRegs { .. } => self.execute_misc(op),
            Op::Unknown { .. } => {
                self.regs.pc = self.regs.pc + 2;
                Ok(Flow::Next)
            },
        }
    }

    /// The register-to-register arithmetic and logic opcodes.
    fn execute_alu(&mut self, op: Op) -> (r: Result<Flow, Fault>)
        requires
            old(self).wf(),
            op_wf(op),
            op_is_alu(op),
            old(self).regs.pc + 1 < RAM_SIZE,
        ensures
            final(self).wf(),
            r == Ok::<Flow, Fault>(Flow::Next),
            final(self)@ == (MachineSnap {
                v: alu_regs(old(self)@.v, op),
                pc: pc_next(old(self)@.pc),
                ..old(self)@
            }),
    {
        match op {
            Op::LdReg { x, y } => {
                let vy = self.regs.v[y as usize];
                self.regs.v[x as usize] = vy;
            },
            Op::OrReg { x, y } => {
                let vx = self.regs.v[x as usize];
                let vy = self.regs.v[y as usize];
                self.regs.v[x as usize] = vx | vy;
            },
            Op::AndReg { x, y } => {
                let vx = self.regs.v[x as usize];
                let vy = self.regs.v[y as usize];
                self.regs.v[x as usize] = vx & vy;
            },
            Op::XorReg { x, y } => {
                let vx = self.regs.v[x as usize];
                let vy = self.regs.v[y as usize];
                self.regs.v[x as usize] = vx ^ vy;
            },
            Op::AddReg { x, y } => {
                let vx = self.regs.v[x as usize];
                let vy = self.regs.v[y as usize];
                let carry: u8 = if vx as u16 + vy as u16 > 255 {
                    1
                } else {
                    0
                };
                self.regs.v[x as usize] = vx.wrapping_add(vy);
                self.regs.v[FLAG_REG] = carry;
            },
            Op::SubReg { x, y } => {
                let vx = self.regs.v[x as usize];
                let vy = self.regs.v[y as usize];
                self.regs.v[FLAG_REG] = if vx >= vy {
                    1
                } else {
                    0
                };
                let vx1 = self.regs.v[x as usize];
                let vy1 = self.regs.v[y as usize];
                self.regs.v[x as usize] = vx1.wrapping_sub(vy1);
            },
            Op::Shr { x } => {
                let vx = self.regs.v[x as usize];
                self.regs.v[FLAG_REG] = vx % 2;
                let vx1 = self.regs.v[x as usize];
                self.regs.v[x as usize] = vx1 >> 1u8;
                proof {
                    assert(vx1 >> 1u8 == vx1 / 2) by (bit_vector);
                }
            },
            Op::SubnReg { x, y } => {
                let vx = self.regs.v[x as usize];
                let vy = self.regs.v[y as usize];
                self.regs.v[FLAG_REG] = if vy >= vx {
                    1
                } else {
                    0
                };
                let vx1 = self.regs.v[x as usize];
                let vy1 = self.regs.v[y as usize];
                self.regs.v[x as usize] = vy1.wrapping_sub(vx1);
            },
            Op::Shl { x } => {
                let vx = self.regs.v[x as usize];
                self.regs.v[FLAG_REG] = vx >> 7u8;
                let vx1 = self.regs.v[x as usize];
                self.regs.v[x as usize] = vx1 << 1u8;
                proof {
                    assert(vx >> 7u8 == vx / 128) by (bit_vector);
                    assert(vx1 << 1u8 == ((vx1 * 2) % 256) as u8) by (bit_vector);
                }
            },
            _ => {
                proof {
                    assert(false);
                }
            },
        }
        self.regs.pc = self.regs.pc + 2;
        Ok(Flow::Next)
    }

    /// The timer, index-register and memory-block opcodes.
    fn execute_misc(&mut self, op: Op) -> (r: Result<Flow, Fault>)
        requires
            old(self).wf(),
            op_wf(op),
            op_is_misc(op),
            old(self).regs.pc + 1 < RAM_SIZE,
        ensures
            final(self).wf(),
            match step_spec(old(self)@, op, 0u8) {
                Ok(next) => r == Ok::<Flow, Fault>(next.1) && final(self)@ == next.0,
                Err(f) => r == Err::<Flow, Fault>(f) && final(self)@ == old(self)@,
            },
    {
        match op {
            Op::LdVxDt { x } => {
                let dt = self.regs.delay_timer;
                self.regs.v[x as usize] = dt;
                self.regs.pc = self.regs.pc + 2;
                Ok(Flow::Next)
            },
            Op::LdDtVx { x } => {
                self.regs.delay_timer = self.regs.v[x as usize];
                self.regs.pc = self.regs.pc + 2;
                Ok(Flow::Next)
            },
            Op::LdStVx { x } => {
                self.regs.sound_timer = self.regs.v[x as usize];
                self.regs.pc = self.regs.pc + 2;
                Ok(Flow::Next)
            },
            Op::AddI { x } => {
                let vx = self.regs.v[x as usize];
                let sum: u32 = self.regs.i as u32 + vx as u32;
                if sum > u16::MAX as u32 {
                    return Err(Fault::IndexOverflow { pc: self.regs.pc });
                }
                self.regs.i = sum as u16;
                self.regs.pc = self.regs.pc + 2;
                Ok(Flow::Next)
            },
            Op::LdFont { x } => {
                let digit = self.regs.v[x as usize];
                if digit >= 16 {
                    return Err(Fault::GlyphOutOfRange { pc: self.regs.pc, digit });
                }
                self.regs.i = GLYPH_BYTES as u16 * digit as u16;
                self.regs.pc = self.regs.pc + 2;
                Ok(Flow::Next)
            },
            Op::LdBcd { x } => {
                let i = self.regs.i;
                if i as usize + 3 > RAM_SIZE {
                    return Err(Fault::AddressOutOfRange { pc: self.regs.pc, addr: i });
                }
                let vx = self.regs.v[x as usize];
                let hundreds = vx / 100;
                let rest = vx % 100;
                let tens = rest / 10;
                let ones = rest % 10;
                self.ram.write(i as usize, hundreds);
                self.ram.write(i as usize + 1, tens);
                self.ram.write(i as usize + 2, ones);
                self.regs.pc = self.regs.pc + 2;
                proof {
                    assert((vx % 100) / 10 == bcd_tens(vx) && vx % 100 % 10 == bcd_ones(vx))
                        by (nonlinear_arith);
                }
                Ok(Flow::Next)
            },
            Op::StRegs { x } => self.execute_store_regs(x),
            Op::LdRegs { x } => self.execute_load_regs(x),
            _ => vstd::pervasive::unreached(),
        }
    }

    /// DRW Vx,Vy,n: XOR the n-byte sprite at memory I onto the grid at
    /// (Vx, Vy), wrapping coordinates, VF reporting any pixel turned off.
    fn execute_draw(&mut self, x: u8, y: u8, n: u8) -> (r: Result<Flow, Fault>)
        requires
            old(self).wf(),
            x < 16,
            y < 16,
            n < 16,
            old(self).regs.pc + 1 < RAM_SIZE,
        ensures
            final(self).wf(),
            match drw_step(old(self)@, x, y, n) {
                Ok(next) => r == Ok::<Flow, Fault>(next.1) && final(self)@ == next.0,
                Err(f) => r == Err::<Flow, Fault>(f) && final(self)@ == old(self)@,
            },
    {
        let i = self.regs.i;
        if i as usize + n as usize > RAM_SIZE {
            return Err(Fault::AddressOutOfRange { pc: self.regs.pc, addr: i });
        }
        let vx = self.regs.v[x as usize];
        let vy = self.regs.v[y as usize];
        let ghost m0 = *self;
        let ghost rows = self.ram.memory@.subrange(i as int, i as int + n as int);
        let ghost fb0 = self.fb.pixels@;
        let mut hit = false;
        let mut j: usize = 0;
        while j < n as usize
            invariant
                j <= n,
                n < 16,
                i as int + n <= RAM_SIZE,
                self.regs == m0.regs,
                self.stack == m0.stack,
                self.ram == m0.ram,
                self.keys == m0.keys,
                m0.wf(),
                self.fb.wf(),
                rows == m0.ram.memory@.subrange(i as int, i as int + n as int),
                fb0 == m0.fb.pixels@,
                vx == m0.regs.v@[x as int],
                vy == m0.regs.v@[y as int],
                i == m0.regs.i,
                self.fb.pixels@ == draw_rows(fb0, rows, vx, vy, j as int),
                hit == draw_hits(fb0, rows, vx, vy, j as int),
            decreases n - j,
        {
            let sprite = self.ram.read(i as usize + j);
            let yy = (vy as usize + j) % CHIP8_HEIGHT;
            proof {
                assert(sprite == rows[j as int]);
                assert(yy as int == (vy + j) % (CHIP8_HEIGHT as int));
            }
            let h = self.fb.draw_row(sprite, vx, yy);
            if h {
                hit = true;
            }
            j = j + 1;
        }
        self.regs.v[FLAG_REG] = if hit {
            1
        } else {
            0
        };
        self.regs.pc = self.regs.pc + 2;
        Ok(Flow::Next)
    }

    /// LD [I],Vx: block-copy registers V0 through Vx into memory at I.
    fn execute_store_regs(&mut self, x: u8) -> (r: Result<Flow, Fault>)
        requires
            old(self).wf(),
            x < 16,
            old(self).regs.pc + 1 < RAM_SIZE,
        ensures
            final(self).wf(),
            match st_regs_step(old(self)@, x) {
                Ok(next) => r == Ok::<Flow, Fault>(next.1) && final(self)@ == next.0,
                Err(f) => r == Err::<Flow, Fault>(f) && final(self)@ == old(self)@,
            },
    {
        let i = self.regs.i;
        if i as usize + x as usize + 1 > RAM_SIZE {
            return Err(Fault::AddressOutOfRange { pc: self.regs.pc, addr: i });
        }
        let ghost m0 = *self;
        let mut k: usize = 0;
        while k <= x as usize
            invariant
                k <= x as usize + 1,
                x < 16,
                i as int + x + 1 <= RAM_SIZE,
                self.regs == m0.regs,
                self.stack == m0.stack,
                self.fb == m0.fb,
                self.keys == m0.keys,
                m0.wf(),
                self.ram.wf(),
                i == m0.regs.i,
                forall|t: int|
                    0 <= t < RAM_SIZE ==> self.ram.memory@[t] == (if i <= t < i + k {
                        m0.regs.v@[t - i]
                    } else {
                        m0.ram.memory@[t]
                    }),
            decreases x as usize + 1 - k,
        {
            let b = self.regs.v[k];
            self.ram.write(i as usize + k, b);
            k = k + 1;
        }
        self.regs.pc = self.regs.pc + 2;
        proof {
            assert(self.ram.memory@ =~= regs_stored(
                m0.ram.memory@,
                m0.regs.v@,
                i as int,
                x as int,
            ));
        }
        Ok(Flow::Next)
    }

    /// LD Vx,[I]: block-load registers V0 through Vx from memory at I.
    fn execute_load_regs(&mut self, x: u8) -> (r: Result<Flow, Fault>)
        requires
            old(self).wf(),
            x < 16,
            old(self).regs.pc + 1 < RAM_SIZE,
        ensures
            final(self).wf(),
            match ld_regs_step(old(self)@, x) {
                Ok(next) => r == Ok::<Flow, Fault>(next.1) && final(self)@ == next.0,
                Err(f) => r == Err::<Flow, Fault>(f) && final(self)@ == old(self)@,
            },
    {
        let i = self.regs.i;
        if i as usize + x as usize + 1 > RAM_SIZE {
            return Err(Fault::AddressOutOfRange { pc: self.regs.pc, addr: i });
        }
        let ghost m0 = *self;
        let mut k: usize = 0;
        while k <= x as usize
            invariant
                k <= x as usize + 1,
                x < 16,
                i as int + x + 1 <= RAM_SIZE,
                self.stack == m0.stack,
                self.fb == m0.fb,
                self.keys == m0.keys,
                self.ram == m0.ram,
                self.regs.i == m0.regs.i,
                self.regs.pc == m0.regs.pc,
                self.regs.delay_timer == m0.regs.delay_timer,
                self.regs.sound_timer == m0.regs.sound_timer,
                m0.wf(),
                self.regs.wf(),
                i == m0.regs.i,
                forall|r_idx: int|
                    0 <= r_idx < GPR_SIZE ==> self.regs.v@[r_idx] == (if r_idx < k {
                        m0.ram.memory@[i + r_idx]
                    } else {
                        m0.regs.v@[r_idx]
                    }),
            decreases x as usize + 1 - k,
        {
            let b = self.ram.read(i as usize + k);
            self.regs.v[k] = b;
            k = k + 1;
        }
        self.regs.pc = self.regs.pc + 2;
        proof {
            assert(self.regs.v@ =~= regs_loaded(m0.regs.v@, m0.ram.memory@, i as int, x as int));
        }
        Ok(Flow::Next)
    }
}

} // verus!
