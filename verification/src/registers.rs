//! The register file: sixteen general-purpose byte registers V0 through VF,
//! the 16-bit index register I, the program counter, and the two 8-bit
//! countdown timers.
//!
//! VF doubles as the destination for arithmetic, shift and draw-collision
//! flags; an instruction that writes a flag there does so as its last
//! effect, after consuming the pre-flag value of every operand register.
use vstd::prelude::*;

use crate::GPR_SIZE;
use crate::PROGRAM_START;

verus! {

/// Index of the flag register VF among the general-purpose registers.
pub const FLAG_REG: usize = 15;

pub struct RegisterFile {
    /// General-purpose registers V0 through VF.
    pub v: Vec<u8>,
    /// Index register I.
    pub i: u16,
    /// Program counter; advances by exactly 2 per non-branching instruction.
    pub pc: u16,
    /// Delay timer, decremented by 1 per external tick while above zero.
    pub delay_timer: u8,
    /// Sound timer; a tone plays while it is above zero.
    pub sound_timer: u8,
}

impl RegisterFile {
    /// There are always exactly `GPR_SIZE` general-purpose registers.
    pub open spec fn wf(&self) -> bool {
        self.v@.len() == GPR_SIZE
    }

    /// Registers at machine reset: everything zero but the program counter,
    /// which points at the start of the program region.
    pub fn new() -> (regs: RegisterFile)
        ensures
            regs.wf(),
            regs.v@ == Seq::new(GPR_SIZE as nat, |k: int| 0u8),
            regs.i == 0,
            regs.pc == PROGRAM_START,
            regs.delay_timer == 0,
            regs.sound_timer == 0,
    {
        let v: Vec<u8> = vec![0u8; GPR_SIZE];
        proof {
            assert(v@ =~= Seq::new(GPR_SIZE as nat, |k: int| 0u8));
        }
        RegisterFile { v, i: 0, pc: PROGRAM_START as u16, delay_timer: 0, sound_timer: 0 }
    }
}

} // verus!
