//! The whole virtual-machine state, owned as one object and mutated only
//! by the executor and the engine, and its mathematical model.
use vstd::prelude::*;

use crate::framebuffer::blank_fb;
use crate::framebuffer::Framebuffer;
use crate::ram::LoadError;
use crate::ram::RamArray;
use crate::ram::spec_loaded;
use crate::registers::RegisterFile;
use crate::stack::CallStack;
use crate::CHIP8_HEIGHT;
use crate::CHIP8_WIDTH;
use crate::GPR_SIZE;
use crate::KEY_COUNT;
use crate::PROGRAM_START;
use crate::RAM_SIZE;
use crate::STACK_DEPTH;

verus! {

/// Mathematical model of one machine state: what every contract of the
/// decoder-executor-engine pipeline speaks of.
pub ghost struct MachineSnap {
    /// General-purpose registers V0 through VF.
    pub v: Seq<u8>,
    /// Index register I.
    pub i: u16,
    /// Program counter.
    pub pc: u16,
    /// Delay timer.
    pub delay_timer: u8,
    /// Sound timer.
    pub sound_timer: u8,
    /// Return addresses, oldest first.
    pub stack: Seq<u16>,
    /// Every memory byte.
    pub ram: Seq<u8>,
    /// Every pixel, row-major.
    pub fb: Seq<bool>,
    /// Which of the sixteen logical keys is pressed.
    pub keys: Seq<bool>,
}

impl MachineSnap {
    /// Dimensions every reachable machine state keeps.
    pub open spec fn wf(&self) -> bool {
        &&& self.v.len() == GPR_SIZE
        &&& self.stack.len() <= STACK_DEPTH
        &&& self.ram.len() == RAM_SIZE
        &&& self.fb.len() == CHIP8_WIDTH * CHIP8_HEIGHT
        &&& self.keys.len() == KEY_COUNT
    }
}

/// The machine state: registers, call stack, memory, pixel grid and the
/// key snapshot the keyboard collaborator handed over last tick.
pub struct Machine {
    pub regs: RegisterFile,
    pub stack: CallStack,
    pub ram: RamArray,
    pub fb: Framebuffer,
    pub keys: Vec<bool>,
}

impl View for Machine {
    type V = MachineSnap;

    open spec fn view(&self) -> MachineSnap {
        MachineSnap {
            v: self.regs.v@,
            i: self.regs.i,
            pc: self.regs.pc,
            delay_timer: self.regs.delay_timer,
            sound_timer: self.regs.sound_timer,
            stack: self.stack.frames@,
            ram: self.ram.memory@,
            fb: self.fb.pixels@,
            keys: self.keys@,
        }
    }
}

/// The model of a machine right after reset with program image `rom`.
pub open spec fn spec_reset(rom: Seq<u8>) -> MachineSnap {
    MachineSnap {
        v: Seq::new(GPR_SIZE as nat, |k: int| 0u8),
        i: 0,
        pc: PROGRAM_START as u16,
        delay_timer: 0,
        sound_timer: 0,
        stack: Seq::<u16>::empty(),
        ram: spec_loaded(rom),
        fb: blank_fb(),
        keys: Seq::new(KEY_COUNT as nat, |k: int| false),
    }
}

impl Machine {
    /// Components agree with the model's dimensions.
    pub open spec fn wf(&self) -> bool {
        &&& self.regs.wf()
        &&& self.stack.wf()
        &&& self.ram.wf()
        &&& self.fb.wf()
        &&& self.keys@.len() == KEY_COUNT
    }

    /// A machine reset around the given program image: glyphs in low
    /// memory, the image at `PROGRAM_START`, everything else zeroed, the
    /// program counter at the start of the program region. Fails if and
    /// only if the image does not fit.
    pub fn with_image(rom: &Vec<u8>) -> (result: Result<Machine, LoadError>)
        ensures
            match result {
                Ok(m) => rom@.len() <= RAM_SIZE - PROGRAM_START && m.wf() && m@ == spec_reset(
                    rom@,
                ),
                Err(e) => e == LoadError::ImageTooLarge && rom@.len() > RAM_SIZE - PROGRAM_START,
            },
    {
        let ram = match RamArray::with_image(rom) {
            Ok(ram) => ram,
            Err(e) => {
                return Err(e);
            },
        };
        let keys: Vec<bool> = vec![false; KEY_COUNT];
        proof {
            assert(keys@ =~= Seq::new(KEY_COUNT as nat, |k: int| false));
        }
        let m = Machine {
            regs: RegisterFile::new(),
            stack: CallStack::new(),
            ram,
            fb: Framebuffer::new(),
            keys,
        };
        proof {
            assert(m@ == spec_reset(rom@));
        }
        Ok(m)
    }
}

} // verus!
