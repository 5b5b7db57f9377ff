//! The instruction decoder: a pure function from a raw 2-byte instruction
//! word to a structured opcode descriptor. Every 16-bit value decodes;
//! a word whose semantic class is unrecognized becomes `Op::Unknown`.
use vstd::prelude::*;

verus! {

/// The raw class nibble and every operand field a handler might need.
#[derive(Clone, Copy, PartialEq, Eq, Structural, Debug)]
pub struct OpcodeFields {
    /// High nibble of the first byte: the opcode class.
    pub class: u8,
    /// Low nibble of the first byte: first register index.
    pub x: u8,
    /// High nibble of the second byte: second register index.
    pub y: u8,
    /// Low nibble of the second byte: 4-bit count.
    pub n: u8,
    /// The whole second byte: immediate operand.
    pub kk: u8,
    /// 12-bit address operand.
    pub nnn: u16,
}

/// One decoded instruction: opcode class plus the operands it consumes.
#[derive(Clone, Copy, PartialEq, Eq, Structural, Debug)]
pub enum Op {
    /// Clear the pixel grid.
    Cls,
    /// Return from a subroutine.
    Ret,
    /// Jump to `nnn`.
    Jp { nnn: u16 },
    /// Call the subroutine at `nnn`.
    Call { nnn: u16 },
    /// Skip the next instruction if Vx equals `kk`.
    SeImm { x: u8, kk: u8 },
    /// Skip the next instruction if Vx differs from `kk`.
    SneImm { x: u8, kk: u8 },
    /// Skip the next instruction if Vx equals Vy.
    SeReg { x: u8, y: u8 },
    /// Vx := `kk`.
    LdImm { x: u8, kk: u8 },
    /// Vx := Vx + `kk`, 8-bit wraparound, no flag.
    AddImm { x: u8, kk: u8 },
    /// Vx := Vy.
    LdReg { x: u8, y: u8 },
    /// Vx := Vx | Vy.
    OrReg { x: u8, y: u8 },
    /// Vx := Vx & Vy.
    AndReg { x: u8, y: u8 },
    /// Vx := Vx ^ Vy.
    XorReg { x: u8, y: u8 },
    /// Vx := Vx + Vy with VF as carry flag.
    AddReg { x: u8, y: u8 },
    /// Vx := Vx - Vy with VF as no-borrow flag.
    SubReg { x: u8, y: u8 },
    /// VF := least-significant bit of Vx, then Vx := Vx >> 1.
    Shr { x: u8 },
    /// Vx := Vy - Vx with VF as no-borrow flag.
    SubnReg { x: u8, y: u8 },
    /// VF := most-significant bit of Vx, then Vx := Vx << 1.
    Shl { x: u8 },
    /// Skip the next instruction if Vx differs from Vy.
    SneReg { x: u8, y: u8 },
    /// I := `nnn`.
    LdI { nnn: u16 },
    /// Jump to `nnn` + V0.
    JpV0 { nnn: u16 },
    /// Vx := random byte & `kk`.
    Rnd { x: u8, kk: u8 },
    /// Draw the `n`-byte sprite at memory I at coordinates (Vx, Vy).
    Drw { x: u8, y: u8, n: u8 },
    /// Skip the next instruction if key Vx is pressed.
    Skp { x: u8 },
    /// Skip the next instruction if key Vx is not pressed.
    Sknp { x: u8 },
    /// Vx := delay timer.
    LdVxDt { x: u8 },
    /// Suspend until a key press arrives, then Vx := its code.
    LdVxKey { x: u8 },
    /// Delay timer := Vx.
    LdDtVx { x: u8 },
    /// Sound timer := Vx.
    LdStVx { x: u8 },
    /// I := I + Vx.
    AddI { x: u8 },
    /// I := address of the built-in glyph for digit Vx.
    LdFont { x: u8 },
    /// Store the decimal digits of Vx at I, I+1, I+2.
    LdBcd { x: u8 },
    /// Block-copy V0 through Vx into memory at I.
    StRegs { x: u8 },
    /// Block-load V0 through Vx from memory at I.
    LdRegs { x: u8 },
    /// A word outside the instruction set; the engine's policy decides.
    Unknown { byte1: u8, byte2: u8 },
}

/// Field values of a decoded word, stated arithmetically.
pub open spec fn spec_fields(byte1: u8, byte2: u8) -> OpcodeFields {
    OpcodeFields {
        class: (byte1 / 16) as u8,
        x: (byte1 % 16) as u8,
        y: (byte2 / 16) as u8,
        n: (byte2 % 16) as u8,
        kk: byte2,
        nnn: ((byte1 % 16) * 256 + byte2) as u16,
    }
}

/// The opcode a decoded word stands for.
pub open spec fn spec_classify(byte1: u8, byte2: u8) -> Op {
    let f = spec_fields(byte1, byte2);
    if f.class == 0x0 {
        if byte2 == 0xE0 {
            Op::Cls
        } else if byte2 == 0xEE {
            Op::Ret
        } else {
            Op::Unknown { byte1, byte2 }
        }
    } else if f.class == 0x1 {
        Op::Jp { nnn: f.nnn }
    } else if f.class == 0x2 {
        Op::Call { nnn: f.nnn }
    } else if f.class == 0x3 {
        Op::SeImm { x: f.x, kk: f.kk }
    } else if f.class == 0x4 {
        Op::SneImm { x: f.x, kk: f.kk }
    } else if f.class == 0x5 {
        Op::SeReg { x: f.x, y: f.y }
    } else if f.class == 0x6 {
        Op::LdImm { x: f.x, kk: f.kk }
    } else if f.class == 0x7 {
        Op::AddImm { x: f.x, kk: f.kk }
    } else if f.class == 0x8 {
        if f.n == 0x0 {
            Op::LdReg { x: f.x, y: f.y }
        } else if f.n == 0x1 {
            Op::OrReg { x: f.x, y: f.y }
        } else if f.n == 0x2 {
            Op::AndReg { x: f.x, y: f.y }
        } else if f.n == 0x3 {
            Op::XorReg { x: f.x, y: f.y }
        } else if f.n == 0x4 {
            Op::AddReg { x: f.x, y: f.y }
        } else if f.n == 0x5 {
            Op::SubReg { x: f.x, y: f.y }
        } else if f.n == 0x6 {
            Op::Shr { x: f.x }
        } else if f.n == 0x7 {
            Op::SubnReg { x: f.x, y: f.y }
        } else if f.n == 0xE {
            Op::Shl { x: f.x }
        } else {
            Op::Unknown { byte1, byte2 }
        }
    } else if f.class == 0x9 {
        Op::SneReg { x: f.x, y: f.y }
    } else if f.class == 0xA {
        Op::LdI { nnn: f.nnn }
    } else if f.class == 0xB {
        Op::JpV0 { nnn: f.nnn }
    } else if f.class == 0xC {
        Op::Rnd { x: f.x, kk: f.kk }
    } else if f.class == 0xD {
        Op::Drw { x: f.x, y: f.y, n: f.n }
    } else if f.class == 0xE {
        if byte2 == 0x9E {
            Op::Skp { x: f.x }
        } else if byte2 == 0xA1 {
            Op::Sknp { x: f.x }
        } else {
            Op::Unknown { byte1, byte2 }
        }
    } else {
        if byte2 == 0x07 {
            Op::LdVxDt { x: f.x }
        } else if byte2 == 0x0A {
            Op::LdVxKey { x: f.x }
        } else if byte2 == 0x15 {
            Op::LdDtVx { x: f.x }
        } else if byte2 == 0x18 {
            Op::LdStVx { x: f.x }
        } else if byte2 == 0x1E {
            Op::AddI { x: f.x }
        } else if byte2 == 0x29 {
            Op::LdFont { x: f.x }
        } else if byte2 == 0x33 {
            Op::LdBcd { x: f.x }
        } else if byte2 == 0x55 {
            Op::StRegs { x: f.x }
        } else if byte2 == 0x65 {
            Op::LdRegs { x: f.x }
        } else {
            Op::Unknown { byte1, byte2 }
        }
    }
}

/// Every register index a decoded opcode carries is a nibble, every count
/// is a nibble, and every address fits in 12 bits.
pub open spec fn op_wf(op: Op) -> bool {
    match op {
        Op::Cls => true,
        Op::Ret => true,
        Op::Jp { nnn } => nnn < 4096,
        Op::Call { nnn } => nnn < 4096,
        Op::SeImm { x, .. } => x < 16,
        Op::SneImm { x, .. } => x < 16,
        Op::SeReg { x, y } => x < 16 && y < 16,
        Op::LdImm { x, .. } => x < 16,
        Op::AddImm { x, .. } => x < 16,
        Op::LdReg { x, y } => x < 16 && y < 16,
        Op::OrReg { x, y } => x < 16 && y < 16,
        Op::AndReg { x, y } => x < 16 && y < 16,
        Op::XorReg { x, y } => x < 16 && y < 16,
        Op::AddReg { x, y } => x < 16 && y < 16,
        Op::SubReg { x, y } => x < 16 && y < 16,
        Op::Shr { x } => x < 16,
        Op::SubnReg { x, y } => x < 16 && y < 16,
        Op::Shl { x } => x < 16,
        Op::SneReg { x, y } => x < 16 && y < 16,
        Op::LdI { nnn } => nnn < 4096,
        Op::JpV0 { nnn } => nnn < 4096,
        Op::Rnd { x, .. } => x < 16,
        Op::Drw { x, y, n } => x < 16 && y < 16 && n < 16,
        Op::Skp { x } => x < 16,
        Op::Sknp { x } => x < 16,
        Op::LdVxDt { x } => x < 16,
        Op::LdVxKey { x } => x < 16,
        Op::LdDtVx { x } => x < 16,
        Op::LdStVx { x } => x < 16,
        Op::AddI { x } => x < 16,
        Op::LdFont { x } => x < 16,
        Op::LdBcd { x } => x < 16,
        Op::StRegs { x } => x < 16,
        Op::LdRegs { x } => x < 16,
        Op::Unknown { .. } => true,
    }
}

/// Split a raw instruction word into its operand fields.
pub fn decode_fields(byte1: u8, byte2: u8) -> (f: OpcodeFields)
    ensures
        f == spec_fields(byte1, byte2),
{
    let class = byte1 >> 4;
    let x = byte1 & 0x0F;
    let y = byte2 >> 4;
    let n = byte2 & 0x0F;
    let nnn = ((x as u16) << 8) | (byte2 as u16);
    proof {
        assert(byte1 >> 4 == byte1 / 16 && byte1 & 0x0F == byte1 % 16) by (bit_vector);
        assert(byte2 >> 4 == byte2 / 16 && byte2 & 0x0F == byte2 % 16) by (bit_vector);
        assert((((byte1 & 0x0F) as u16) << 8) | (byte2 as u16) == (byte1 % 16) * 256 + byte2)
            by (bit_vector);
    }
    OpcodeFields { class, x, y, n, kk: byte2, nnn }
}

/// Turn a raw instruction word into the opcode it stands for.
pub fn decode(byte1: u8, byte2: u8) -> (op: Op)
    ensures
        op == spec_classify(byte1, byte2),
        op_wf(op),
{
    let f = decode_fields(byte1, byte2);
    proof {
        assert(f.class < 16 && f.x < 16 && f.y < 16 && f.n < 16 && f.nnn < 4096);
    }
    match f.class {
        0x0 => match f.kk {
            0xE0 => Op::Cls,
            0xEE => Op::Ret,
            _ => Op::Unknown { byte1, byte2 },
        },
        0x1 => Op::Jp { nnn: f.nnn },
        0x2 => Op::Call { nnn: f.nnn },
        0x3 => Op::SeImm { x: f.x, kk: f.kk },
        0x4 => Op::SneImm { x: f.x, kk: f.kk },
        0x5 => Op::SeReg { x: f.x, y: f.y },
        0x6 => Op::LdImm { x: f.x, kk: f.kk },
        0x7 => Op::AddImm { x: f.x, kk: f.kk },
        0x8 => match f.n {
            0x0 => Op::LdReg { x: f.x, y: f.y },
            0x1 => Op::OrReg { x: f.x, y: f.y },
            0x2 => Op::AndReg { x: f.x, y: f.y },
            0x3 => Op::XorReg { x: f.x, y: f.y },
            0x4 => Op::AddReg { x: f.x, y: f.y },
            0x5 => Op::SubReg { x: f.x, y: f.y },
            0x6 => Op::Shr { x: f.x },
            0x7 => Op::SubnReg { x: f.x, y: f.y },
            0xE => Op::Shl { x: f.x },
            _ => Op::Unknown { byte1, byte2 },
        },
        0x9 => Op::SneReg { x: f.x, y: f.y },
        0xA => Op::LdI { nnn: f.nnn },
        0xB => Op::JpV0 { nnn: f.nnn },
        0xC => Op::Rnd { x: f.x, kk: f.kk },
        0xD => Op::Drw { x: f.x, y: f.y, n: f.n },
        0xE => match f.kk {
            0x9E => Op::Skp { x: f.x },
            0xA1 => Op::Sknp { x: f.x },
            _ => Op::Unknown { byte1, byte2 },
        },
        _ => match f.kk {
            0x07 => Op::LdVxDt { x: f.x },
            0x0A => Op::LdVxKey { x: f.x },
            0x15 => Op::LdDtVx { x: f.x },
            0x18 => Op::LdStVx { x: f.x },
            0x1E => Op::AddI { x: f.x },
            0x29 => Op::LdFont { x: f.x },
            0x33 => Op::LdBcd { x: f.x },
            0x55 => Op::StRegs { x: f.x },
            0x65 => Op::LdRegs { x: f.x },
            _ => Op::Unknown { byte1, byte2 },
        },
    }
}

} // verus!
