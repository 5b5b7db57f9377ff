//! Flat byte-addressable store with a reserved low region for the built-in
//! glyph bitmaps and a loadable program region starting at `PROGRAM_START`.
use vstd::prelude::*;

use crate::PROGRAM_START;
use crate::RAM_SIZE;

verus! {

/// Bytes in one built-in glyph bitmap.
pub const GLYPH_BYTES: usize = 5;

/// Bytes taken by all sixteen glyph bitmaps together.
pub const FONT_BYTES: usize = 80;

/// Reasons a program image is refused before any execution begins.
#[derive(Clone, Copy, PartialEq, Eq, Structural, Debug)]
pub enum LoadError {
    /// The image does not fit between `PROGRAM_START` and the end of memory.
    ImageTooLarge,
}

/// The built-in glyph bitmaps for the hexadecimal digits 0 through F,
/// five bytes per glyph, sixteen glyphs.
pub open spec fn spec_font() -> Seq<u8> {
    seq![
        0xF0u8, 0x90, 0x90, 0x90, 0xF0, // 0
        0x20, 0x60, 0x20, 0x20, 0x70, // 1
        0xF0, 0x10, 0xF0, 0x80, 0xF0, // 2
        0xF0, 0x10, 0xF0, 0x10, 0xF0, // 3
        0x90, 0x90, 0xF0, 0x10, 0x10, // 4
        0xF0, 0x80, 0xF0, 0x10, 0xF0, // 5
        0xF0, 0x80, 0xF0, 0x90, 0xF0, // 6
        0xF0, 0x10, 0x20, 0x40, 0x40, // 7
        0xF0, 0x90, 0xF0, 0x90, 0xF0, // 8
        0xF0, 0x90, 0xF0, 0x10, 0xF0, // 9
        0xF0, 0x90, 0xF0, 0x90, 0x90, // A
        0xE0, 0x90, 0xE0, 0x90, 0xE0, // B
        0xF0, 0x80, 0x80, 0x80, 0xF0, // C
        0xE0, 0x90, 0x90, 0x90, 0xE0, // D
        0xF0, 0x80, 0xF0, 0x80, 0xF0, // E
        0xF0, 0x80, 0xF0, 0x80, 0x80, // F
    ]
}

/// Memory contents right after reset: glyphs in the low region, the program
/// image at `PROGRAM_START`, zero everywhere else.
pub open spec fn spec_loaded(rom: Seq<u8>) -> Seq<u8> {
    Seq::new(
        RAM_SIZE as nat,
        |i: int|
            if i < FONT_BYTES {
                spec_font()[i]
            } else if PROGRAM_START <= i < PROGRAM_START + rom.len() {
                rom[i - PROGRAM_START]
            } else {
                0u8
            },
    )
}

/// The glyph bitmaps as executable data, in glyph order.
pub fn font_set() -> (font: Vec<u8>)
    ensures
        font@ == spec_font(),
{
    let font: Vec<u8> = vec![
        0xF0u8, 0x90, 0x90, 0x90, 0xF0, // 0
        0x20, 0x60, 0x20, 0x20, 0x70, // 1
        0xF0, 0x10, 0xF0, 0x80, 0xF0, // 2
        0xF0, 0x10, 0xF0, 0x10, 0xF0, // 3
        0x90, 0x90, 0xF0, 0x10, 0x10, // 4
        0xF0, 0x80, 0xF0, 0x10, 0xF0, // 5
        0xF0, 0x80, 0xF0, 0x90, 0xF0, // 6
        0xF0, 0x10, 0x20, 0x40, 0x40, // 7
        0xF0, 0x90, 0xF0, 0x90, 0xF0, // 8
        0xF0, 0x90, 0xF0, 0x10, 0xF0, // 9
        0xF0, 0x90, 0xF0, 0x90, 0x90, // A
        0xE0, 0x90, 0xE0, 0x90, 0xE0, // B
        0xF0, 0x80, 0x80, 0x80, 0xF0, // C
        0xE0, 0x90, 0x90, 0x90, 0xE0, // D
        0xF0, 0x80, 0xF0, 0x80, 0xF0, // E
        0xF0, 0x80, 0xF0, 0x80, 0x80, // F
    ];
    proof {
        assert(font@ =~= spec_font());
    }
    font
}

/// The byte-addressable store. Every access must fall within capacity;
/// callers check an address before touching it, never wrap it silently.
pub struct RamArray {
    pub memory: Vec<u8>,
}

impl RamArray {
    /// The store always holds exactly `RAM_SIZE` bytes.
    pub open spec fn wf(&self) -> bool {
        self.memory@.len() == RAM_SIZE
    }

    /// Fresh, all-zero memory.
    pub fn new() -> (ram: RamArray)
        ensures
            ram.wf(),
            ram.memory@ == Seq::new(RAM_SIZE as nat, |i: int| 0u8),
    {
        let memory: Vec<u8> = vec![0u8; RAM_SIZE];
        proof {
            assert(memory@ =~= Seq::new(RAM_SIZE as nat, |i: int| 0u8));
        }
        RamArray { memory }
    }

    /// Memory holding the glyphs and the given program image, if it fits.
    pub fn with_image(rom: &Vec<u8>) -> (result: Result<RamArray, LoadError>)
        ensures
            match result {
                Ok(ram) => rom@.len() <= RAM_SIZE - PROGRAM_START && ram.wf() && ram.memory@
                    == spec_loaded(rom@),
                Err(e) => e == LoadError::ImageTooLarge && rom@.len() > RAM_SIZE - PROGRAM_START,
            },
    {
        if rom.len() > RAM_SIZE - PROGRAM_START {
            return Err(LoadError::ImageTooLarge);
        }
        let mut ram = RamArray::new();
        let font = font_set();
        let mut i: usize = 0;
        while i < FONT_BYTES
            invariant
                i <= FONT_BYTES,
                ram.wf(),
                font@ == spec_font(),
                forall|k: int| 0 <= k < i ==> ram.memory@[k] == spec_font()[k],
                forall|k: int| i <= k < RAM_SIZE ==> ram.memory@[k] == 0u8,
            decreases FONT_BYTES - i,
        {
            let b = font[i];
            ram.memory[i] = b;
            i = i + 1;
        }
        let mut j: usize = 0;
        while j < rom.len()
            invariant
                j <= rom@.len(),
                rom@.len() <= RAM_SIZE - PROGRAM_START,
                ram.wf(),
                forall|k: int| 0 <= k < FONT_BYTES ==> ram.memory@[k] == spec_font()[k],
                forall|k: int|
                    PROGRAM_START <= k < PROGRAM_START + j ==> ram.memory@[k] == rom@[k
                        - PROGRAM_START],
                forall|k: int|
                    FONT_BYTES <= k < RAM_SIZE && !(PROGRAM_START <= k < PROGRAM_START + j)
                        ==> ram.memory@[k] == 0u8,
            decreases rom@.len() - j,
        {
            let b = rom[j];
            ram.memory[PROGRAM_START + j] = b;
            j = j + 1;
        }
        proof {
            assert(ram.memory@ =~= spec_loaded(rom@));
        }
        Ok(ram)
    }

    /// The byte at `addr`.
    pub fn read(&self, addr: usize) -> (b: u8)
        requires
            self.wf(),
            addr < RAM_SIZE,
        ensures
            b == self.memory@[addr as int],
    {
        self.memory[addr]
    }

    /// Replace the byte at `addr`.
    pub fn write(&mut self, addr: usize, b: u8)
        requires
            old(self).wf(),
            addr < RAM_SIZE,
        ensures
            final(self).wf(),
            final(self).memory@ == old(self).memory@.update(addr as int, b),
    {
        self.memory[addr] = b;
    }
}

} // verus!
