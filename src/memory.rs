use vstd::prelude::*;

use crate::consts;
use crate::consts::font_bytes;
use crate::errors::Chip8Error;

verus! {

/// The 4096-byte address space, with the table of glyph start addresses.
pub struct Memory {
    memory_space: Vec<u8>,
    font_addresses: [u16; 16],
}

/// The glyph start addresses once the font is loaded: digit `d` starts at `5 * d`.
pub open spec fn loaded_font_table() -> Seq<u16> {
    Seq::new(16, |d: int| (consts::FONT_START_ADDR + consts::FONT_GLYPH_SIZE * d) as u16)
}

/// `cells` with the glyphs written over its first 80 bytes.
pub open spec fn with_font(cells: Seq<u8>) -> Seq<u8> {
    Seq::new(cells.len(), |k: int| if k < font_bytes().len() { font_bytes()[k] } else { cells[k] })
}

/// Memory right after loading `rom`: glyphs at the bottom, the program at 0x200,
/// zero everywhere else.
pub open spec fn initial_memory(rom: Seq<u8>) -> Seq<u8> {
    Seq::new(
        consts::MEMORY_SIZE as nat,
        |k: int|
            if k < font_bytes().len() {
                font_bytes()[k]
            } else if consts::PROGRAM_MEMORY_ADDR <= k < consts::PROGRAM_MEMORY_ADDR + rom.len() {
                rom[k - consts::PROGRAM_MEMORY_ADDR]
            } else {
                0u8
            },
    )
}

impl Memory {
    /// The bytes of the address space, by address.
    pub closed spec fn cells(&self) -> Seq<u8> {
        self.memory_space@
    }

    /// The recorded glyph start address of each digit.
    pub closed spec fn font_table(&self) -> Seq<u16> {
        self.font_addresses@
    }

    pub open spec fn wf(&self) -> bool {
        &&& self.cells().len() == consts::MEMORY_SIZE
        &&& self.font_table().len() == 16
    }

    /// An all-zero address space with an all-zero glyph table.
    pub fn new() -> (m: Memory)
        ensures
            m.wf(),
            m.cells() == Seq::new(consts::MEMORY_SIZE as nat, |k: int| 0u8),
            m.font_table() == Seq::new(16, |d: int| 0u16),
    {
        let m = Memory { memory_space: vec![0u8; consts::MEMORY_SIZE], font_addresses: [0; 16] };
        assert(m.cells() =~= Seq::new(consts::MEMORY_SIZE as nat, |k: int| 0u8));
        assert(m.font_table() =~= Seq::new(16, |d: int| 0u16));
        m
    }

    /// Writes the sixteen glyphs from `FONT_START_ADDR` on and records where each starts.
    pub fn load_font(&mut self)
        requires
            old(self).wf(),
        ensures
            final(self).wf(),
            final(self).cells() == with_font(old(self).cells()),
            final(self).font_table() == loaded_font_table(),
    {
        let font = consts::font_content();
        let mut font_index: u16 = consts::FONT_START_ADDR as u16;
        let mut digit: usize = 0;
        while digit < 16
            invariant
                self.wf(),
                font@ == font_bytes(),
                0 <= digit <= 16,
                font_index == consts::FONT_GLYPH_SIZE * digit,
                forall|d: int| 0 <= d < digit ==> self.font_table()[d] == loaded_font_table()[d],
                forall|k: int|
                    0 <= k < consts::MEMORY_SIZE ==> self.cells()[k] == if k < font_index {
                        font_bytes()[k]
                    } else {
                        old(self).cells()[k]
                    },
            decreases 16 - digit,
        {
            self.font_addresses[digit] = font_index;
            let mut row: usize = 0;
            while row < consts::FONT_GLYPH_SIZE
                invariant
                    self.wf(),
                    font@ == font_bytes(),
                    0 <= digit < 16,
                    0 <= row <= consts::FONT_GLYPH_SIZE,
                    font_index == consts::FONT_GLYPH_SIZE * digit + row,
                    forall|d: int| 0 <= d <= digit ==> self.font_table()[d] == loaded_font_table()[d],
                    forall|k: int|
                        0 <= k < consts::MEMORY_SIZE ==> self.cells()[k] == if k < font_index {
                            font_bytes()[k]
                        } else {
                            old(self).cells()[k]
                        },
                decreases consts::FONT_GLYPH_SIZE - row,
            {
                let b = font[font_index as usize];
                self.set_value(font_index, b);
                font_index += 1;
                row += 1;
            }
            digit += 1;
        }
        assert(self.cells() =~= with_font(old(self).cells()));
        assert(self.font_table() =~= loaded_font_table());
    }

    /// The start address of the glyph of `digit`; digits above 0xF have none.
    pub fn get_font_addr(&self, digit: u8) -> (r: Result<u16, Chip8Error>)
        requires
            self.wf(),
        ensures
            digit < 16 ==> r == Ok::<u16, Chip8Error>(self.font_table()[digit as int]),
            digit >= 16 ==> r == Err::<u16, Chip8Error>(Chip8Error::InvalidKeycode(digit)),
    {
        if digit as usize >= self.font_addresses.len() {
            return Err(Chip8Error::InvalidKeycode(digit));
        }
        Ok(self.font_addresses[digit as usize])
    }

    /// Memory holding `rom_content` at 0x200 and the glyphs at the bottom.
    pub fn new_from_rom(rom_content: Vec<u8>) -> (m: Memory)
        requires
            rom_content.len() <= consts::MEMORY_SIZE - consts::PROGRAM_MEMORY_ADDR,
        ensures
            m.wf(),
            m.cells() == initial_memory(rom_content@),
            m.font_table() == loaded_font_table(),
    {
        let mut mem = Memory::new();
        let mut counter: u16 = consts::PROGRAM_MEMORY_ADDR as u16;
        let mut i: usize = 0;
        while i < rom_content.len()
            invariant
                mem.wf(),
                rom_content.len() <= consts::MEMORY_SIZE - consts::PROGRAM_MEMORY_ADDR,
                0 <= i <= rom_content.len(),
                counter == consts::PROGRAM_MEMORY_ADDR + i,
                forall|k: int|
                    0 <= k < consts::MEMORY_SIZE ==> mem.cells()[k] == if consts::PROGRAM_MEMORY_ADDR
                        <= k < counter {
                        rom_content@[k - consts::PROGRAM_MEMORY_ADDR]
                    } else {
                        0u8
                    },
            decreases rom_content.len() - i,
        {
            mem.set_value(counter, rom_content[i]);
            counter += 1;
            i += 1;
        }
        mem.load_font();
        assert(mem.cells() =~= initial_memory(rom_content@));
        mem
    }

    pub fn get_value(&self, index: u16) -> (r: u8)
        requires
            self.wf(),
            index < consts::MEMORY_SIZE,
        ensures
            r == self.cells()[index as int],
    {
        self.memory_space[index as usize]
    }

    pub fn set_value(&mut self, index: u16, value: u8)
        requires
            old(self).wf(),
            index < consts::MEMORY_SIZE,
        ensures
            final(self).wf(),
            final(self).cells() == old(self).cells().update(index as int, value),
            final(self).font_table() == old(self).font_table(),
    {
        self.memory_space.set(index as usize, value);
    }
}

} // verus!
