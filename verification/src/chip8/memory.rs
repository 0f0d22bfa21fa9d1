//! The 4 KiB RAM: the font sprites near the bottom, programs from 0x200.

use vstd::prelude::*;

verus! {

/// The Chip-8 has 4096 bytes of memory.
pub const MEMORY_SIZE: usize = 4096;

/// Programs are loaded starting at this address.
pub const PROG_START: u16 = 0x200;

/// The font sprites are loaded at this address.
pub const FONT_SET_START: usize = 0x050;

/// The number of bytes of the font set: 16 digits of 5 bytes each.
pub const FONT_SET_LEN: usize = 80;

/// The largest program: it fills 0x200..=0xFFF.
pub const MAX_ROM_SIZE: usize = 3584;

/// An error of a memory operation.
#[derive(Debug, Clone, Copy, PartialEq, Eq, Structural)]
#[non_exhaustive]
pub enum MemoryError {
    /// An access to an address at or past the end of memory.
    OutOfBounds(u16),
    /// A program of this many bytes does not fit in 0x200..=0xFFF.
    RomTooLarge(usize),
}

/// The hexadecimal font: five rows of four pixels for each digit 0..F.
pub open spec fn font_sprites() -> Seq<u8> {
    seq![
        0xF0u8, 0x90, 0x90, 0x90, 0xF0, // 0
        0x20, 0x60, 0x20, 0x20, 0x70, // 1
        0xF0, 0x10, 0xF0, 0x80, 0xF0, // 2
        0xF0, 0x10, 0xF0, 0x10, 0xF0, // 3
        0x90, 0x90, 0xF0, 0x10, 0x10, // 4
        0xF0, 0x80, 0xF0, 0x10, 0xF0, // 5
        0xF0, 0x80, 0xF0, 0x90, 0xF0, // 6
        0xF0, 0x10, 0x20, 0x40, 0x40, // 7
        0xF0, 0x90, 0xF0, 0x90, 0xF0, // 8
        0xF0, 0x90, 0xF0, 0x10, 0xF0, // 9
        0xF0, 0x90, 0xF0, 0x90, 0x90, // A
        0xE0, 0x90, 0xE0, 0x90, 0xE0, // B
        0xF0, 0x80, 0x80, 0x80, 0xF0, // C
        0xE0, 0x90, 0x90, 0x90, 0xE0, // D
        0xF0, 0x80, 0xF0, 0x80, 0xF0, // E
        0xF0, 0x80, 0xF0, 0x80, 0x80, // F
    ]
}

/// The contents of fresh memory: zero everywhere but the font sprites.
pub open spec fn initial_memory() -> Seq<u8> {
    Seq::new(
        MEMORY_SIZE as nat,
        |a: int|
            if FONT_SET_START <= a < FONT_SET_START + FONT_SET_LEN {
                font_sprites()[a - FONT_SET_START]
            } else {
                0u8
            },
    )
}

/// The five rows of the glyph of hex digit `d` in `ram`, as LD F, Vx points I at them.
pub open spec fn glyph(ram: Seq<u8>, d: int) -> Seq<u8> {
    ram.subrange(FONT_SET_START + 5 * d, FONT_SET_START + 5 * d + 5)
}

/// The five rows of a glyph packed into one number, the top row highest.
pub open spec fn glyph_code(g: Seq<u8>) -> int {
    g[0] * 0x1_0000_0000 + g[1] * 0x100_0000 + g[2] * 0x1_0000 + g[3] * 0x100 + g[4]
}

/// Fresh memory holds the standard hex font: the sixteen glyphs are pairwise
/// different, so no two digits look alike; each is four pixels wide, the low
/// four bits of every row clear; and each is the usual shape of its digit,
/// given here with its five rows packed top row first (digit 9 is F0 90 F0 10 F0).
pub proof fn lemma_font_glyphs()
    ensures
        forall|d1: int, d2: int|
            0 <= d1 < 16 && 0 <= d2 < 16 && d1 != d2 ==> #[trigger] glyph(initial_memory(), d1)
                != #[trigger] glyph(initial_memory(), d2),
        forall|d: int, r: int|
            0 <= d < 16 && 0 <= r < 5 ==> #[trigger] glyph(initial_memory(), d)[r] % 16 == 0,
        glyph_code(glyph(initial_memory(), 0x0)) == 0xF0909090F0,
        glyph_code(glyph(initial_memory(), 0x1)) == 0x2060202070,
        glyph_code(glyph(initial_memory(), 0x2)) == 0xF010F080F0,
        glyph_code(glyph(initial_memory(), 0x3)) == 0xF010F010F0,
        glyph_code(glyph(initial_memory(), 0x4)) == 0x9090F01010,
        glyph_code(glyph(initial_memory(), 0x5)) == 0xF080F010F0,
        glyph_code(glyph(initial_memory(), 0x6)) == 0xF080F090F0,
        glyph_code(glyph(initial_memory(), 0x7)) == 0xF010204040,
        glyph_code(glyph(initial_memory(), 0x8)) == 0xF090F090F0,
        glyph_code(glyph(initial_memory(), 0x9)) == 0xF090F010F0,
        glyph_code(glyph(initial_memory(), 0xA)) == 0xF090F09090,
        glyph_code(glyph(initial_memory(), 0xB)) == 0xE090E090E0,
        glyph_code(glyph(initial_memory(), 0xC)) == 0xF0808080F0,
        glyph_code(glyph(initial_memory(), 0xD)) == 0xE0909090E0,
        glyph_code(glyph(initial_memory(), 0xE)) == 0xF080F080F0,
        glyph_code(glyph(initial_memory(), 0xF)) == 0xF080F08080,
{
    let m = initial_memory();
    assert(forall|k: int| 0 <= k < 80 ==> #[trigger] font_sprites()[k] % 16 == 0);
    assert(glyph_code(glyph(m, 0)) == 0xF0909090F0);
    assert(glyph_code(glyph(m, 1)) == 0x2060202070);
    assert(glyph_code(glyph(m, 2)) == 0xF010F080F0);
    assert(glyph_code(glyph(m, 3)) == 0xF010F010F0);
    assert(glyph_code(glyph(m, 4)) == 0x9090F01010);
    assert(glyph_code(glyph(m, 5)) == 0xF080F010F0);
    assert(glyph_code(glyph(m, 6)) == 0xF080F090F0);
    assert(glyph_code(glyph(m, 7)) == 0xF010204040);
    assert(glyph_code(glyph(m, 8)) == 0xF090F090F0);
    assert(glyph_code(glyph(m, 9)) == 0xF090F010F0);
    assert(glyph_code(glyph(m, 10)) == 0xF090F09090);
    assert(glyph_code(glyph(m, 11)) == 0xE090E090E0);
    assert(glyph_code(glyph(m, 12)) == 0xF0808080F0);
    assert(glyph_code(glyph(m, 13)) == 0xE0909090E0);
    assert(glyph_code(glyph(m, 14)) == 0xF080F080F0);
    assert(glyph_code(glyph(m, 15)) == 0xF080F08080);
}

/// `ram` with the font sprites copied over it from [`FONT_SET_START`] on.
pub open spec fn with_fonts(ram: Seq<u8>) -> Seq<u8> {
    Seq::new(
        ram.len(),
        |a: int|
            if FONT_SET_START <= a < FONT_SET_START + FONT_SET_LEN {
                font_sprites()[a - FONT_SET_START]
            } else {
                ram[a]
            },
    )
}

/// `ram` with `rom` copied over it from [`PROG_START`] on.
pub open spec fn with_rom(ram: Seq<u8>, rom: Seq<u8>) -> Seq<u8> {
    Seq::new(
        ram.len(),
        |a: int|
            if PROG_START <= a < PROG_START + rom.len() {
                rom[a - PROG_START]
            } else {
                ram[a]
            },
    )
}

/// What reading the byte at `addr` gives.
pub open spec fn read_byte_result(ram: Seq<u8>, addr: u16) -> Result<u8, MemoryError> {
    if (addr as int) < MEMORY_SIZE {
        Ok(ram[addr as int])
    } else {
        Err(MemoryError::OutOfBounds(addr))
    }
}

/// What reading the big-endian word at `addr` gives.
pub open spec fn read_word_result(ram: Seq<u8>, addr: u16) -> Result<u16, MemoryError> {
    if (addr as int) >= MEMORY_SIZE {
        Err(MemoryError::OutOfBounds(addr))
    } else if (addr as int) + 1 >= MEMORY_SIZE {
        Err(MemoryError::OutOfBounds((addr + 1) as u16))
    } else {
        Ok((ram[addr as int] * 256 + ram[addr + 1]) as u16)
    }
}

/// The system RAM.
#[derive(Debug)]
pub struct Memory {
    ram: [u8; MEMORY_SIZE],
}

impl View for Memory {
    type V = Seq<u8>;

    /// The bytes of memory, by address.
    closed spec fn view(&self) -> Seq<u8> {
        self.ram@
    }
}

impl Memory {
    /// The view holds exactly one byte per address.
    pub broadcast proof fn lemma_view_len(&self)
        ensures
            #[trigger] self@.len() == MEMORY_SIZE,
    {
    }

    /// Creates memory holding the font sprites and zero elsewhere.
    pub fn new() -> (r: Memory)
        ensures
            r@ == initial_memory(),
    {
        let mut memory = Memory { ram: [0; MEMORY_SIZE] };
        let ghost zeros = memory@;
        assert(forall|a: int| 0 <= a < MEMORY_SIZE ==> zeros[a] == 0u8);
        memory.load_fonts();
        assert(memory@ =~= initial_memory());
        memory
    }

    /// Copies the font set into its reserved area; every other byte stays as it was.
    fn load_fonts(&mut self)
        ensures
            final(self)@ == with_fonts(old(self)@),
    {
        let ghost before = self@;
        let font_set: [u8; FONT_SET_LEN] = [
            0xF0, 0x90, 0x90, 0x90, 0xF0, // 0
            0x20, 0x60, 0x20, 0x20, 0x70, // 1
            0xF0, 0x10, 0xF0, 0x80, 0xF0, // 2
            0xF0, 0x10, 0xF0, 0x10, 0xF0, // 3
            0x90, 0x90, 0xF0, 0x10, 0x10, // 4
            0xF0, 0x80, 0xF0, 0x10, 0xF0, // 5
            0xF0, 0x80, 0xF0, 0x90, 0xF0, // 6
            0xF0, 0x10, 0x20, 0x40, 0x40, // 7
            0xF0, 0x90, 0xF0, 0x90, 0xF0, // 8
            0xF0, 0x90, 0xF0, 0x10, 0xF0, // 9
            0xF0, 0x90, 0xF0, 0x90, 0x90, // A
            0xE0, 0x90, 0xE0, 0x90, 0xE0, // B
            0xF0, 0x80, 0x80, 0x80, 0xF0, // C
            0xE0, 0x90, 0x90, 0x90, 0xE0, // D
            0xF0, 0x80, 0xF0, 0x80, 0xF0, // E
            0xF0, 0x80, 0xF0, 0x80, 0x80, // F
        ];
        assert(font_set@ =~= font_sprites());
        let mut i: usize = 0;
        while i < FONT_SET_LEN
            invariant
                i <= FONT_SET_LEN,
                font_set@ == font_sprites(),
                self@.len() == MEMORY_SIZE,
                before.len() == MEMORY_SIZE,
                forall|a: int|
                    0 <= a < MEMORY_SIZE ==> #[trigger] self@[a] == (if FONT_SET_START <= a
                        < FONT_SET_START + i {
                        font_sprites()[a - FONT_SET_START]
                    } else {
                        before[a]
                    }),
            decreases FONT_SET_LEN - i,
        {
            self.ram[FONT_SET_START + i] = font_set[i];
            i += 1;
        }
        assert(self@ =~= with_fonts(before));
    }

    /// Reads the byte at `addr`; fails with `OutOfBounds(addr)` past the end of memory.
    pub fn read_byte(&self, addr: u16) -> (r: Result<u8, MemoryError>)
        ensures
            r == read_byte_result(self@, addr),
    {
        if (addr as usize) < MEMORY_SIZE {
            Ok(self.ram[addr as usize])
        } else {
            Err(MemoryError::OutOfBounds(addr))
        }
    }

    /// Writes `value` at `addr`; fails with `OutOfBounds(addr)`, changing nothing, past the end.
    pub fn write_byte(&mut self, addr: u16, value: u8) -> (r: Result<(), MemoryError>)
        ensures
            (addr as int) < MEMORY_SIZE ==> r == Ok::<(), MemoryError>(())
                && final(self)@ == old(self)@.update(addr as int, value),
            (addr as int) >= MEMORY_SIZE ==> r == Err::<(), MemoryError>(
                MemoryError::OutOfBounds(addr),
            ) && final(self)@ == old(self)@,
    {
        if (addr as usize) < MEMORY_SIZE {
            self.ram[addr as usize] = value;
            Ok(())
        } else {
            Err(MemoryError::OutOfBounds(addr))
        }
    }

    /// Reads the big-endian 16-bit word at `addr` and `addr + 1`.
    pub fn read_word(&self, addr: u16) -> (r: Result<u16, MemoryError>)
        ensures
            r == read_word_result(self@, addr),
    {
        let hi = self.read_byte(addr)?;
        let lo = self.read_byte(addr + 1)?;
        Ok((hi as u16) * 256 + (lo as u16))
    }

    /// Copies a program into memory from [`PROG_START`] on.
    ///
    /// Fails with `RomTooLarge`, changing nothing, when the program is longer
    /// than [`MAX_ROM_SIZE`] bytes.
    pub fn write_rom(&mut self, rom: &[u8]) -> (r: Result<(), MemoryError>)
        ensures
            rom@.len() <= MAX_ROM_SIZE ==> r == Ok::<(), MemoryError>(()) && final(self)@ == with_rom(
                old(self)@,
                rom@,
            ),
            rom@.len() > MAX_ROM_SIZE ==> r == Err::<(), MemoryError>(
                MemoryError::RomTooLarge(rom@.len() as usize),
            ) && final(self)@ == old(self)@,
    {
        if rom.len() > MAX_ROM_SIZE {
            return Err(MemoryError::RomTooLarge(rom.len()));
        }
        let ghost before = self@;
        let start: usize = PROG_START as usize;
        let mut i: usize = 0;
        while i < rom.len()
            invariant
                i <= rom@.len() <= MAX_ROM_SIZE,
                start == PROG_START,
                self@.len() == MEMORY_SIZE,
                before.len() == MEMORY_SIZE,
                forall|a: int|
                    0 <= a < MEMORY_SIZE ==> #[trigger] self@[a] == (if start <= a < start + i {
                        rom@[a - start]
                    } else {
                        before[a]
                    }),
            decreases rom@.len() - i,
        {
            self.ram[start + i] = rom[i];
            i += 1;
        }
        assert(self@ =~= with_rom(before, rom@));
        Ok(())
    }
}

impl Default for Memory {
    fn default() -> (r: Memory)
        ensures
            r@ == initial_memory(),
    {
        Memory::new()
    }
}

} // verus!
