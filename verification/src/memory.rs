//! The two memories of the machine: a word-addressed RAM, which also holds
//! the screen buffer and the keyboard register, and a byte-addressed ROM
//! that holds the packed program.
//!
//! No access fails. A read outside a memory yields 0 and a write outside the
//! RAM is dropped, so an address computed by a guest program can never stop
//! the machine. A RAM as `RAM16K::new` builds it has a word for every
//! address; a ROM is as long as the program that was loaded.

use vstd::prelude::*;
use crate::text::{binary, push_binary};

verus! {

/// Number of words in a freshly built RAM: one for every 16-bit address.
pub const RAM_WORDS: usize = 0x1_0000;

/// Largest number of bytes the ROM keeps: every offset that a 16-bit program
/// counter can name.
pub const ROM_BYTES: usize = 0x1_0000;

/// The word that a read of `ram` at `addr` yields.
pub open spec fn word_at(ram: Seq<u16>, addr: u16) -> u16 {
    if addr < ram.len() {
        ram[addr as int]
    } else {
        0
    }
}

/// The RAM after a write of `data` at `addr`.
pub open spec fn store(ram: Seq<u16>, addr: u16, data: u16) -> Seq<u16> {
    if addr < ram.len() {
        ram.update(addr as int, data)
    } else {
        ram
    }
}

/// The byte that a read of `rom` at `addr` yields.
pub open spec fn byte_at(rom: Seq<u8>, addr: u16) -> u8 {
    if addr < rom.len() {
        rom[addr as int]
    } else {
        0
    }
}

/// What the ROM keeps of a program image: the image itself, cut off after
/// `ROM_BYTES` bytes.
pub open spec fn loaded(program: Seq<u8>) -> Seq<u8> {
    if program.len() <= ROM_BYTES {
        program
    } else {
        program.subrange(0, ROM_BYTES as int)
    }
}

/// Number of bytes that a dump shows at most.
pub const DUMP_BYTES: usize = 40;

/// The text of byte `index` in a dump: its eight binary digits and a space,
/// after a bar and a line break where a new group of four bytes starts.
pub open spec fn dump_piece(rom: Seq<u8>, index: int) -> Seq<char> {
    (if index % 4 == 0 && index != 0 {
        "|\n"@
    } else {
        Seq::empty()
    }) + binary(rom[index] as nat, 8) + " "@
}

/// The dump of the first `count` bytes of `rom`.
pub open spec fn dump_text(rom: Seq<u8>, count: nat) -> Seq<char>
    decreases count,
{
    if count == 0 {
        Seq::empty()
    } else {
        dump_text(rom, (count - 1) as nat) + dump_piece(rom, count - 1)
    }
}

/// The program memory: bytes, two to an instruction.
pub struct ROM32K {
    pub raw_program: Vec<u8>,
}

/// The data memory: 16-bit words.
pub struct RAM16K {
    pub mem_32: Vec<u16>,
}

impl View for RAM16K {
    type V = Seq<u16>;

    open spec fn view(&self) -> Seq<u16> {
        self.mem_32@
    }
}

impl View for ROM32K {
    type V = Seq<u8>;

    open spec fn view(&self) -> Seq<u8> {
        self.raw_program@
    }
}

impl RAM16K {
    /// A RAM as `new` builds it: `RAM_WORDS` words.
    pub open spec fn wf(&self) -> bool {
        self@.len() == RAM_WORDS
    }

    /// A RAM of `RAM_WORDS` words, all zero.
    pub fn new() -> (ram: Self)
        ensures
            ram@ == Seq::new(RAM_WORDS as nat, |i: int| 0u16),
            ram.wf(),
    {
        let ram = Self { mem_32: vec![0u16; RAM_WORDS] };
        ram
    }

    /// The word at `addr`, or 0 where `addr` lies outside the RAM.
    pub fn read_u16(&self, addr: u16) -> (word: &u16)
        ensures
            *word == word_at(self@, addr),
    {
        if (addr as usize) < self.mem_32.len() {
            &self.mem_32[addr as usize]
        } else {
            &0u16
        }
    }

    /// Stores `data` at `addr`; a write outside the RAM changes nothing.
    pub fn write_u16(&mut self, addr: u16, data: u16)
        ensures
            final(self)@ == store(old(self)@, addr, data),
            final(self)@.len() == old(self)@.len(),
    {
        if (addr as usize) < self.mem_32.len() {
            self.mem_32[addr as usize] = data;
        }
    }
}

impl ROM32K {
    /// A ROM as `new` and `load_program` leave it: at most `ROM_BYTES` bytes.
    pub open spec fn wf(&self) -> bool {
        self@.len() <= ROM_BYTES
    }

    /// A ROM of `ROM_BYTES` bytes, all zero.
    pub fn new() -> (rom: Self)
        ensures
            rom@ == Seq::new(ROM_BYTES as nat, |i: int| 0u8),
            rom.wf(),
    {
        let rom = Self { raw_program: vec![0u8; ROM_BYTES] };
        rom
    }

    /// Replaces the whole content by `program`. A program longer than
    /// `ROM_BYTES` is cut off there.
    pub fn load_program(&mut self, program: Vec<u8>)
        ensures
            final(self)@ == loaded(program@),
            final(self).wf(),
    {
        let mut program = program;
        if program.len() > ROM_BYTES {
            program.truncate(ROM_BYTES);
        }
        self.raw_program = program;
    }

    /// The first `DUMP_BYTES` bytes of the program in binary, four to a
    /// line.
    pub fn dump(&self) -> (text: String)
        ensures
            text@ == dump_text(
                self@,
                if self@.len() < DUMP_BYTES {
                    self@.len()
                } else {
                    DUMP_BYTES as nat
                },
            ),
    {
        let shown: usize = if self.raw_program.len() < DUMP_BYTES {
            self.raw_program.len()
        } else {
            DUMP_BYTES
        };
        let mut text = String::new();
        let mut index: usize = 0;
        while index < shown
            invariant
                index <= shown <= self@.len(),
                text@ == dump_text(self@, index as nat),
            decreases shown - index,
        {
            if index % 4 == 0 && index != 0 {
                text.append("|\n");
            }
            push_binary(&mut text, self.raw_program[index] as usize, 8);
            text.append(" ");
            index += 1;
        }
        text
    }

    /// The byte at `addr`, or 0 where `addr` lies outside the loaded program.
    pub fn read_byte(&self, addr: u16) -> (byte: &u8)
        ensures
            *byte == byte_at(self@, addr),
    {
        if (addr as usize) < self.raw_program.len() {
            &self.raw_program[addr as usize]
        } else {
            &0u8
        }
    }
}

} // verus!
