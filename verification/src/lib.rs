//! A 16-bit educational computer: instruction decoding and execution, the
//! memory behind it, a disassembler, and the packing of textual machine code.
//!
//! `cpu` holds the machine and its single step, `isa` the tables that give
//! an instruction word its meaning, `memory` the RAM and the ROM, `disasm`
//! the listing of a program and `loader` the packing of a program text.
//! `screen`, `keyboard`, `panel` and `host` are what a window around the
//! machine needs: the drawing of the screen buffer, the word for the
//! keyboard register, the status lines, and one frame of the host's loop.

pub mod cpu;
pub mod disasm;
pub mod host;
pub mod isa;
pub mod keyboard;
pub mod loader;
pub mod memory;
pub mod panel;
pub mod screen;
pub mod text;

pub use crate::keyboard::KBR_ADDR;
pub use crate::loader::treat_file;
pub use crate::screen::{SCREEN_ADDR, SCREEN_H, SCREEN_W, SC_SCR};
