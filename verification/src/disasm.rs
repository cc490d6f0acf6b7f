//! The disassembler: the text of an instruction, read off the same tables
//! that the executor runs.
//!
//! A load is shown as `@` and its immediate. A computation is shown as its
//! destinations, its function and its jump: `D = D+1; JGT`. Each line starts
//! with the index of its instruction.

use vstd::prelude::*;
use crate::cpu::{fetch, restarted, Machine, CPU};
use crate::isa::{
    alu_table, computation, immediate, is_computation, lemma_function_codes_are_distinct, AluOp,
    Computation, Dest, Jump,
};
use crate::text::{decimal, push_decimal};

verus! {

/// The name of a function, with the second operand shown as `A` or as `M`.
/// An unused function code has the empty name.
pub open spec fn alu_mnemonic(op: Option<AluOp>, memory: bool) -> Seq<char> {
    match op {
        None => Seq::empty(),
        Some(AluOp::Zero) => "0"@,
        Some(AluOp::One) => "1"@,
        Some(AluOp::MinusOne) => "-1"@,
        Some(AluOp::D) => "D"@,
        Some(AluOp::X) => if memory {
            "M"@
        } else {
            "A"@
        },
        Some(AluOp::NotD) => "!D"@,
        Some(AluOp::NotX) => if memory {
            "!M"@
        } else {
            "!A"@
        },
        Some(AluOp::NegD) => "-D"@,
        Some(AluOp::NegX) => if memory {
            "-M"@
        } else {
            "-A"@
        },
        Some(AluOp::IncD) => "D+1"@,
        Some(AluOp::IncX) => if memory {
            "M+1"@
        } else {
            "A+1"@
        },
        Some(AluOp::DecD) => "D-1"@,
        Some(AluOp::DecX) => if memory {
            "M-1"@
        } else {
            "A-1"@
        },
        Some(AluOp::Add) => if memory {
            "D+M"@
        } else {
            "D+A"@
        },
        Some(AluOp::DMinusX) => if memory {
            "D-M"@
        } else {
            "D-A"@
        },
        Some(AluOp::XMinusD) => if memory {
            "M-D"@
        } else {
            "A-D"@
        },
        Some(AluOp::And) => if memory {
            "D&M"@
        } else {
            "D&A"@
        },
        Some(AluOp::Or) => if memory {
            "D|M"@
        } else {
            "D|A"@
        },
    }
}

/// The letters of the destinations, always in the order A, D, M.
pub open spec fn dest_letters(dest: Dest) -> Seq<char> {
    (if dest.a {
        "A"@
    } else {
        Seq::empty()
    }) + (if dest.d {
        "D"@
    } else {
        Seq::empty()
    }) + (if dest.m {
        "M"@
    } else {
        Seq::empty()
    })
}

/// The destination prefix: the letters and ` = `, or nothing where the
/// instruction writes nowhere.
pub open spec fn dest_mnemonic(dest: Dest) -> Seq<char> {
    if dest.a || dest.d || dest.m {
        dest_letters(dest) + " = "@
    } else {
        Seq::empty()
    }
}

/// The name of a jump condition; `Never` has the empty name.
pub open spec fn jump_mnemonic(jump: Jump) -> Seq<char> {
    match jump {
        Jump::Never => Seq::empty(),
        Jump::Greater => "JGT"@,
        Jump::Equal => "JEQ"@,
        Jump::GreaterEqual => "JGE"@,
        Jump::Less => "JLT"@,
        Jump::NotEqual => "JNE"@,
        Jump::LessEqual => "JLE"@,
        Jump::Always => "JMP"@,
    }
}

/// The text of the computation in `opcode`, after the index of its line.
pub open spec fn computation_text(opcode: u16) -> Seq<char> {
    let c = computation(opcode);
    dest_mnemonic(c.dest) + alu_mnemonic(c.function, c.memory) + "; "@ + jump_mnemonic(c.jump)
}

/// The line of the instruction `opcode` that stands at `index`.
pub open spec fn line(index: nat, opcode: u16) -> Seq<char> {
    if is_computation(opcode) {
        decimal(index) + ": "@ + computation_text(opcode)
    } else {
        decimal(index) + ": @"@ + decimal(immediate(opcode) as nat)
    }
}

/// The instruction word in slot `index` of `rom`: bytes `2 * index` and
/// `2 * index + 1`, the high one first.
pub open spec fn instruction_at(rom: Seq<u8>, index: int) -> u16 {
    ((rom[2 * index] as u16) << 8) | (rom[2 * index + 1] as u16)
}

/// The listing of `rom`: one line for each complete two-byte slot.
pub open spec fn disassembly(rom: Seq<u8>) -> Seq<Seq<char>> {
    Seq::new(rom.len() / 2, |i: int| line(i as nat, instruction_at(rom, i)))
}

/// Names tell operations apart: with the second operand shown the same way,
/// two entries of the function table with the same name are the same entry.
/// Together with the table being one-to-one, every function code that the
/// executor knows has a name of its own.
pub proof fn lemma_names_are_distinct(first: Option<AluOp>, second: Option<AluOp>, memory: bool)
    requires
        alu_mnemonic(first, memory) == alu_mnemonic(second, memory),
    ensures
        first == second,
{
    reveal_strlit("0");
    reveal_strlit("1");
    reveal_strlit("-1");
    reveal_strlit("D");
    reveal_strlit("A");
    reveal_strlit("M");
    reveal_strlit("!D");
    reveal_strlit("!A");
    reveal_strlit("!M");
    reveal_strlit("-D");
    reveal_strlit("-A");
    reveal_strlit("-M");
    reveal_strlit("D+1");
    reveal_strlit("A+1");
    reveal_strlit("M+1");
    reveal_strlit("D-1");
    reveal_strlit("A-1");
    reveal_strlit("M-1");
    reveal_strlit("D+A");
    reveal_strlit("D+M");
    reveal_strlit("D-A");
    reveal_strlit("D-M");
    reveal_strlit("A-D");
    reveal_strlit("M-D");
    reveal_strlit("D&A");
    reveal_strlit("D&M");
    reveal_strlit("D|A");
    reveal_strlit("D|M");
    let a = alu_mnemonic(first, memory);
    let b = alu_mnemonic(second, memory);
    if a.len() > 0 {
        assert(a[0] == b[0]);
    }
    if a.len() > 1 {
        assert(a[1] == b[1]);
    }
    if a.len() > 2 {
        assert(a[2] == b[2]);
    }
}

/// A name tells which function code it stands for: two codes shown under
/// the same name are the same code, unless both are unused and so unnamed.
pub proof fn lemma_name_identifies_code(first: u16, second: u16, memory: bool)
    requires
        alu_table(first) is Some,
        alu_mnemonic(alu_table(first), memory) == alu_mnemonic(alu_table(second), memory),
    ensures
        first == second,
{
    lemma_names_are_distinct(alu_table(first), alu_table(second), memory);
    lemma_function_codes_are_distinct(first, second);
}

/// The instruction in slot `index` of the listing is the one that a step
/// fetches when the program counter is `2 * index`.
pub proof fn lemma_slot_is_fetched(rom: Seq<u8>, index: nat)
    requires
        2 * index + 1 < rom.len(),
        2 * index + 1 < 0x1_0000,
    ensures
        fetch(rom, (2 * index) as u16) == instruction_at(rom, index as int),
        disassembly(rom)[index as int] == line(index, fetch(rom, (2 * index) as u16)),
{
}

/// A restart keeps the program, and so its listing.
pub proof fn lemma_restart_keeps_listing(m: Machine)
    ensures
        disassembly(restarted(m).rom) == disassembly(m.rom),
{
}

fn alu_text(op: Option<AluOp>, memory: bool) -> (text: String)
    ensures
        text@ == alu_mnemonic(op, memory),
{
    match op {
        None => String::new(),
        Some(AluOp::Zero) => String::from_str("0"),
        Some(AluOp::One) => String::from_str("1"),
        Some(AluOp::MinusOne) => String::from_str("-1"),
        Some(AluOp::D) => String::from_str("D"),
        Some(AluOp::X) => String::from_str(if memory { "M" } else { "A" }),
        Some(AluOp::NotD) => String::from_str("!D"),
        Some(AluOp::NotX) => String::from_str(if memory { "!M" } else { "!A" }),
        Some(AluOp::NegD) => String::from_str("-D"),
        Some(AluOp::NegX) => String::from_str(if memory { "-M" } else { "-A" }),
        Some(AluOp::IncD) => String::from_str("D+1"),
        Some(AluOp::IncX) => String::from_str(if memory { "M+1" } else { "A+1" }),
        Some(AluOp::DecD) => String::from_str("D-1"),
        Some(AluOp::DecX) => String::from_str(if memory { "M-1" } else { "A-1" }),
        Some(AluOp::Add) => String::from_str(if memory { "D+M" } else { "D+A" }),
        Some(AluOp::DMinusX) => String::from_str(if memory { "D-M" } else { "D-A" }),
        Some(AluOp::XMinusD) => String::from_str(if memory { "M-D" } else { "A-D" }),
        Some(AluOp::And) => String::from_str(if memory { "D&M" } else { "D&A" }),
        Some(AluOp::Or) => String::from_str(if memory { "D|M" } else { "D|A" }),
    }
}

fn dest_text(dest: Dest) -> (text: String)
    ensures
        text@ == dest_mnemonic(dest),
{
    let mut text = String::new();
    if dest.a {
        text.append("A");
    }
    if dest.d {
        text.append("D");
    }
    if dest.m {
        text.append("M");
    }
    if dest.a || dest.d || dest.m {
        text.append(" = ");
    }
    text
}

fn jump_text(jump: Jump) -> (text: String)
    ensures
        text@ == jump_mnemonic(jump),
{
    match jump {
        Jump::Never => String::new(),
        Jump::Greater => String::from_str("JGT"),
        Jump::Equal => String::from_str("JEQ"),
        Jump::GreaterEqual => String::from_str("JGE"),
        Jump::Less => String::from_str("JLT"),
        Jump::NotEqual => String::from_str("JNE"),
        Jump::LessEqual => String::from_str("JLE"),
        Jump::Always => String::from_str("JMP"),
    }
}

impl CPU {
    /// The three parts of a computation's text: destination prefix, function
    /// and jump.
    pub fn disassemble_c(opcode: u16) -> (parts: (String, String, String))
        ensures
            parts.0@ == dest_mnemonic(computation(opcode).dest),
            parts.1@ == alu_mnemonic(computation(opcode).function, computation(opcode).memory),
            parts.2@ == jump_mnemonic(computation(opcode).jump),
    {
        let c = Computation::decode(opcode);
        (dest_text(c.dest), alu_text(c.function, c.memory), jump_text(c.jump))
    }

    /// The listing of the loaded program, one line for each instruction slot
    /// of the ROM. The machine is left as it is.
    pub fn disassemble_loaded_rom(&self) -> (lines: Vec<String>)
        ensures
            lines.deep_view() == disassembly(self.rom@),
    {
        let mut instructions: Vec<String> = Vec::new();
        let bytes: usize = self.rom.raw_program.len();
        let slots: usize = bytes / 2;
        let mut index: usize = 0;
        while index < slots
            invariant
                bytes == self.rom@.len(),
                slots == bytes / 2,
                index <= slots,
                instructions.len() == index,
                forall|i: int|
                    0 <= i < index ==> (#[trigger] instructions@[i])@ == line(
                        i as nat,
                        instruction_at(self.rom@, i),
                    ),
            decreases slots - index,
        {
            let hi: u16 = self.rom.raw_program[2 * index] as u16;
            let lo: u16 = self.rom.raw_program[2 * index + 1] as u16;
            let instruction: u16 = (hi << 8) | lo;
            let mut text = String::new();
            push_decimal(&mut text, index as u128);
            if instruction & 0x8000 != 0 {
                let (dst, comp, jmp) = CPU::disassemble_c(instruction);
                text.append(": ");
                text.append(dst.as_str());
                text.append(comp.as_str());
                text.append("; ");
                text.append(jmp.as_str());
            } else {
                text.append(": @");
                push_decimal(&mut text, (instruction & 0x7FFF) as u128);
            }
            instructions.push(text);
            index += 1;
        }
        instructions
    }
}

} // verus!
