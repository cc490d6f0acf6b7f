//! The instruction set: the fields of an instruction word and the tables
//! that give each field its meaning.
//!
//! An instruction is 16 bits wide. With the top bit clear it loads the other
//! fifteen bits into register A. With the top bit set it computes: bit 12
//! picks the second operand, bits 6 to 11 the function, bits 3 to 5 the
//! destinations and bits 0 to 2 the jump condition. The executor and the
//! disassembler both read these fields through the tables of this module, so
//! what is shown is what is run.

use vstd::prelude::*;

verus! {

/// Whether `opcode` computes (top bit set) rather than loads an immediate.
pub open spec fn is_computation(opcode: u16) -> bool {
    opcode & 0x8000 != 0
}

/// The fifteen-bit immediate of a load instruction.
pub open spec fn immediate(opcode: u16) -> u16 {
    opcode & 0x7FFF
}

/// Whether the second operand is the RAM word that A addresses, rather than
/// A itself.
pub open spec fn reads_memory(opcode: u16) -> bool {
    opcode & 0x1000 != 0
}

/// The six-bit function code.
pub open spec fn function_code(opcode: u16) -> u16 {
    (opcode & 0x0FC0) >> 6
}

/// The three-bit destination field.
pub open spec fn destination_code(opcode: u16) -> u16 {
    (opcode & 0x0038) >> 3
}

/// The three-bit jump field.
pub open spec fn jump_code(opcode: u16) -> u16 {
    opcode & 0x0007
}

/// `v` reduced modulo 2^16.
pub open spec fn wrap16(v: int) -> u16 {
    (v % 0x1_0000) as u16
}

/// The 16-bit pattern `v` read as a two's-complement number.
pub open spec fn signed16(v: u16) -> int {
    if v < 0x8000 {
        v as int
    } else {
        v - 0x1_0000
    }
}

/// The eighteen functions of the arithmetic/logic unit. `D` is the D
/// register, `X` the second operand: register A or the RAM word it addresses.
#[derive(Clone, Copy, Debug, PartialEq, Eq, Structural)]
pub enum AluOp {
    Zero,
    One,
    MinusOne,
    D,
    X,
    NotD,
    NotX,
    NegD,
    NegX,
    IncD,
    IncX,
    DecD,
    DecX,
    Add,
    DMinusX,
    XMinusD,
    And,
    Or,
}

/// The function table: the operation that a function code selects, or `None`
/// for a code that the instruction set leaves unused.
pub open spec fn alu_table(code: u16) -> Option<AluOp> {
    if code == 0b101010 {
        Some(AluOp::Zero)
    } else if code == 0b111111 {
        Some(AluOp::One)
    } else if code == 0b111010 {
        Some(AluOp::MinusOne)
    } else if code == 0b001100 {
        Some(AluOp::D)
    } else if code == 0b110000 {
        Some(AluOp::X)
    } else if code == 0b001101 {
        Some(AluOp::NotD)
    } else if code == 0b110001 {
        Some(AluOp::NotX)
    } else if code == 0b001111 {
        Some(AluOp::NegD)
    } else if code == 0b110011 {
        Some(AluOp::NegX)
    } else if code == 0b011111 {
        Some(AluOp::IncD)
    } else if code == 0b110111 {
        Some(AluOp::IncX)
    } else if code == 0b001110 {
        Some(AluOp::DecD)
    } else if code == 0b110010 {
        Some(AluOp::DecX)
    } else if code == 0b000010 {
        Some(AluOp::Add)
    } else if code == 0b010011 {
        Some(AluOp::DMinusX)
    } else if code == 0b000111 {
        Some(AluOp::XMinusD)
    } else if code == 0b000000 {
        Some(AluOp::And)
    } else if code == 0b010101 {
        Some(AluOp::Or)
    } else {
        None
    }
}

/// What the unit computes from `d` and `x`. Arithmetic is modulo 2^16; an
/// unused function code computes 0.
pub open spec fn alu_result(op: Option<AluOp>, d: u16, x: u16) -> u16 {
    match op {
        None => 0,
        Some(AluOp::Zero) => 0,
        Some(AluOp::One) => 1,
        Some(AluOp::MinusOne) => 0xFFFF,
        Some(AluOp::D) => d,
        Some(AluOp::X) => x,
        Some(AluOp::NotD) => !d,
        Some(AluOp::NotX) => !x,
        Some(AluOp::NegD) => wrap16(0 - d),
        Some(AluOp::NegX) => wrap16(0 - x),
        Some(AluOp::IncD) => wrap16(d + 1),
        Some(AluOp::IncX) => wrap16(x + 1),
        Some(AluOp::DecD) => wrap16(d - 1),
        Some(AluOp::DecX) => wrap16(x - 1),
        Some(AluOp::Add) => wrap16(d + x),
        Some(AluOp::DMinusX) => wrap16(d - x),
        Some(AluOp::XMinusD) => wrap16(x - d),
        Some(AluOp::And) => d & x,
        Some(AluOp::Or) => d | x,
    }
}

/// Where a computed value goes: any subset of register A, register D and the
/// RAM word that A addresses.
#[derive(Clone, Copy, Debug, PartialEq, Eq, Structural)]
pub struct Dest {
    pub a: bool,
    pub d: bool,
    pub m: bool,
}

/// The destination table: bit 2 of the field writes A, bit 1 writes D, bit 0
/// writes memory.
pub open spec fn dest_table(code: u16) -> Dest {
    Dest { a: code & 0b100 == 0b100, d: code & 0b010 == 0b010, m: code & 0b001 == 0b001 }
}

/// When a computation jumps.
#[derive(Clone, Copy, Debug, PartialEq, Eq, Structural)]
pub enum Jump {
    Never,
    Greater,
    Equal,
    GreaterEqual,
    Less,
    NotEqual,
    LessEqual,
    Always,
}

/// The jump table. Only the low three bits of `code` count.
pub open spec fn jump_table(code: u16) -> Jump {
    let low = code & 0b111;
    if low == 0b000 {
        Jump::Never
    } else if low == 0b001 {
        Jump::Greater
    } else if low == 0b010 {
        Jump::Equal
    } else if low == 0b011 {
        Jump::GreaterEqual
    } else if low == 0b100 {
        Jump::Less
    } else if low == 0b101 {
        Jump::NotEqual
    } else if low == 0b110 {
        Jump::LessEqual
    } else {
        Jump::Always
    }
}

/// Whether `jump` is taken on the computed value `out`, which the condition
/// reads as a signed number.
pub open spec fn jump_holds(jump: Jump, out: u16) -> bool {
    let v = signed16(out);
    match jump {
        Jump::Never => false,
        Jump::Greater => v > 0,
        Jump::Equal => v == 0,
        Jump::GreaterEqual => v >= 0,
        Jump::Less => v < 0,
        Jump::NotEqual => v != 0,
        Jump::LessEqual => v <= 0,
        Jump::Always => true,
    }
}

/// The fields of a computation, each resolved through its table.
#[derive(Clone, Copy, Debug, PartialEq, Eq, Structural)]
pub struct Computation {
    pub function: Option<AluOp>,
    pub memory: bool,
    pub dest: Dest,
    pub jump: Jump,
}

/// The computation that `opcode` encodes. The top bit plays no part.
pub open spec fn computation(opcode: u16) -> Computation {
    Computation {
        function: alu_table(function_code(opcode)),
        memory: reads_memory(opcode),
        dest: dest_table(destination_code(opcode)),
        jump: jump_table(jump_code(opcode)),
    }
}

/// A word below 2^15 is a load instruction, and its own immediate.
pub proof fn lemma_small_word_loads_itself(k: u16)
    requires
        k < 0x8000,
    ensures
        !is_computation(k),
        immediate(k) == k,
{
    assert(k < 0x8000 ==> k & 0x8000 == 0 && k & 0x7FFF == k) by (bit_vector);
}

/// Each field stays within its width: six bits of function code, three of
/// destination, three of jump, fifteen of immediate.
pub proof fn lemma_field_widths(opcode: u16)
    ensures
        function_code(opcode) < 64,
        destination_code(opcode) < 8,
        jump_code(opcode) < 8,
        immediate(opcode) < 0x8000,
{
    assert((opcode & 0x0FC0) >> 6 < 64) by (bit_vector);
    assert((opcode & 0x0038) >> 3 < 8) by (bit_vector);
    assert(opcode & 0x0007 < 8) by (bit_vector);
    assert(opcode & 0x7FFF < 0x8000) by (bit_vector);
}

/// The fields in terms of division: the word is, from the top, one bit of
/// kind, two unused bits, one bit of operand choice, six of function, three
/// of destination and three of jump.
pub proof fn lemma_fields_by_division(opcode: u16)
    ensures
        is_computation(opcode) <==> opcode >= 0x8000,
        immediate(opcode) == opcode % 0x8000,
        reads_memory(opcode) <==> (opcode / 0x1000) % 2 == 1,
        function_code(opcode) == (opcode / 64) % 64,
        destination_code(opcode) == (opcode / 8) % 8,
        jump_code(opcode) == opcode % 8,
{
    assert(opcode & 0x8000 != 0 <==> opcode >= 0x8000) by (bit_vector);
    assert(opcode & 0x7FFF == opcode % 0x8000) by (bit_vector);
    assert(opcode & 0x1000 != 0 <==> (opcode / 0x1000) % 2 == 1) by (bit_vector);
    assert((opcode & 0x0FC0) >> 6 == (opcode / 64) % 64) by (bit_vector);
    assert((opcode & 0x0038) >> 3 == (opcode / 8) % 8) by (bit_vector);
    assert(opcode & 0x0007 == opcode % 8) by (bit_vector);
}

/// The destination and jump tables in terms of division: the destination
/// bits are, from the top, A, D and memory, and the jump conditions stand in
/// the table in the order of their codes.
pub proof fn lemma_tables_by_division(code: u16)
    ensures
        dest_table(code).a <==> (code / 4) % 2 == 1,
        dest_table(code).d <==> (code / 2) % 2 == 1,
        dest_table(code).m <==> code % 2 == 1,
        jump_table(code) == match code % 8 {
            0 => Jump::Never,
            1 => Jump::Greater,
            2 => Jump::Equal,
            3 => Jump::GreaterEqual,
            4 => Jump::Less,
            5 => Jump::NotEqual,
            6 => Jump::LessEqual,
            _ => Jump::Always,
        },
{
    assert(code & 0b100 == 0b100 <==> (code / 4) % 2 == 1) by (bit_vector);
    assert(code & 0b010 == 0b010 <==> (code / 2) % 2 == 1) by (bit_vector);
    assert(code & 0b001 == 0b001 <==> code % 2 == 1) by (bit_vector);
    assert(code & 0b111 == code % 8) by (bit_vector);
}

/// The function table is one-to-one: two codes that select the same
/// operation are the same code.
pub proof fn lemma_function_codes_are_distinct(first: u16, second: u16)
    requires
        alu_table(first) is Some,
        alu_table(first) == alu_table(second),
    ensures
        first == second,
{
}

/// Every operation has its code, and the code fits in six bits.
pub proof fn lemma_every_function_has_a_code(op: AluOp)
    ensures
        exists|code: u16| code < 64 && alu_table(code) == Some(op),
{
    let code: u16 = match op {
        AluOp::Zero => 0b101010,
        AluOp::One => 0b111111,
        AluOp::MinusOne => 0b111010,
        AluOp::D => 0b001100,
        AluOp::X => 0b110000,
        AluOp::NotD => 0b001101,
        AluOp::NotX => 0b110001,
        AluOp::NegD => 0b001111,
        AluOp::NegX => 0b110011,
        AluOp::IncD => 0b011111,
        AluOp::IncX => 0b110111,
        AluOp::DecD => 0b001110,
        AluOp::DecX => 0b110010,
        AluOp::Add => 0b000010,
        AluOp::DMinusX => 0b010011,
        AluOp::XMinusD => 0b000111,
        AluOp::And => 0b000000,
        AluOp::Or => 0b010101,
    };
    assert(code < 64 && alu_table(code) == Some(op));
}

/// The complement of a word and the word add up to 0xFFFF, so negation is
/// complement and increment, as two's complement has it.
pub proof fn lemma_negation_is_complement_plus_one(d: u16, x: u16)
    ensures
        !d == 0xFFFF - d,
        alu_result(Some(AluOp::NegD), d, x) == wrap16(alu_result(Some(AluOp::NotD), d, x) + 1),
        alu_result(Some(AluOp::NegX), d, x) == wrap16(alu_result(Some(AluOp::NotX), d, x) + 1),
{
    assert(!d == 0xFFFF - d) by (bit_vector);
    assert(!x == 0xFFFF - x) by (bit_vector);
}

/// What reduction modulo 2^16 does at the ends of the range: the increment
/// of 0xFFFF is 0, the decrement of 0 is 0xFFFF, only 0 and 0x8000 are their
/// own negation, and a sum or difference that leaves the range comes back
/// in by 2^16.
pub proof fn lemma_arithmetic_wraps(d: u16, x: u16)
    ensures
        alu_result(Some(AluOp::IncD), d, x) as int == if d == 0xFFFF { 0 } else { d + 1 },
        alu_result(Some(AluOp::IncX), d, x) as int == if x == 0xFFFF { 0 } else { x + 1 },
        alu_result(Some(AluOp::DecD), d, x) as int == if d == 0 { 0xFFFF } else { d - 1 },
        alu_result(Some(AluOp::DecX), d, x) as int == if x == 0 { 0xFFFF } else { x - 1 },
        alu_result(Some(AluOp::NegD), d, x) as int == if d == 0 { 0 } else { 0x1_0000 - d },
        alu_result(Some(AluOp::NegX), d, x) as int == if x == 0 { 0 } else { 0x1_0000 - x },
        alu_result(Some(AluOp::NegD), d, x) == d <==> d == 0 || d == 0x8000,
        alu_result(Some(AluOp::Add), d, x) as int == if d + x < 0x1_0000 {
            d + x
        } else {
            d + x - 0x1_0000
        },
        alu_result(Some(AluOp::DMinusX), d, x) as int == if d >= x {
            d - x
        } else {
            d - x + 0x1_0000
        },
        alu_result(Some(AluOp::XMinusD), d, x) as int == if x >= d {
            x - d
        } else {
            x - d + 0x1_0000
        },
{
}

/// `Equal` is taken at the value 0 and nowhere else, `Greater` at the
/// positive values 1 to 0x7FFF and nowhere else, `Less` at the negative
/// values 0x8000 to 0xFFFF and nowhere else. Each of the other conditions
/// is the opposite of one of these.
pub proof fn lemma_jump_conditions(out: u16)
    ensures
        jump_holds(Jump::Equal, out) <==> out == 0,
        jump_holds(Jump::Greater, out) <==> 0 < out < 0x8000,
        jump_holds(Jump::Less, out) <==> out >= 0x8000,
        jump_holds(Jump::NotEqual, out) <==> !jump_holds(Jump::Equal, out),
        jump_holds(Jump::LessEqual, out) <==> !jump_holds(Jump::Greater, out),
        jump_holds(Jump::GreaterEqual, out) <==> !jump_holds(Jump::Less, out),
        !jump_holds(Jump::Never, out),
        jump_holds(Jump::Always, out),
{
}

impl AluOp {
    /// Looks `code` up in the function table.
    pub fn from_code(code: u16) -> (op: Option<AluOp>)
        ensures
            op == alu_table(code),
    {
        match code {
            0b101010 => Some(AluOp::Zero),
            0b111111 => Some(AluOp::One),
            0b111010 => Some(AluOp::MinusOne),
            0b001100 => Some(AluOp::D),
            0b110000 => Some(AluOp::X),
            0b001101 => Some(AluOp::NotD),
            0b110001 => Some(AluOp::NotX),
            0b001111 => Some(AluOp::NegD),
            0b110011 => Some(AluOp::NegX),
            0b011111 => Some(AluOp::IncD),
            0b110111 => Some(AluOp::IncX),
            0b001110 => Some(AluOp::DecD),
            0b110010 => Some(AluOp::DecX),
            0b000010 => Some(AluOp::Add),
            0b010011 => Some(AluOp::DMinusX),
            0b000111 => Some(AluOp::XMinusD),
            0b000000 => Some(AluOp::And),
            0b010101 => Some(AluOp::Or),
            _ => None,
        }
    }

    /// Computes the function `op` of `d` and `x`.
    pub fn apply(op: Option<AluOp>, d: u16, x: u16) -> (out: u16)
        ensures
            out == alu_result(op, d, x),
    {
        match op {
            None => 0,
            Some(AluOp::Zero) => 0,
            Some(AluOp::One) => 1,
            Some(AluOp::MinusOne) => 0xFFFF,
            Some(AluOp::D) => d,
            Some(AluOp::X) => x,
            Some(AluOp::NotD) => !d,
            Some(AluOp::NotX) => !x,
            Some(AluOp::NegD) => 0u16.wrapping_sub(d),
            Some(AluOp::NegX) => 0u16.wrapping_sub(x),
            Some(AluOp::IncD) => d.wrapping_add(1),
            Some(AluOp::IncX) => x.wrapping_add(1),
            Some(AluOp::DecD) => d.wrapping_sub(1),
            Some(AluOp::DecX) => x.wrapping_sub(1),
            Some(AluOp::Add) => d.wrapping_add(x),
            Some(AluOp::DMinusX) => d.wrapping_sub(x),
            Some(AluOp::XMinusD) => x.wrapping_sub(d),
            Some(AluOp::And) => d & x,
            Some(AluOp::Or) => d | x,
        }
    }
}

impl Dest {
    /// Looks `code` up in the destination table.
    pub fn from_code(code: u16) -> (dest: Dest)
        ensures
            dest == dest_table(code),
    {
        Dest { a: code & 0b100 == 0b100, d: code & 0b010 == 0b010, m: code & 0b001 == 0b001 }
    }
}

impl Jump {
    /// Looks `code` up in the jump table.
    pub fn from_code(code: u16) -> (jump: Jump)
        ensures
            jump == jump_table(code),
    {
        match code & 0b111 {
            0b000 => Jump::Never,
            0b001 => Jump::Greater,
            0b010 => Jump::Equal,
            0b011 => Jump::GreaterEqual,
            0b100 => Jump::Less,
            0b101 => Jump::NotEqual,
            0b110 => Jump::LessEqual,
            _ => Jump::Always,
        }
    }

    /// Tests the condition on the computed value `out`.
    pub fn holds(self, out: u16) -> (taken: bool)
        ensures
            taken == jump_holds(self, out),
    {
        let negative: bool = out >= 0x8000;
        let zero: bool = out == 0;
        match self {
            Jump::Never => false,
            Jump::Greater => !negative && !zero,
            Jump::Equal => zero,
            Jump::GreaterEqual => !negative,
            Jump::Less => negative,
            Jump::NotEqual => !zero,
            Jump::LessEqual => negative || zero,
            Jump::Always => true,
        }
    }
}

impl Computation {
    /// Splits `opcode` into its fields and resolves each through its table.
    pub fn decode(opcode: u16) -> (c: Computation)
        ensures
            c == computation(opcode),
    {
        Computation {
            function: AluOp::from_code((opcode & 0x0FC0) >> 6),
            memory: opcode & 0x1000 != 0,
            dest: Dest::from_code((opcode & 0x0038) >> 3),
            jump: Jump::from_code(opcode & 0x0007),
        }
    }
}

} // verus!
