//! The processor: two registers, a program counter and a cycle counter over
//! the two memories, and the single step that fetches, decodes and executes
//! one instruction.
//!
//! The program counter is a byte offset into the ROM, sixteen bits wide. A
//! jump goes to register A taken as an instruction index, that is to twice
//! its value. Both the advance past an instruction and the jump target are
//! reduced modulo 2^16, so no step fails whatever a guest program computes.

use vstd::prelude::*;
use crate::isa::{
    alu_result, computation, destination_code, immediate, is_computation, jump_holds,
    lemma_small_word_loads_itself, wrap16, AluOp, Computation,
};
use crate::memory::{byte_at, store, word_at, RAM16K, RAM_WORDS, ROM32K, ROM_BYTES};

verus! {

/// The machine: registers A and D, the program counter, the count of
/// executed instructions, and the two memories.
pub struct CPU {
    pub register_a: u16,
    pub register_d: u16,
    /// Byte offset of the next instruction in the ROM.
    pub pc: u16,
    /// Instructions executed since the machine was built or restarted.
    pub cc: u128,
    pub rom: ROM32K,
    pub ram: RAM16K,
}

/// The state of the machine as the contracts see it.
#[verifier::ext_equal]
pub struct Machine {
    pub a: u16,
    pub d: u16,
    pub pc: u16,
    pub cc: nat,
    pub ram: Seq<u16>,
    pub rom: Seq<u8>,
}

impl View for CPU {
    type V = Machine;

    open spec fn view(&self) -> Machine {
        Machine {
            a: self.register_a,
            d: self.register_d,
            pc: self.pc,
            cc: self.cc as nat,
            ram: self.ram@,
            rom: self.rom@,
        }
    }
}

/// The instruction word at byte offset `pc`: two bytes, the high one first.
pub open spec fn fetch(rom: Seq<u8>, pc: u16) -> u16 {
    ((byte_at(rom, pc) as u16) << 8) | (byte_at(rom, wrap16(pc + 1)) as u16)
}

/// The program counter after an instruction that does not jump.
pub open spec fn next_pc(pc: u16) -> u16 {
    wrap16(pc + 2)
}

/// The program counter after a jump with `a` in register A: `a` counts
/// instructions, the program counter counts bytes.
pub open spec fn jump_target(a: u16) -> u16 {
    wrap16(2 * a)
}

/// The machine after a load instruction: A holds the immediate, and the
/// program counter has moved on.
pub open spec fn load_immediate(m: Machine, opcode: u16) -> Machine {
    Machine { a: immediate(opcode), pc: next_pc(m.pc), ..m }
}

/// The second operand of the computation `c`: register A, or the RAM word
/// that A addresses.
pub open spec fn operand(m: Machine, c: Computation) -> u16 {
    if c.memory {
        word_at(m.ram, m.a)
    } else {
        m.a
    }
}

/// The value that the computation in `opcode` yields on `m`.
pub open spec fn computed(m: Machine, opcode: u16) -> u16 {
    let c = computation(opcode);
    alu_result(c.function, m.d, operand(m, c))
}

/// The machine after a computation. One value is computed and goes to every
/// destination that the instruction names; the memory write uses A as it was
/// before the instruction, the jump uses A as the instruction leaves it.
pub open spec fn compute(m: Machine, opcode: u16) -> Machine {
    let c = computation(opcode);
    let out = computed(m, opcode);
    let a = if c.dest.a {
        out
    } else {
        m.a
    };
    Machine {
        a,
        d: if c.dest.d {
            out
        } else {
            m.d
        },
        pc: if jump_holds(c.jump, out) {
            jump_target(a)
        } else {
            next_pc(m.pc)
        },
        cc: m.cc,
        ram: if c.dest.m {
            store(m.ram, m.a, out)
        } else {
            m.ram
        },
        rom: m.rom,
    }
}

/// One step of the machine: count the cycle, fetch the instruction at the
/// program counter and carry it out.
pub open spec fn step(m: Machine) -> Machine {
    let opcode = fetch(m.rom, m.pc);
    let counted = Machine { cc: m.cc + 1, ..m };
    if is_computation(opcode) {
        compute(counted, opcode)
    } else {
        load_immediate(counted, opcode)
    }
}

/// The machine after `count` steps.
pub open spec fn steps(m: Machine, count: nat) -> Machine
    decreases count,
{
    if count == 0 {
        m
    } else {
        step(steps(m, (count - 1) as nat))
    }
}

/// The machine after a restart: registers, counters and RAM cleared, the
/// program still in place.
pub open spec fn restarted(m: Machine) -> Machine {
    Machine {
        a: 0,
        d: 0,
        pc: 0,
        cc: 0,
        ram: Seq::new(RAM_WORDS as nat, |i: int| 0u16),
        rom: m.rom,
    }
}

/// What holds of every machine that starts from `new` and moves by `step`,
/// `reset` and loads of a program: the program counter is even, the RAM has
/// `RAM_WORDS` words and the ROM at most `ROM_BYTES` bytes.
pub open spec fn well_formed(m: Machine) -> bool {
    &&& m.pc % 2 == 0
    &&& m.ram.len() == RAM_WORDS
    &&& m.rom.len() <= ROM_BYTES
}

/// The fetched word is the high byte times 256 plus the low byte.
pub proof fn lemma_fetch_is_big_endian(rom: Seq<u8>, pc: u16)
    ensures
        fetch(rom, pc) == 256 * byte_at(rom, pc) + byte_at(rom, wrap16(pc + 1)),
{
    let hi = byte_at(rom, pc);
    let lo = byte_at(rom, wrap16(pc + 1));
    assert(((hi as u16) << 8) | (lo as u16) == 256 * hi + lo) by (bit_vector);
}

/// Below the top of its range the program counter advances by exactly 2,
/// and it stays even.
pub proof fn lemma_next_pc(pc: u16)
    ensures
        pc + 2 < 0x1_0000 ==> next_pc(pc) == pc + 2,
        pc % 2 == 0 ==> next_pc(pc) % 2 == 0,
{
}

/// A jump lands on an even offset: exactly twice A for every A that a load
/// instruction can set.
pub proof fn lemma_jump_target(a: u16)
    ensures
        a < 0x8000 ==> jump_target(a) == 2 * a,
        jump_target(a) % 2 == 0,
{
}

/// A load instruction with immediate `k` sets A to `k` and moves the
/// program counter past the instruction. D, RAM and ROM stay as they are,
/// and the cycle counter counts one more.
pub proof fn lemma_load_sets_a(m: Machine, k: u16)
    requires
        k < 0x8000,
        fetch(m.rom, m.pc) == k,
    ensures
        step(m) == (Machine { a: k, pc: next_pc(m.pc), cc: m.cc + 1, ..m }),
        m.pc + 2 < 0x1_0000 ==> step(m).pc == m.pc + 2,
{
    lemma_small_word_loads_itself(k);
}

/// A computation without destination leaves A, D and RAM as they are,
/// whatever it computes: only the program counter moves.
pub proof fn lemma_no_destination(m: Machine, opcode: u16)
    requires
        destination_code(opcode) == 0,
    ensures
        compute(m, opcode) == (Machine { pc: compute(m, opcode).pc, ..m }),
{
    assert(0u16 & 0b100 != 0b100 && 0u16 & 0b010 != 0b010 && 0u16 & 0b001 != 0b001)
        by (bit_vector);
}

/// A step that executes a computation without destination changes nothing
/// but the program counter and the cycle counter.
pub proof fn lemma_step_without_destination(m: Machine)
    requires
        is_computation(fetch(m.rom, m.pc)),
        destination_code(fetch(m.rom, m.pc)) == 0,
    ensures
        step(m) == (Machine { pc: step(m).pc, cc: m.cc + 1, ..m }),
{
    lemma_no_destination(Machine { cc: m.cc + 1, ..m }, fetch(m.rom, m.pc));
}

/// A step never resizes a memory and never touches the program, and it
/// counts exactly one cycle.
pub proof fn lemma_step_keeps_memories(m: Machine)
    ensures
        step(m).ram.len() == m.ram.len(),
        step(m).rom == m.rom,
        step(m).cc == m.cc + 1,
{
}

/// A step of a well-formed machine leaves it well-formed; in particular
/// the program counter stays even.
pub proof fn lemma_step_keeps_well_formed(m: Machine)
    requires
        well_formed(m),
    ensures
        well_formed(step(m)),
{
}

/// A restart clears every word of RAM and yields a well-formed machine
/// around the same program.
pub proof fn lemma_restart(m: Machine)
    ensures
        forall|addr: u16| word_at(restarted(m).ram, addr) == 0,
        restarted(m).rom == m.rom,
        m.rom.len() <= ROM_BYTES ==> well_formed(restarted(m)),
{
}

/// However many steps a machine takes, its program stays, its RAM keeps
/// its size, every step is counted, and a well-formed machine stays
/// well-formed.
pub proof fn lemma_steps_keep_memories(m: Machine, count: nat)
    ensures
        steps(m, count).rom == m.rom,
        steps(m, count).ram.len() == m.ram.len(),
        steps(m, count).cc == m.cc + count,
        well_formed(m) ==> well_formed(steps(m, count)),
    decreases count,
{
    if count > 0 {
        let before = steps(m, (count - 1) as nat);
        lemma_steps_keep_memories(m, (count - 1) as nat);
        if well_formed(m) {
            lemma_step_keeps_well_formed(before);
        }
    }
}

/// Running `first` steps and then `second` more is running `first + second`
/// steps.
pub proof fn lemma_steps_add_up(m: Machine, first: nat, second: nat)
    ensures
        steps(steps(m, first), second) == steps(m, first + second),
    decreases second,
{
    if second > 0 {
        lemma_steps_add_up(m, first, (second - 1) as nat);
    }
}

/// A restart after any number of steps is the restart of the machine as it
/// was before them: whatever the steps changed is cleared, and the program
/// is the one that was loaded.
pub proof fn lemma_restart_after_steps(m: Machine, count: nat)
    ensures
        restarted(steps(m, count)) == restarted(m),
{
    lemma_steps_keep_memories(m, count);
}

impl CPU {
    /// A machine with everything cleared and a ROM of `ROM_BYTES` zero bytes.
    pub fn new() -> (cpu: Self)
        ensures
            cpu@ == (Machine {
                a: 0,
                d: 0,
                pc: 0,
                cc: 0,
                ram: Seq::new(RAM_WORDS as nat, |i: int| 0u16),
                rom: Seq::new(ROM_BYTES as nat, |i: int| 0u8),
            }),
            well_formed(cpu@),
    {
        Self {
            register_a: 0,
            register_d: 0,
            pc: 0,
            cc: 0,
            ram: RAM16K::new(),
            rom: ROM32K::new(),
        }
    }

    /// Restarts the machine with its program still loaded.
    pub fn reset(&mut self)
        ensures
            final(self)@ == restarted(old(self)@),
            old(self).rom.wf() ==> well_formed(final(self)@),
    {
        self.register_a = 0;
        self.register_d = 0;
        self.pc = 0;
        self.cc = 0;
        self.ram = RAM16K::new();
    }

    /// Executes the instruction at the program counter. The cycle counter
    /// must have room for it.
    pub fn execute(&mut self)
        requires
            old(self).cc < u128::MAX,
        ensures
            final(self)@ == step(old(self)@),
            well_formed(old(self)@) ==> well_formed(final(self)@),
    {
        let hi: u16 = *self.rom.read_byte(self.pc) as u16;
        let lo: u16 = *self.rom.read_byte(self.pc.wrapping_add(1)) as u16;
        let instruction: u16 = (hi << 8) | lo;
        self.cc += 1;
        if instruction & 0x8000 != 0 {
            self.c_instruction(instruction);
        } else {
            self.a_instruction(instruction);
        }
    }

    /// Executes `count` instructions, one after the other. The cycle
    /// counter must have room for them.
    pub fn run(&mut self, count: u32)
        requires
            old(self).cc + count <= u128::MAX,
        ensures
            final(self)@ == steps(old(self)@, count as nat),
            well_formed(old(self)@) ==> well_formed(final(self)@),
    {
        let mut done: u32 = 0;
        while done < count
            invariant
                done <= count,
                old(self).cc + count <= u128::MAX,
                self.cc == old(self).cc + done,
                self@ == steps(old(self)@, done as nat),
                well_formed(old(self)@) ==> well_formed(self@),
            decreases count - done,
        {
            self.execute();
            done += 1;
        }
    }

    /// Loads the low fifteen bits of `opcode` into register A.
    pub fn a_instruction(&mut self, opcode: u16)
        ensures
            final(self)@ == load_immediate(old(self)@, opcode),
            well_formed(old(self)@) ==> well_formed(final(self)@),
    {
        self.register_a = opcode & 0x7FFF;
        self.pc = self.pc.wrapping_add(2);
    }

    /// Carries out the computation that `opcode` encodes.
    pub fn c_instruction(&mut self, opcode: u16)
        ensures
            final(self)@ == compute(old(self)@, opcode),
            well_formed(old(self)@) ==> well_formed(final(self)@),
    {
        let c = Computation::decode(opcode);
        let x: u16 = if c.memory {
            *self.ram.read_u16(self.register_a)
        } else {
            self.register_a
        };
        let out: u16 = AluOp::apply(c.function, self.register_d, x);
        if c.dest.m {
            self.ram.write_u16(self.register_a, out);
        }
        if c.dest.a {
            self.register_a = out;
        }
        if c.dest.d {
            self.register_d = out;
        }
        if c.jump.holds(out) {
            self.pc = self.register_a.wrapping_mul(2);
        } else {
            self.pc = self.pc.wrapping_add(2);
        }
    }
}

} // verus!
