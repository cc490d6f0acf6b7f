//! The status panel beside the screen: the counters and registers in
//! words, and the lines of the listing from the current instruction on.

use vstd::prelude::*;
use crate::cpu::{Machine, CPU};
use crate::isa::signed16;
use crate::memory::word_at;
use crate::text::{decimal, push_decimal, push_signed16, signed_decimal};

verus! {

/// Cycles that one unit of the panel's cycle count stands for.
pub const CYCLES_PER_UNIT: u128 = 100000;

/// Largest number of listing lines that the panel shows.
pub const WINDOW_LINES: usize = 6;

/// The lines of the panel: the cycle count in units of `CYCLES_PER_UNIT`
/// with the index of the current instruction; register A; register D as a
/// signed number; and the RAM word that A addresses, as a signed number.
pub open spec fn status(m: Machine) -> Seq<Seq<char>> {
    seq![
        "CC: "@ + decimal(m.cc / (CYCLES_PER_UNIT as nat)) + " PC: "@ + decimal((m.pc / 2) as nat),
        "AR: "@ + decimal(m.a as nat),
        "DR: "@ + signed_decimal(signed16(m.d)),
        "RAM[A] = "@ + signed_decimal(signed16(word_at(m.ram, m.a))),
    ]
}

/// How many lines of a listing of `len` lines the window shows from line
/// `first` on.
pub open spec fn window_len(len: int, first: int) -> int {
    if first >= len {
        0
    } else if len - first < WINDOW_LINES {
        len - first
    } else {
        WINDOW_LINES as int
    }
}

/// The window on a listing when the program counter is `pc`: the line of
/// the current instruction, marked with `> `, and the lines after it.
pub open spec fn window(lines: Seq<Seq<char>>, pc: u16) -> Seq<Seq<char>> {
    let first = (pc / 2) as int;
    Seq::new(
        window_len(lines.len() as int, first) as nat,
        |i: int|
            if i == 0 {
                "> "@ + lines[first]
            } else {
                lines[first + i]
            },
    )
}

/// The lines of the status panel.
pub fn status_lines(cpu: &CPU) -> (lines: Vec<String>)
    ensures
        lines.deep_view() == status(cpu@),
{
    let mut counters = String::from_str("CC: ");
    push_decimal(&mut counters, cpu.cc / CYCLES_PER_UNIT);
    counters.append(" PC: ");
    push_decimal(&mut counters, (cpu.pc / 2) as u128);
    let mut a = String::from_str("AR: ");
    push_decimal(&mut a, cpu.register_a as u128);
    let mut d = String::from_str("DR: ");
    push_signed16(&mut d, cpu.register_d);
    let mut m = String::from_str("RAM[A] = ");
    push_signed16(&mut m, *cpu.ram.read_u16(cpu.register_a));
    let mut lines: Vec<String> = Vec::new();
    lines.push(counters);
    lines.push(a);
    lines.push(d);
    lines.push(m);
    lines
}

/// The window on `lines` when the program counter is `pc`.
pub fn listing_window(lines: &Vec<String>, pc: u16) -> (shown: Vec<String>)
    ensures
        shown.deep_view() == window(lines.deep_view(), pc),
{
    let first: usize = (pc / 2) as usize;
    let mut shown: Vec<String> = Vec::new();
    let mut i: usize = 0;
    while i < WINDOW_LINES && first + i < lines.len()
        invariant
            first == pc / 2,
            i <= WINDOW_LINES,
            i <= window_len(lines.len() as int, first as int),
            shown.len() == i,
            forall|k: int|
                0 <= k < i ==> (#[trigger] shown@[k])@ == window(lines.deep_view(), pc)[k],
        decreases WINDOW_LINES - i,
    {
        let mut text = String::new();
        if i == 0 {
            text.append("> ");
        }
        text.append(lines[first + i].as_str());
        shown.push(text);
        i += 1;
    }
    shown
}

} // verus!
