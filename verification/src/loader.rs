//! The textual program format and its packing into ROM bytes.
//!
//! A program is plain text. Each instruction is sixteen characters, each the
//! digit `0` or `1`, the most significant bit first; one byte of any value
//! ends the line, and may be missing after the last instruction. The zero
//! byte at the start of a line, or the end of the input there, ends the
//! program. Every instruction becomes two bytes, the high one first.
//!
//! Nothing is packed from a malformed program: the first byte that cannot be
//! read as the format demands is reported instead.

use vstd::prelude::*;
use crate::cpu::{fetch, lemma_fetch_is_big_endian};
use crate::memory::loaded;
use crate::text::{decimal, push_decimal};

verus! {

/// Bytes from the start of one instruction to the start of the next.
pub const LINE_BYTES: usize = 17;

/// Digits of one instruction.
pub const LINE_DIGITS: usize = 16;

/// Why a program text cannot be packed.
#[derive(Clone, Copy, Debug, PartialEq, Eq, Structural)]
pub enum MalformedProgram {
    /// The input ends inside the instruction with this index.
    Truncated { instruction: usize },
    /// The byte at this digit position of this instruction is neither `0`
    /// nor `1`.
    InvalidDigit { instruction: usize, digit: usize },
}

/// The fault in words, with the places it names counted from 0.
pub open spec fn fault_text(fault: MalformedProgram) -> Seq<char> {
    match fault {
        MalformedProgram::Truncated { instruction } => "instruction "@ + decimal(instruction as nat)
            + ": the text ends inside the instruction"@,
        MalformedProgram::InvalidDigit { instruction, digit } => "instruction "@ + decimal(
            instruction as nat,
        ) + ", digit "@ + decimal(digit as nat) + ": neither 0 nor 1"@,
    }
}

impl MalformedProgram {
    /// The fault in words.
    pub fn message(&self) -> (text: String)
        ensures
            text@ == fault_text(*self),
    {
        let mut text = String::from_str("instruction ");
        match *self {
            MalformedProgram::Truncated { instruction } => {
                push_decimal(&mut text, instruction as u128);
                text.append(": the text ends inside the instruction");
            },
            MalformedProgram::InvalidDigit { instruction, digit } => {
                push_decimal(&mut text, instruction as u128);
                text.append(", digit ");
                push_decimal(&mut text, digit as u128);
                text.append(": neither 0 nor 1");
            },
        }
        text
    }
}

/// Whether `byte` is the character `0` or the character `1`.
pub open spec fn is_binary_digit(byte: u8) -> bool {
    byte == 0x30 || byte == 0x31
}

/// The value of the binary digit `byte`.
pub open spec fn bit(byte: u8) -> int {
    byte - 0x30
}

/// The number that the eight binary digits from `start` on spell.
pub open spec fn octet(file: Seq<u8>, start: int) -> int {
    128 * bit(file[start]) + 64 * bit(file[start + 1]) + 32 * bit(file[start + 2]) + 16 * bit(
        file[start + 3],
    ) + 8 * bit(file[start + 4]) + 4 * bit(file[start + 5]) + 2 * bit(file[start + 6]) + bit(
        file[start + 7],
    )
}

/// Whether the program ends where instruction `index` would start: at the
/// end of the input or at a zero byte.
pub open spec fn ends_at(file: Seq<u8>, index: nat) -> bool {
    LINE_BYTES * index >= file.len() || file[LINE_BYTES * index] == 0
}

/// The first fault among the digits of instruction `index` from position
/// `digit` on, if there is one.
pub open spec fn fault_from(file: Seq<u8>, index: nat, digit: nat) -> Option<MalformedProgram>
    decreases LINE_DIGITS - digit,
{
    if digit >= LINE_DIGITS {
        None
    } else if LINE_BYTES * index + digit >= file.len() {
        Some(MalformedProgram::Truncated { instruction: index as usize })
    } else if !is_binary_digit(file[LINE_BYTES * index + digit]) {
        Some(MalformedProgram::InvalidDigit { instruction: index as usize, digit: digit as usize })
    } else {
        fault_from(file, index, digit + 1)
    }
}

/// The two bytes of instruction `index`.
pub open spec fn packed_pair(file: Seq<u8>, index: nat) -> Seq<u8> {
    seq![
        octet(file, LINE_BYTES * index) as u8,
        octet(file, LINE_BYTES * index + 8) as u8,
    ]
}

/// `result` with `bytes` put in front of what it packed.
pub open spec fn preceded(bytes: Seq<u8>, result: Result<Seq<u8>, MalformedProgram>) -> Result<
    Seq<u8>,
    MalformedProgram,
> {
    match result {
        Ok(rest) => Ok(bytes + rest),
        Err(fault) => Err(fault),
    }
}

/// What the instructions from `index` on pack to.
pub open spec fn packed_from(file: Seq<u8>, index: nat) -> Result<Seq<u8>, MalformedProgram>
    decreases
        (if LINE_BYTES * index < file.len() {
            file.len() - LINE_BYTES * index
        } else {
            0
        }),
{
    if ends_at(file, index) {
        Ok(Seq::empty())
    } else {
        match fault_from(file, index, 0) {
            Some(fault) => Err(fault),
            None => preceded(packed_pair(file, index), packed_from(file, index + 1)),
        }
    }
}

/// What a program text packs to: its bytes, or its first fault.
pub open spec fn packed(file: Seq<u8>) -> Result<Seq<u8>, MalformedProgram> {
    packed_from(file, 0)
}

/// What is packed from instruction `index` on is whole instructions: an
/// even number of bytes.
pub proof fn lemma_packed_from_is_whole(file: Seq<u8>, index: nat)
    ensures
        packed_from(file, index) matches Ok(bytes) ==> bytes.len() % 2 == 0,
    decreases
        (if LINE_BYTES * index < file.len() {
            file.len() - LINE_BYTES * index
        } else {
            0
        }),
{
    if !ends_at(file, index) && fault_from(file, index, 0) is None {
        lemma_packed_from_is_whole(file, index + 1);
    }
}

/// A packed program is whole instructions: an even number of bytes, never
/// half an instruction.
pub proof fn lemma_packed_is_whole(file: Seq<u8>)
    ensures
        packed(file) matches Ok(bytes) ==> bytes.len() % 2 == 0,
{
    lemma_packed_from_is_whole(file, 0);
}

/// The digit that shows bit `k` of `word`.
pub open spec fn bit_digit(word: u16, k: u16) -> u8 {
    if (word >> k) & 1 == 1 {
        0x31
    } else {
        0x30
    }
}

/// The sixteen digits of `word`, the most significant bit first.
pub open spec fn word_digits(word: u16) -> Seq<u8> {
    Seq::new(16, |i: int| bit_digit(word, (15 - i) as u16))
}

/// Packing undoes printing: the line that shows `word` in binary, ended by
/// any byte, packs to the two bytes of `word`, the high one first.
pub proof fn lemma_line_packs_to_its_word(word: u16, terminator: u8)
    ensures
        packed(word_digits(word).push(terminator)) == Ok::<Seq<u8>, MalformedProgram>(
            seq![(word / 256) as u8, (word % 256) as u8],
        ),
{
    let file = word_digits(word).push(terminator);
    assert forall|i: int| 0 <= i < 16 implies is_binary_digit(#[trigger] file[i]) && bit(file[i])
        == (word >> ((15 - i) as u16)) & 1 by {
        let k = (15 - i) as u16;
        assert((word >> k) & 1 == 0 || (word >> k) & 1 == 1) by (bit_vector);
    }
    assert(fault_from(file, 0, 0) is None) by {
        reveal_with_fuel(fault_from, 17);
    }
    assert(octet(file, 0) == word / 256) by {
        assert(128 * ((word >> 15) & 1) + 64 * ((word >> 14) & 1) + 32 * ((word >> 13) & 1) + 16
            * ((word >> 12) & 1) + 8 * ((word >> 11) & 1) + 4 * ((word >> 10) & 1) + 2 * ((word
            >> 9) & 1) + ((word >> 8) & 1) == word / 256) by (bit_vector);
    }
    assert(octet(file, 8) == word % 256) by {
        assert(128 * ((word >> 7) & 1) + 64 * ((word >> 6) & 1) + 32 * ((word >> 5) & 1) + 16 * ((
        word >> 4) & 1) + 8 * ((word >> 3) & 1) + 4 * ((word >> 2) & 1) + 2 * ((word >> 1) & 1)
            + ((word >> 0) & 1) == word % 256) by (bit_vector);
    }
    assert(packed_from(file, 1) == Ok::<Seq<u8>, MalformedProgram>(Seq::empty()));
    assert(packed_pair(file, 0) + Seq::<u8>::empty() =~= seq![
        (word / 256) as u8,
        (word % 256) as u8,
    ]);
}

/// What is packed is what is fetched: with the packed line of `word` loaded
/// into the ROM, the machine fetches `word` at offset 0.
pub proof fn lemma_packed_line_is_fetched(word: u16, terminator: u8)
    ensures
        packed(word_digits(word).push(terminator)) matches Ok(bytes) && fetch(loaded(bytes), 0)
            == word,
{
    lemma_line_packs_to_its_word(word, terminator);
    let bytes = seq![(word / 256) as u8, (word % 256) as u8];
    lemma_fetch_is_big_endian(loaded(bytes), 0);
}

/// Looks for the first fault among the sixteen digits that start at `at`.
fn check_line(file: &Vec<u8>, index: usize, at: usize) -> (fault: Option<MalformedProgram>)
    requires
        at == LINE_BYTES * index,
        at < file.len(),
    ensures
        fault == fault_from(file@, index as nat, 0),
        fault is None ==> at + LINE_DIGITS <= file.len(),
        fault is None ==> forall|k: int|
            at <= k < at + LINE_DIGITS ==> is_binary_digit(#[trigger] file[k]),
{
    let room: usize = file.len() - at;
    let mut digit: usize = 0;
    while digit < LINE_DIGITS
        invariant
            at == LINE_BYTES * index,
            at < file.len(),
            room == file.len() - at,
            digit <= LINE_DIGITS,
            digit <= room,
            fault_from(file@, index as nat, 0) == fault_from(file@, index as nat, digit as nat),
            forall|k: int| at <= k < at + digit ==> is_binary_digit(#[trigger] file[k]),
        decreases LINE_DIGITS - digit,
    {
        if digit >= room {
            return Some(MalformedProgram::Truncated { instruction: index });
        }
        let byte: u8 = file[at + digit];
        if byte != 0x30 && byte != 0x31 {
            return Some(MalformedProgram::InvalidDigit { instruction: index, digit });
        }
        digit += 1;
    }
    None
}

/// Packs the eight binary digits that start at `start` into a byte.
fn pack_octet(file: &Vec<u8>, start: usize) -> (byte: u8)
    requires
        start + 8 <= file.len(),
        forall|k: int| start <= k < start + 8 ==> is_binary_digit(#[trigger] file[k]),
    ensures
        byte == octet(file@, start as int),
{
    128 * (file[start] - 0x30) + 64 * (file[start + 1] - 0x30) + 32 * (file[start + 2] - 0x30) + 16
        * (file[start + 3] - 0x30) + 8 * (file[start + 4] - 0x30) + 4 * (file[start + 5] - 0x30) + 2
        * (file[start + 6] - 0x30) + (file[start + 7] - 0x30)
}

/// Packs a program text into ROM bytes, two for each instruction; or
/// reports the first fault of a malformed text.
pub fn treat_file(file: Vec<u8>) -> (result: Result<Vec<u8>, MalformedProgram>)
    ensures
        match result {
            Ok(bytes) => packed(file@) == Ok::<Seq<u8>, MalformedProgram>(bytes@),
            Err(fault) => packed(file@) == Err::<Seq<u8>, MalformedProgram>(fault),
        },
{
    let mut bytes: Vec<u8> = Vec::new();
    let mut index: usize = 0;
    let mut at: usize = 0;
    loop
        invariant_except_break
            at == LINE_BYTES * index,
            at <= file.len(),
            packed(file@) == preceded(bytes@, packed_from(file@, index as nat)),
        ensures
            packed(file@) == Ok::<Seq<u8>, MalformedProgram>(bytes@),
        decreases file.len() - at,
    {
        if at >= file.len() || file[at] == 0 {
            break;
        }
        match check_line(&file, index, at) {
            Some(fault) => {
                return Err(fault);
            },
            None => {},
        }
        let hi: u8 = pack_octet(&file, at);
        let lo: u8 = pack_octet(&file, at + 8);
        proof {
            let ghost rest = packed_from(file@, (index + 1) as nat);
            let ghost pair = packed_pair(file@, index as nat);
            assert(bytes@.push(hi).push(lo) =~= bytes@ + pair);
            if let Ok(tail) = rest {
                assert(bytes@ + (pair + tail) =~= (bytes@ + pair) + tail);
            }
        }
        bytes.push(hi);
        bytes.push(lo);
        if file.len() - at <= LINE_BYTES {
            break;
        }
        at += LINE_BYTES;
        index += 1;
    }
    Ok(bytes)
}

} // verus!
