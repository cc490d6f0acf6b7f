//! The keyboard register: which code the machine sees for the keys that the
//! host finds held down.

use vstd::prelude::*;

verus! {

/// Address of the keyboard register in RAM.
pub const KBR_ADDR: i32 = 24576;

/// One key of the host's table, as the host found it: whether it is held
/// down, the code the table gives it, and the character it types.
#[derive(Clone, Copy, Debug, PartialEq, Eq)]
pub struct KeyState {
    pub held: bool,
    pub code: u16,
    pub symbol: char,
}

/// The code that a key reports: the character itself for a key that types
/// `Z` or a character after it, the code from the table for any other key.
pub open spec fn key_code(key: KeyState) -> u16 {
    if key.symbol >= 'Z' {
        key.symbol as u16
    } else {
        key.code
    }
}

/// Whether no key before position `index` is held.
pub open spec fn none_held_before(keys: Seq<KeyState>, index: int) -> bool {
    forall|j: int| 0 <= j < index && j < keys.len() ==> !(#[trigger] keys[j]).held
}

/// The word for the keyboard register: the code of the first key of the
/// table that is held, or 0 when none is.
pub fn handle_input(keys: &Vec<KeyState>) -> (code: u16)
    ensures
        none_held_before(keys@, keys@.len() as int) ==> code == 0,
        forall|i: int|
            0 <= i < keys@.len() && (#[trigger] keys@[i]).held && none_held_before(keys@, i)
                ==> code == key_code(keys@[i]),
{
    let mut index: usize = 0;
    while index < keys.len()
        invariant
            index <= keys.len(),
            none_held_before(keys@, index as int),
        decreases keys.len() - index,
    {
        let key = keys[index];
        if key.held {
            if key.symbol >= 'Z' {
                return key.symbol as u16;
            } else {
                return key.code;
            }
        }
        index += 1;
    }
    0
}

} // verus!
