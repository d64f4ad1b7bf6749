//! Keys and the characters they write.

use vstd::prelude::*;

verus! {

/// The virtual key of either shift key.
pub const VK_SHIFT: usize = 0x10;

/// The virtual key of the left shift key.
pub const VK_LSHIFT: usize = 0xA0;

/// The virtual key of the right shift key.
pub const VK_RSHIFT: usize = 0xA1;

/// The state of a key that is held down.
pub const PRESSED: u8 = 129;

/// A name for what `char::is_control` answers: whether a character has the
/// general category of control codes.
pub uninterp spec fn is_control_code(c: char) -> bool;

/// `char::is_control` tells whether a character has the general category of
/// control codes.
pub assume_specification[ char::is_control ](c: char) -> (r: bool)
    ensures
        r == is_control_code(c),
;

/// The character a single UTF-16 unit writes: none for half of a surrogate
/// pair, and none for a control code.
pub open spec fn written_char(unicode: u16) -> Option<char> {
    if 0xD800 <= unicode <= 0xDFFF {
        None
    } else if is_control_code(unicode as char) {
        None
    } else {
        Some(unicode as char)
    }
}

/// The character that a UTF-16 unit writes, if it writes one that can be shown.
pub fn get_char_from_unicode(unicode: u16) -> (r: Option<char>)
    ensures
        r == written_char(unicode),
{
    match char::from_u32(unicode as u32) {
        Some(chr) => {
            if chr.is_control() {
                None
            } else {
                Some(chr)
            }
        },
        None => None,
    }
}

/// The state of the keyboard that a key is translated under: every key up
/// but the shift keys that are held down, and with either of them the shift
/// key as such.
pub open spec fn shifted_state(shift_left: bool, shift_right: bool) -> Seq<u8> {
    Seq::new(
        256,
        |i: int|
            if (i == VK_LSHIFT && shift_left) || (i == VK_RSHIFT && shift_right) || (i == VK_SHIFT
                && (shift_left || shift_right)) {
                PRESSED
            } else {
                0u8
            },
    )
}

/// Builds the state of the keyboard that a key is translated under.
pub fn keyboard_state(shift_left: bool, shift_right: bool) -> (r: Vec<u8>)
    ensures
        r@ == shifted_state(shift_left, shift_right),
{
    let mut state: Vec<u8> = Vec::new();
    let mut i: usize = 0;
    while i < 256
        invariant
            i <= 256,
            state@.len() == i,
            forall|k: int| 0 <= k < i ==> state@[k] == shifted_state(shift_left, shift_right)[k],
        decreases 256 - i,
    {
        let held = (i == VK_LSHIFT && shift_left) || (i == VK_RSHIFT && shift_right) || (i
            == VK_SHIFT && (shift_left || shift_right));
        state.push(if held { PRESSED } else { 0 });
        i += 1;
    }
    assert(state@ =~= shifted_state(shift_left, shift_right));
    state
}

/// The unit a key was translated to: the first of the buffer where exactly
/// one was written, none where the key writes nothing, is a dead key, or
/// writes more than one.
pub fn get_unicode_from_vk(written: i32, buffer: &Vec<u16>) -> (r: Option<u16>)
    ensures
        r == (if written == 1 && buffer@.len() > 0 {
            Some(buffer@[0])
        } else {
            None::<u16>
        }),
{
    if written == 1 && buffer.len() > 0 {
        Some(buffer[0])
    } else {
        None
    }
}

} // verus!
