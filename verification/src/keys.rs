//! Keyboard input: the escape sequences that navigation and function keys
//! send to the console.
use vstd::prelude::*;

verus! {

/// Virtual-key code of the Page Up key.
pub const VK_PRIOR: u16 = 0x21;
/// Virtual-key code of the Page Down key.
pub const VK_NEXT: u16 = 0x22;
/// Virtual-key code of the End key.
pub const VK_END: u16 = 0x23;
/// Virtual-key code of the Home key.
pub const VK_HOME: u16 = 0x24;
/// Virtual-key code of the Left arrow key.
pub const VK_LEFT: u16 = 0x25;
/// Virtual-key code of the Up arrow key.
pub const VK_UP: u16 = 0x26;
/// Virtual-key code of the Right arrow key.
pub const VK_RIGHT: u16 = 0x27;
/// Virtual-key code of the Down arrow key.
pub const VK_DOWN: u16 = 0x28;
/// Virtual-key code of the C key.
pub const VK_C: u16 = 0x43;
/// Virtual-key code of the F1 key; F2 to F6 follow it.
pub const VK_F1: u16 = 0x70;
/// Virtual-key code of the F2 key.
pub const VK_F2: u16 = 0x71;
/// Virtual-key code of the F3 key.
pub const VK_F3: u16 = 0x72;
/// Virtual-key code of the F4 key.
pub const VK_F4: u16 = 0x73;
/// Virtual-key code of the F5 key.
pub const VK_F5: u16 = 0x74;
/// Virtual-key code of the F6 key.
pub const VK_F6: u16 = 0x75;
/// Virtual-key code of the Ctrl key.
pub const VK_CONTROL: u16 = 0x11;

/// The byte the terminal sends for Ctrl+C (ETX).
pub const CTRL_C: u8 = 3;

/// The VT escape sequence each navigation or function key sends: cursor
/// keys as `ESC [ A`..`D`, Home and End as `ESC [ H` and `ESC [ F`, page keys
/// as `ESC [ 5 ~` and `ESC [ 6 ~`, F1..F4 as `ESC O P`..`S`, F5 and F6 as
/// `ESC [ 15 ~` and `ESC [ 17 ~`.
pub open spec fn key_sequence_bytes(key: u16) -> Option<Seq<u8>> {
    if key == VK_UP { Some(seq![0x1bu8, 0x5b, 0x41]) }
    else if key == VK_DOWN { Some(seq![0x1bu8, 0x5b, 0x42]) }
    else if key == VK_RIGHT { Some(seq![0x1bu8, 0x5b, 0x43]) }
    else if key == VK_LEFT { Some(seq![0x1bu8, 0x5b, 0x44]) }
    else if key == VK_HOME { Some(seq![0x1bu8, 0x5b, 0x48]) }
    else if key == VK_END { Some(seq![0x1bu8, 0x5b, 0x46]) }
    else if key == VK_PRIOR { Some(seq![0x1bu8, 0x5b, 0x35, 0x7e]) }
    else if key == VK_NEXT { Some(seq![0x1bu8, 0x5b, 0x36, 0x7e]) }
    else if key == VK_F1 { Some(seq![0x1bu8, 0x4f, 0x50]) }
    else if key == VK_F2 { Some(seq![0x1bu8, 0x4f, 0x51]) }
    else if key == VK_F3 { Some(seq![0x1bu8, 0x4f, 0x52]) }
    else if key == VK_F4 { Some(seq![0x1bu8, 0x4f, 0x53]) }
    else if key == VK_F5 { Some(seq![0x1bu8, 0x5b, 0x31, 0x35, 0x7e]) }
    else if key == VK_F6 { Some(seq![0x1bu8, 0x5b, 0x31, 0x37, 0x7e]) }
    else { None }
}

/// The escape sequence a key sends, or `None` for a key that sends none
/// (its character, if any, arrives separately).
pub fn key_sequence(key: u16) -> (sequence: Option<Vec<u8>>)
    ensures
        match key_sequence_bytes(key) {
            Some(bytes) => sequence matches Some(v) && v@ == bytes,
            None => sequence is None,
        },
{
    if key == VK_UP { Some(vec![0x1bu8, 0x5b, 0x41]) }
    else if key == VK_DOWN { Some(vec![0x1bu8, 0x5b, 0x42]) }
    else if key == VK_RIGHT { Some(vec![0x1bu8, 0x5b, 0x43]) }
    else if key == VK_LEFT { Some(vec![0x1bu8, 0x5b, 0x44]) }
    else if key == VK_HOME { Some(vec![0x1bu8, 0x5b, 0x48]) }
    else if key == VK_END { Some(vec![0x1bu8, 0x5b, 0x46]) }
    else if key == VK_PRIOR { Some(vec![0x1bu8, 0x5b, 0x35, 0x7e]) }
    else if key == VK_NEXT { Some(vec![0x1bu8, 0x5b, 0x36, 0x7e]) }
    else if key == VK_F1 { Some(vec![0x1bu8, 0x4f, 0x50]) }
    else if key == VK_F2 { Some(vec![0x1bu8, 0x4f, 0x51]) }
    else if key == VK_F3 { Some(vec![0x1bu8, 0x4f, 0x52]) }
    else if key == VK_F4 { Some(vec![0x1bu8, 0x4f, 0x53]) }
    else if key == VK_F5 { Some(vec![0x1bu8, 0x5b, 0x31, 0x35, 0x7e]) }
    else if key == VK_F6 { Some(vec![0x1bu8, 0x5b, 0x31, 0x37, 0x7e]) }
    else { None }
}

/// Exactly the fourteen navigation and function keys send a sequence:
/// Page Up, Page Down, End, Home and the four arrows (0x21..=0x28) and F1
/// to F6 (0x70..=0x75); every other key code sends none.
pub proof fn keys_with_sequences(key: u16)
    ensures
        key_sequence_bytes(key) is Some <==> (0x21 <= key <= 0x28 || 0x70 <= key <= 0x75),
{
}

/// The sequences, key by key: the arrows Up, Down, Right and Left send
/// `ESC [ A`, `B`, `C` and `D`; Home and End `ESC [ H` and `ESC [ F`; Page
/// Up and Page Down `ESC [ 5 ~` and `ESC [ 6 ~`; F1 to F4 `ESC O P` to
/// `ESC O S`; F5 `ESC [ 1 5 ~` and F6 `ESC [ 1 7 ~`.
pub proof fn key_sequence_table()
    ensures
        key_sequence_bytes(0x26) == Some(seq![27u8, 91u8, 65u8]),
        key_sequence_bytes(0x28) == Some(seq![27u8, 91u8, 66u8]),
        key_sequence_bytes(0x27) == Some(seq![27u8, 91u8, 67u8]),
        key_sequence_bytes(0x25) == Some(seq![27u8, 91u8, 68u8]),
        key_sequence_bytes(0x24) == Some(seq![27u8, 91u8, 72u8]),
        key_sequence_bytes(0x23) == Some(seq![27u8, 91u8, 70u8]),
        key_sequence_bytes(0x21) == Some(seq![27u8, 91u8, 53u8, 126u8]),
        key_sequence_bytes(0x22) == Some(seq![27u8, 91u8, 54u8, 126u8]),
        key_sequence_bytes(0x70) == Some(seq![27u8, 79u8, 80u8]),
        key_sequence_bytes(0x71) == Some(seq![27u8, 79u8, 81u8]),
        key_sequence_bytes(0x72) == Some(seq![27u8, 79u8, 82u8]),
        key_sequence_bytes(0x73) == Some(seq![27u8, 79u8, 83u8]),
        key_sequence_bytes(0x74) == Some(seq![27u8, 91u8, 49u8, 53u8, 126u8]),
        key_sequence_bytes(0x75) == Some(seq![27u8, 91u8, 49u8, 55u8, 126u8]),
{
}

/// Every key sequence starts with ESC and no two keys send the same
/// sequence.
pub proof fn key_sequences_distinct(a: u16, b: u16)
    requires
        key_sequence_bytes(a) is Some,
        key_sequence_bytes(b) is Some,
        a != b,
    ensures
        key_sequence_bytes(a)->0[0] == 0x1b,
        key_sequence_bytes(a)->0 != key_sequence_bytes(b)->0,
{
    let sa = key_sequence_bytes(a)->0;
    let sb = key_sequence_bytes(b)->0;
    if sa.len() == sb.len() {
        assert(sa[1] != sb[1] || sa[2] != sb[2] || sa[3] != sb[3]);
    }
}

} // verus!
