//! The two sources of the decoder's bindings: the key capabilities of a
//! terminfo database, and a table of the escape sequences that terminals in
//! the xterm family send.

use crate::input::constants;
use crate::input::csi::{has_csi_prefix, parse_csi, CSICommand, CsiView};
use vstd::prelude::*;

verus! {

/// The number of capabilities that name a key.
pub const KEY_CAPABILITIES: usize = 48;

/// The number of bindings in the default table.
pub const DEFAULT_BINDINGS: usize = 27;

/// The capabilities that name a key, each with its key code, in the order
/// in which they are bound.
pub open spec fn key_capability(i: int) -> (Seq<char>, u32) {
    if i == 0 {
        ("tab"@, constants::TAB)
    } else if i == 1 {
        ("key_backspace"@, constants::BACKSPACE)
    } else if i == 2 {
        ("key_ic"@, constants::INSERT)
    } else if i == 3 {
        ("key_dc"@, constants::DELETE)
    } else if i == 4 {
        ("key_left"@, constants::LEFT)
    } else if i == 5 {
        ("key_right"@, constants::RIGHT)
    } else if i == 6 {
        ("key_up"@, constants::UP)
    } else if i == 7 {
        ("key_down"@, constants::DOWN)
    } else if i == 8 {
        ("key_ppage"@, constants::PAGE_UP)
    } else if i == 9 {
        ("key_npage"@, constants::PAGE_DOWN)
    } else if i == 10 {
        ("key_home"@, constants::HOME)
    } else if i == 11 {
        ("cursor_home"@, constants::HOME)
    } else if i == 12 {
        ("key_end"@, constants::END)
    } else if i == 13 {
        ("key_f1"@, constants::F1)
    } else if i == 14 {
        ("key_f2"@, constants::F2)
    } else if i == 15 {
        ("key_f3"@, constants::F3)
    } else if i == 16 {
        ("key_f4"@, constants::F4)
    } else if i == 17 {
        ("key_f5"@, constants::F5)
    } else if i == 18 {
        ("key_f6"@, constants::F6)
    } else if i == 19 {
        ("key_f7"@, constants::F7)
    } else if i == 20 {
        ("key_f8"@, constants::F8)
    } else if i == 21 {
        ("key_f9"@, constants::F9)
    } else if i == 22 {
        ("key_f10"@, constants::F10)
    } else if i == 23 {
        ("key_f11"@, constants::F11)
    } else if i == 24 {
        ("key_f12"@, constants::F12)
    } else if i == 25 {
        ("key_f13"@, constants::F13)
    } else if i == 26 {
        ("key_f14"@, constants::F14)
    } else if i == 27 {
        ("key_f15"@, constants::F15)
    } else if i == 28 {
        ("key_f16"@, constants::F16)
    } else if i == 29 {
        ("key_f17"@, constants::F17)
    } else if i == 30 {
        ("key_f18"@, constants::F18)
    } else if i == 31 {
        ("key_f19"@, constants::F19)
    } else if i == 32 {
        ("key_f20"@, constants::F20)
    } else if i == 33 {
        ("key_f21"@, constants::F21)
    } else if i == 34 {
        ("key_f22"@, constants::F22)
    } else if i == 35 {
        ("key_f23"@, constants::F23)
    } else if i == 36 {
        ("key_f24"@, constants::F24)
    } else if i == 37 {
        ("key_f25"@, constants::F25)
    } else if i == 38 {
        ("key_f26"@, constants::F26)
    } else if i == 39 {
        ("key_f27"@, constants::F27)
    } else if i == 40 {
        ("key_f28"@, constants::F28)
    } else if i == 41 {
        ("key_f29"@, constants::F29)
    } else if i == 42 {
        ("key_f30"@, constants::F30)
    } else if i == 43 {
        ("key_f31"@, constants::F31)
    } else if i == 44 {
        ("key_f32"@, constants::F32)
    } else if i == 45 {
        ("key_f33"@, constants::F33)
    } else if i == 46 {
        ("key_f34"@, constants::F34)
    } else {
        ("key_f35"@, constants::F35)
    }
}

/// The `i`-th capability that names a key, with its key code.
pub fn key_capability_at(i: usize) -> (r: (&'static str, u32))
    requires
        i < KEY_CAPABILITIES,
    ensures
        r.0@ == key_capability(i as int).0,
        r.1 == key_capability(i as int).1,
{
    if i == 0 {
        ("tab", constants::TAB)
    } else if i == 1 {
        ("key_backspace", constants::BACKSPACE)
    } else if i == 2 {
        ("key_ic", constants::INSERT)
    } else if i == 3 {
        ("key_dc", constants::DELETE)
    } else if i == 4 {
        ("key_left", constants::LEFT)
    } else if i == 5 {
        ("key_right", constants::RIGHT)
    } else if i == 6 {
        ("key_up", constants::UP)
    } else if i == 7 {
        ("key_down", constants::DOWN)
    } else if i == 8 {
        ("key_ppage", constants::PAGE_UP)
    } else if i == 9 {
        ("key_npage", constants::PAGE_DOWN)
    } else if i == 10 {
        ("key_home", constants::HOME)
    } else if i == 11 {
        ("cursor_home", constants::HOME)
    } else if i == 12 {
        ("key_end", constants::END)
    } else if i == 13 {
        ("key_f1", constants::F1)
    } else if i == 14 {
        ("key_f2", constants::F2)
    } else if i == 15 {
        ("key_f3", constants::F3)
    } else if i == 16 {
        ("key_f4", constants::F4)
    } else if i == 17 {
        ("key_f5", constants::F5)
    } else if i == 18 {
        ("key_f6", constants::F6)
    } else if i == 19 {
        ("key_f7", constants::F7)
    } else if i == 20 {
        ("key_f8", constants::F8)
    } else if i == 21 {
        ("key_f9", constants::F9)
    } else if i == 22 {
        ("key_f10", constants::F10)
    } else if i == 23 {
        ("key_f11", constants::F11)
    } else if i == 24 {
        ("key_f12", constants::F12)
    } else if i == 25 {
        ("key_f13", constants::F13)
    } else if i == 26 {
        ("key_f14", constants::F14)
    } else if i == 27 {
        ("key_f15", constants::F15)
    } else if i == 28 {
        ("key_f16", constants::F16)
    } else if i == 29 {
        ("key_f17", constants::F17)
    } else if i == 30 {
        ("key_f18", constants::F18)
    } else if i == 31 {
        ("key_f19", constants::F19)
    } else if i == 32 {
        ("key_f20", constants::F20)
    } else if i == 33 {
        ("key_f21", constants::F21)
    } else if i == 34 {
        ("key_f22", constants::F22)
    } else if i == 35 {
        ("key_f23", constants::F23)
    } else if i == 36 {
        ("key_f24", constants::F24)
    } else if i == 37 {
        ("key_f25", constants::F25)
    } else if i == 38 {
        ("key_f26", constants::F26)
    } else if i == 39 {
        ("key_f27", constants::F27)
    } else if i == 40 {
        ("key_f28", constants::F28)
    } else if i == 41 {
        ("key_f29", constants::F29)
    } else if i == 42 {
        ("key_f30", constants::F30)
    } else if i == 43 {
        ("key_f31", constants::F31)
    } else if i == 44 {
        ("key_f32", constants::F32)
    } else if i == 45 {
        ("key_f33", constants::F33)
    } else if i == 46 {
        ("key_f34", constants::F34)
    } else {
        ("key_f35", constants::F35)
    }
}

/// The command that a key capability stands for: the capability without a
/// leading `ESC [`, read as a CSI command.
pub open spec fn capability_csi(capability: Seq<u8>) -> Option<CsiView> {
    let body = if has_csi_prefix(capability) {
        capability.subrange(2, capability.len() as int)
    } else {
        capability
    };
    match parse_csi(body) {
        Some((csi, _)) => Some(csi),
        None => None,
    }
}

/// The bindings that the first `n` key capabilities give on a terminal with
/// the string capabilities `capabilities`: one for each capability that the
/// terminal has and that reads as a CSI command.
pub open spec fn terminfo_bindings(capabilities: Map<Seq<char>, Seq<u8>>, n: int) -> Seq<
    (CsiView, u32),
>
    decreases n,
{
    if n <= 0 {
        Seq::empty()
    } else {
        let front = terminfo_bindings(capabilities, n - 1);
        let (name, code) = key_capability(n - 1);
        if capabilities.contains_key(name) {
            match capability_csi(capabilities[name]) {
                Some(csi) => front.push((csi, code)),
                None => front,
            }
        } else {
            front
        }
    }
}

/// The digits of `n` in base ten, without leading zeros.
pub open spec fn decimal_digits(n: u8) -> Seq<u8> {
    if n < 10 {
        seq![(0x30 + n) as u8]
    } else if n < 100 {
        seq![(0x30 + n / 10) as u8, (0x30 + n % 10) as u8]
    } else {
        seq![(0x30 + n / 100) as u8, (0x30 + (n / 10) % 10) as u8, (0x30 + n % 10) as u8]
    }
}

/// The command `ESC [` with nothing but the final byte `letter`.
pub open spec fn letter_csi(letter: u8) -> CsiView {
    CsiView {
        parameter_bytes: Seq::empty(),
        intermediate_bytes: Seq::empty(),
        final_byte: letter,
    }
}

/// The command `ESC [ n ~`.
pub open spec fn numbered_csi(n: u8) -> CsiView {
    CsiView {
        parameter_bytes: decimal_digits(n),
        intermediate_bytes: Seq::empty(),
        final_byte: 0x7E,
    }
}

/// The command `ESC [` with nothing but the final byte `letter`.
pub fn letter_command(letter: u8) -> (command: CSICommand)
    ensures
        command@ == letter_csi(letter),
{
    CSICommand { parameter_bytes: Vec::new(), intermediate_bytes: Vec::new(), final_byte: letter }
}

/// The command `ESC [ n ~`.
pub fn numbered_command(n: u8) -> (command: CSICommand)
    ensures
        command@ == numbered_csi(n),
{
    let mut parameter_bytes: Vec<u8> = Vec::new();
    if n >= 100 {
        parameter_bytes.push(0x30 + n / 100);
    }
    if n >= 10 {
        parameter_bytes.push(0x30 + (n / 10) % 10);
    }
    parameter_bytes.push(0x30 + n % 10);
    assert(parameter_bytes@ =~= decimal_digits(n));
    CSICommand { parameter_bytes, intermediate_bytes: Vec::new(), final_byte: 0x7E }
}

/// The default table: what terminals in the xterm family send for the
/// editing keys, the arrows, `Home` and `End`, `F1` to `F12` and `Menu`.
pub open spec fn default_binding(i: int) -> (CsiView, u32) {
    if i == 0 {
        (numbered_csi(2), constants::INSERT)
    } else if i == 1 {
        (numbered_csi(3), constants::DELETE)
    } else if i == 2 {
        (numbered_csi(5), constants::PAGE_UP)
    } else if i == 3 {
        (numbered_csi(6), constants::PAGE_DOWN)
    } else if i == 4 {
        (letter_csi(0x41), constants::UP)
    } else if i == 5 {
        (letter_csi(0x42), constants::DOWN)
    } else if i == 6 {
        (letter_csi(0x43), constants::RIGHT)
    } else if i == 7 {
        (letter_csi(0x44), constants::LEFT)
    } else if i == 8 {
        (letter_csi(0x48), constants::HOME)
    } else if i == 9 {
        (letter_csi(0x46), constants::END)
    } else if i == 10 {
        (letter_csi(0x50), constants::F1)
    } else if i == 11 {
        (letter_csi(0x51), constants::F2)
    } else if i == 12 {
        (letter_csi(0x52), constants::F3)
    } else if i == 13 {
        (letter_csi(0x53), constants::F4)
    } else if i == 14 {
        (numbered_csi(11), constants::F1)
    } else if i == 15 {
        (numbered_csi(12), constants::F2)
    } else if i == 16 {
        (numbered_csi(13), constants::F3)
    } else if i == 17 {
        (numbered_csi(14), constants::F4)
    } else if i == 18 {
        (numbered_csi(15), constants::F5)
    } else if i == 19 {
        (numbered_csi(17), constants::F6)
    } else if i == 20 {
        (numbered_csi(18), constants::F7)
    } else if i == 21 {
        (numbered_csi(19), constants::F8)
    } else if i == 22 {
        (numbered_csi(20), constants::F9)
    } else if i == 23 {
        (numbered_csi(21), constants::F10)
    } else if i == 24 {
        (numbered_csi(23), constants::F11)
    } else if i == 25 {
        (numbered_csi(24), constants::F12)
    } else {
        (numbered_csi(29), constants::MENU)
    }
}

/// The `i`-th binding of the default table.
pub fn default_binding_at(i: usize) -> (r: (CSICommand, u32))
    requires
        i < DEFAULT_BINDINGS,
    ensures
        (r.0@, r.1) == default_binding(i as int),
{
    if i == 0 {
        (numbered_command(2), constants::INSERT)
    } else if i == 1 {
        (numbered_command(3), constants::DELETE)
    } else if i == 2 {
        (numbered_command(5), constants::PAGE_UP)
    } else if i == 3 {
        (numbered_command(6), constants::PAGE_DOWN)
    } else if i == 4 {
        (letter_command(0x41), constants::UP)
    } else if i == 5 {
        (letter_command(0x42), constants::DOWN)
    } else if i == 6 {
        (letter_command(0x43), constants::RIGHT)
    } else if i == 7 {
        (letter_command(0x44), constants::LEFT)
    } else if i == 8 {
        (letter_command(0x48), constants::HOME)
    } else if i == 9 {
        (letter_command(0x46), constants::END)
    } else if i == 10 {
        (letter_command(0x50), constants::F1)
    } else if i == 11 {
        (letter_command(0x51), constants::F2)
    } else if i == 12 {
        (letter_command(0x52), constants::F3)
    } else if i == 13 {
        (letter_command(0x53), constants::F4)
    } else if i == 14 {
        (numbered_command(11), constants::F1)
    } else if i == 15 {
        (numbered_command(12), constants::F2)
    } else if i == 16 {
        (numbered_command(13), constants::F3)
    } else if i == 17 {
        (numbered_command(14), constants::F4)
    } else if i == 18 {
        (numbered_command(15), constants::F5)
    } else if i == 19 {
        (numbered_command(17), constants::F6)
    } else if i == 20 {
        (numbered_command(18), constants::F7)
    } else if i == 21 {
        (numbered_command(19), constants::F8)
    } else if i == 22 {
        (numbered_command(20), constants::F9)
    } else if i == 23 {
        (numbered_command(21), constants::F10)
    } else if i == 24 {
        (numbered_command(23), constants::F11)
    } else if i == 25 {
        (numbered_command(24), constants::F12)
    } else {
        (numbered_command(29), constants::MENU)
    }
}

/// The default table as a sequence.
pub open spec fn default_bindings() -> Seq<(CsiView, u32)> {
    Seq::new(DEFAULT_BINDINGS as nat, |i: int| default_binding(i))
}

} // verus!
