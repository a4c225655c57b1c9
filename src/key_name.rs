use vstd::prelude::*;

verus! {

/// The display name of a virtual key code; digits and letters share one
/// name per group, and codes without a name of their own are "その他".
pub open spec fn key_name_of(vk_code: u32) -> Seq<char> {
    if vk_code == 0x08 {
        "Backspace"@
    } else if vk_code == 0x09 {
        "Tab"@
    } else if vk_code == 0x0D {
        "Enter"@
    } else if vk_code == 0x10 {
        "Shift"@
    } else if vk_code == 0x11 {
        "Ctrl"@
    } else if vk_code == 0x12 {
        "Alt"@
    } else if vk_code == 0x13 {
        "Pause"@
    } else if vk_code == 0x14 {
        "CapsLock"@
    } else if vk_code == 0x16 {
        "IME_ON"@
    } else if vk_code == 0x1A {
        "IME_OFF"@
    } else if vk_code == 0x1B {
        "Esc"@
    } else if vk_code == 0x20 {
        "Space"@
    } else if vk_code == 0x25 {
        "←"@
    } else if vk_code == 0x26 {
        "↑"@
    } else if vk_code == 0x27 {
        "→"@
    } else if vk_code == 0x28 {
        "↓"@
    } else if vk_code == 0x2E {
        "Delete"@
    } else if 0x30 <= vk_code <= 0x39 {
        "0-9"@
    } else if 0x41 <= vk_code <= 0x5A {
        "A-Z"@
    } else if vk_code == 0xA0 {
        "左Shift"@
    } else if vk_code == 0xA1 {
        "右Shift"@
    } else if vk_code == 0xA2 {
        "左Ctrl"@
    } else if vk_code == 0xA3 {
        "右Ctrl"@
    } else if vk_code == 0xA4 {
        "左Alt"@
    } else if vk_code == 0xA5 {
        "右Alt"@
    } else {
        "その他"@
    }
}

/// The name under which a key code is logged.
pub fn get_key_name(vk_code: u32) -> (r: &'static str)
    ensures
        r@ == key_name_of(vk_code),
{
    match vk_code {
        0x08 => "Backspace",
        0x09 => "Tab",
        0x0D => "Enter",
        0x10 => "Shift",
        0x11 => "Ctrl",
        0x12 => "Alt",
        0x13 => "Pause",
        0x14 => "CapsLock",
        0x16 => "IME_ON",
        0x1A => "IME_OFF",
        0x1B => "Esc",
        0x20 => "Space",
        0x25 => "←",
        0x26 => "↑",
        0x27 => "→",
        0x28 => "↓",
        0x2E => "Delete",
        0x30..=0x39 => "0-9",
        0x41..=0x5A => "A-Z",
        0xA0 => "左Shift",
        0xA1 => "右Shift",
        0xA2 => "左Ctrl",
        0xA3 => "右Ctrl",
        0xA4 => "左Alt",
        0xA5 => "右Alt",
        _ => "その他",
    }
}

} // verus!
