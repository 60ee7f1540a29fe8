//! From virtual key codes and the layout's decoding of them to [`Key`], and
//! between [`Modifiers`] and a table of per-key states.
use vstd::prelude::*;

use crate::keys::{
    has_flags, Key, Modifiers, ALT, CAPS_LOCK, CONTROL, META, NUM_LOCK, SCROLL_LOCK, SHIFT, SUPER,
};

verus! {

pub const VK_CANCEL: u32 = 0x03;
pub const VK_TAB: u32 = 0x09;
pub const VK_CLEAR: u32 = 0x0C;
pub const VK_RETURN: u32 = 0x0D;
pub const VK_SHIFT: u32 = 0x10;
pub const VK_CONTROL: u32 = 0x11;
pub const VK_MENU: u32 = 0x12;
pub const VK_PAUSE: u32 = 0x13;
pub const VK_CAPITAL: u32 = 0x14;
pub const VK_ESCAPE: u32 = 0x1B;
pub const VK_CONVERT: u32 = 0x1C;
pub const VK_ACCEPT: u32 = 0x1E;
pub const VK_END: u32 = 0x23;
pub const VK_HOME: u32 = 0x24;
pub const VK_SELECT: u32 = 0x29;
pub const VK_PRINT: u32 = 0x2A;
pub const VK_EXECUTE: u32 = 0x2B;
pub const VK_INSERT: u32 = 0x2D;
pub const VK_DELETE: u32 = 0x2E;
pub const VK_HELP: u32 = 0x2F;
pub const VK_LWIN: u32 = 0x5B;
pub const VK_RWIN: u32 = 0x5C;
pub const VK_F1: u32 = 0x70;
pub const VK_F2: u32 = 0x71;
pub const VK_F3: u32 = 0x72;
pub const VK_F4: u32 = 0x73;
pub const VK_F5: u32 = 0x74;
pub const VK_F6: u32 = 0x75;
pub const VK_F7: u32 = 0x76;
pub const VK_F8: u32 = 0x77;
pub const VK_F9: u32 = 0x78;
pub const VK_F10: u32 = 0x79;
pub const VK_F11: u32 = 0x7A;
pub const VK_F12: u32 = 0x7B;
pub const VK_F13: u32 = 0x7C;
pub const VK_F14: u32 = 0x7D;
pub const VK_F15: u32 = 0x7E;
pub const VK_F16: u32 = 0x7F;
pub const VK_F17: u32 = 0x80;
pub const VK_F18: u32 = 0x81;
pub const VK_F19: u32 = 0x82;
pub const VK_F20: u32 = 0x83;
pub const VK_F21: u32 = 0x84;
pub const VK_F22: u32 = 0x85;
pub const VK_F23: u32 = 0x86;
pub const VK_F24: u32 = 0x87;
pub const VK_NUMLOCK: u32 = 0x90;
pub const VK_SCROLL: u32 = 0x91;
pub const VK_LSHIFT: u32 = 0xA0;
pub const VK_RSHIFT: u32 = 0xA1;
pub const VK_LCONTROL: u32 = 0xA2;
pub const VK_RCONTROL: u32 = 0xA3;
pub const VK_LMENU: u32 = 0xA4;
pub const VK_RMENU: u32 = 0xA5;
pub const VK_BROWSER_BACK: u32 = 0xA6;
pub const VK_BROWSER_FORWARD: u32 = 0xA7;
pub const VK_BROWSER_REFRESH: u32 = 0xA8;
pub const VK_BROWSER_STOP: u32 = 0xA9;
pub const VK_BROWSER_SEARCH: u32 = 0xAA;
pub const VK_BROWSER_FAVORITES: u32 = 0xAB;
pub const VK_BROWSER_HOME: u32 = 0xAC;
pub const VK_MEDIA_STOP: u32 = 0xB2;
pub const VK_MEDIA_PLAY_PAUSE: u32 = 0xB3;
pub const VK_LAUNCH_MAIL: u32 = 0xB4;
pub const VK_ATTN: u32 = 0xF6;
pub const VK_PLAY: u32 = 0xFA;

/// The state of each of the 256 virtual keys, one byte per key.
pub type KeyboardState = [u8; 256];

/// Bit of a key-state byte: the key is down.
pub const PRESSED: u8 = 0x80;
/// Bit of a key-state byte: the key's toggle is on.
pub const TOGGLED: u8 = 0x01;

/// The named key of a virtual key code; `Unidentified` for a code without one.
pub open spec fn named_key_spec(vk: u32) -> Key {
    match vk {
            VK_CANCEL => Key::Cancel,
            VK_TAB => Key::Tab,
            VK_CLEAR => Key::Clear,
            VK_RETURN => Key::Enter,
            VK_SHIFT => Key::Shift,
            VK_CONTROL => Key::Control,
            VK_MENU => Key::Alt,
            VK_PAUSE => Key::Pause,
            VK_CAPITAL => Key::CapsLock,
            VK_ESCAPE => Key::Escape,
            VK_CONVERT => Key::Convert,
            VK_ACCEPT => Key::Accept,
            VK_END => Key::End,
            VK_HOME => Key::Home,
            VK_SELECT => Key::Select,
            VK_PRINT => Key::Print,
            VK_EXECUTE => Key::Execute,
            VK_INSERT => Key::Insert,
            VK_DELETE => Key::Delete,
            VK_HELP => Key::Help,
            VK_LWIN => Key::Super,
            VK_RWIN => Key::Super,
            VK_F1 => Key::F1,
            VK_F2 => Key::F2,
            VK_F3 => Key::F3,
            VK_F4 => Key::F4,
            VK_F5 => Key::F5,
            VK_F6 => Key::F6,
            VK_F7 => Key::F7,
            VK_F8 => Key::F8,
            VK_F9 => Key::F9,
            VK_F10 => Key::F10,
            VK_F11 => Key::F11,
            VK_F12 => Key::F12,
            VK_F13 => Key::F13,
            VK_F14 => Key::F14,
            VK_F15 => Key::F15,
            VK_F16 => Key::F16,
            VK_F17 => Key::F17,
            VK_F18 => Key::F18,
            VK_F19 => Key::F19,
            VK_F20 => Key::F20,
            VK_F21 => Key::F21,
            VK_F22 => Key::F22,
            VK_F23 => Key::F23,
            VK_F24 => Key::F24,
            VK_NUMLOCK => Key::NumLock,
            VK_SCROLL => Key::ScrollLock,
            VK_LSHIFT => Key::Shift,
            VK_RSHIFT => Key::Shift,
            VK_LCONTROL => Key::Control,
            VK_RCONTROL => Key::Control,
            VK_LMENU => Key::Alt,
            VK_RMENU => Key::AltGraph,
            VK_BROWSER_BACK => Key::BrowserBack,
            VK_BROWSER_FORWARD => Key::BrowserForward,
            VK_BROWSER_REFRESH => Key::BrowserRefresh,
            VK_BROWSER_STOP => Key::BrowserStop,
            VK_BROWSER_SEARCH => Key::BrowserSearch,
            VK_BROWSER_FAVORITES => Key::BrowserFavorites,
            VK_BROWSER_HOME => Key::BrowserHome,
            VK_MEDIA_STOP => Key::MediaStop,
            VK_MEDIA_PLAY_PAUSE => Key::MediaPlayPause,
            VK_LAUNCH_MAIL => Key::LaunchMail,
            VK_ATTN => Key::Attn,
            VK_PLAY => Key::Play,
        _ => Key::Unidentified,
    }
}

/// Whether a UTF-16 code unit is a control character (C0 or C1 range, or DEL).
pub open spec fn is_control_unit(u: u16) -> bool {
    u <= 0x1F || (0x7F <= u && u <= 0x9F)
}

/// Whether `x` is a Unicode scalar value, that is, the value of some `char`.
pub open spec fn is_scalar_value(x: u32) -> bool {
    x < 0xD800 || (0xDFFF < x && x <= 0x10FFFF)
}

/// The key of a raw key code whose decoding under the keyboard layout gave
/// `decoded` (`None`: the layout produced nothing).
pub open spec fn translate_spec(raw_key_code: usize, decoded: Option<u16>) -> Key {
    if raw_key_code > u32::MAX {
        Key::Unidentified
    } else {
        match decoded {
            None => named_key_spec(raw_key_code as u32),
            Some(u) => if is_control_unit(u) {
                named_key_spec(raw_key_code as u32)
            } else if is_scalar_value(u as u32) {
                Key::Character(u as char)
            } else {
                Key::Unidentified
            },
        }
    }
}

/// Relies on `char::from_u32`: `None` exactly off the Unicode scalar values,
/// and otherwise the character with the given value.
#[verifier::external_body]
fn char_from_u32(x: u32) -> (r: Option<char>)
    ensures
        r == (if is_scalar_value(x) { Some(x as char) } else { None::<char> }),
{
    char::from_u32(x)
}

/// The virtual key code carried by a raw key code, if it fits in 32 bits.
pub fn key_code(raw_key_code: usize) -> (r: Option<u32>)
    ensures
        r == (if raw_key_code <= u32::MAX { Some(raw_key_code as u32) } else { None::<u32> }),
{
    if raw_key_code <= u32::MAX as usize {
        Some(raw_key_code as u32)
    } else {
        None
    }
}

/// The named key of a virtual key code: modifier, navigation, lock, function,
/// media and browser keys; `Unidentified` for any other code.
pub fn named_key(vk: u32) -> (r: Key)
    ensures
        r == named_key_spec(vk),
{
    match vk {
        VK_CANCEL => Key::Cancel,
        VK_TAB => Key::Tab,
        VK_CLEAR => Key::Clear,
        VK_RETURN => Key::Enter,
        VK_SHIFT => Key::Shift,
        VK_CONTROL => Key::Control,
        VK_MENU => Key::Alt,
        VK_PAUSE => Key::Pause,
        VK_CAPITAL => Key::CapsLock,
        VK_ESCAPE => Key::Escape,
        VK_CONVERT => Key::Convert,
        VK_ACCEPT => Key::Accept,
        VK_END => Key::End,
        VK_HOME => Key::Home,
        VK_SELECT => Key::Select,
        VK_PRINT => Key::Print,
        VK_EXECUTE => Key::Execute,
        VK_INSERT => Key::Insert,
        VK_DELETE => Key::Delete,
        VK_HELP => Key::Help,
        VK_LWIN => Key::Super,
        VK_RWIN => Key::Super,
        VK_F1 => Key::F1,
        VK_F2 => Key::F2,
        VK_F3 => Key::F3,
        VK_F4 => Key::F4,
        VK_F5 => Key::F5,
        VK_F6 => Key::F6,
        VK_F7 => Key::F7,
        VK_F8 => Key::F8,
        VK_F9 => Key::F9,
        VK_F10 => Key::F10,
        VK_F11 => Key::F11,
        VK_F12 => Key::F12,
        VK_F13 => Key::F13,
        VK_F14 => Key::F14,
        VK_F15 => Key::F15,
        VK_F16 => Key::F16,
        VK_F17 => Key::F17,
        VK_F18 => Key::F18,
        VK_F19 => Key::F19,
        VK_F20 => Key::F20,
        VK_F21 => Key::F21,
        VK_F22 => Key::F22,
        VK_F23 => Key::F23,
        VK_F24 => Key::F24,
        VK_NUMLOCK => Key::NumLock,
        VK_SCROLL => Key::ScrollLock,
        VK_LSHIFT => Key::Shift,
        VK_RSHIFT => Key::Shift,
        VK_LCONTROL => Key::Control,
        VK_RCONTROL => Key::Control,
        VK_LMENU => Key::Alt,
        VK_RMENU => Key::AltGraph,
        VK_BROWSER_BACK => Key::BrowserBack,
        VK_BROWSER_FORWARD => Key::BrowserForward,
        VK_BROWSER_REFRESH => Key::BrowserRefresh,
        VK_BROWSER_STOP => Key::BrowserStop,
        VK_BROWSER_SEARCH => Key::BrowserSearch,
        VK_BROWSER_FAVORITES => Key::BrowserFavorites,
        VK_BROWSER_HOME => Key::BrowserHome,
        VK_MEDIA_STOP => Key::MediaStop,
        VK_MEDIA_PLAY_PAUSE => Key::MediaPlayPause,
        VK_LAUNCH_MAIL => Key::LaunchMail,
        VK_ATTN => Key::Attn,
        VK_PLAY => Key::Play,
        _ => Key::Unidentified,
    }
}

/// Translates a raw key code, given what the keyboard layout decoded it to
/// with no modifier held. Never fails: what cannot be named is `Unidentified`.
pub fn translate_key(raw_key_code: usize, decoded: Option<u16>) -> (r: Key)
    ensures
        r == translate_spec(raw_key_code, decoded),
{
    let key_code = match key_code(raw_key_code) {
        Some(k) => k,
        None => return Key::Unidentified,
    };
    match decoded {
        None => named_key(key_code),
        Some(unit) => {
            if unit <= 0x1F || (0x7F <= unit && unit <= 0x9F) {
                named_key(key_code)
            } else {
                match char_from_u32(unit as u32) {
                    Some(c) => Key::Character(c),
                    None => Key::Unidentified,
                }
            }
        },
    }
}

/// `flags` when `cond` holds, no flag otherwise.
pub open spec fn flags_if(cond: bool, flags: u32) -> u32 {
    if cond {
        flags
    } else {
        0
    }
}

/// Whether the state table marks key `vk` as down.
pub open spec fn is_pressed(state: Seq<u8>, vk: u32) -> bool {
    state[vk as int] & PRESSED != 0
}

/// Whether the state table marks the toggle of key `vk` as on.
pub open spec fn is_toggled(state: Seq<u8>, vk: u32) -> bool {
    state[vk as int] & TOGGLED == 1
}

/// The modifiers that a state table describes: a flag is set when either
/// variant (generic, left, right) of its key is down, or, for a lock, when its
/// toggle is on. Super and Meta stand for the same keys and come together.
pub open spec fn modifiers_of_state(state: Seq<u8>) -> Modifiers {
    Modifiers {
        bits: flags_if(
            is_pressed(state, VK_MENU) || is_pressed(state, VK_LMENU) || is_pressed(state, VK_RMENU),
            ALT,
        ) | flags_if(
            is_pressed(state, VK_CONTROL) || is_pressed(state, VK_LCONTROL) || is_pressed(
                state,
                VK_RCONTROL,
            ),
            CONTROL,
        ) | flags_if(
            is_pressed(state, VK_SHIFT) || is_pressed(state, VK_LSHIFT) || is_pressed(
                state,
                VK_RSHIFT,
            ),
            SHIFT,
        ) | flags_if(is_pressed(state, VK_LWIN) || is_pressed(state, VK_RWIN), SUPER | META)
            | flags_if(is_toggled(state, VK_CAPITAL), CAPS_LOCK) | flags_if(
            is_toggled(state, VK_SCROLL),
            SCROLL_LOCK,
        ) | flags_if(is_toggled(state, VK_NUMLOCK), NUM_LOCK),
    }
}

/// The byte for key `vk` in the state table that forces the modifiers `m`:
/// the generic key of each held modifier is down (both Windows keys for Super
/// or Meta), and each lock in `m` is toggled on.
pub open spec fn keyboard_state_entry(m: Modifiers, vk: int) -> u8 {
    if (vk == VK_MENU && has_flags(m, ALT)) || (vk == VK_CONTROL && has_flags(m, CONTROL)) || (vk
        == VK_SHIFT && has_flags(m, SHIFT)) || ((vk == VK_LWIN || vk == VK_RWIN) && (has_flags(
        m,
        META,
    ) || has_flags(m, SUPER))) {
        PRESSED
    } else if (vk == VK_CAPITAL && has_flags(m, CAPS_LOCK)) || (vk == VK_SCROLL && has_flags(
        m,
        SCROLL_LOCK,
    )) || (vk == VK_NUMLOCK && has_flags(m, NUM_LOCK)) {
        TOGGLED
    } else {
        0
    }
}

/// Reconstructs the modifiers from a snapshot of the key states.
pub fn get_modifiers(state: &KeyboardState) -> (r: Modifiers)
    ensures
        r == modifiers_of_state(state@),
{
    let pressed = |vk: u32| -> (b: bool)
        requires
            vk < 256,
        ensures
            b == is_pressed(state@, vk),
        { state[vk as usize] & PRESSED != 0 };
    let toggled = |vk: u32| -> (b: bool)
        requires
            vk < 256,
        ensures
            b == is_toggled(state@, vk),
        { state[vk as usize] & TOGGLED == 1 };
    let alt = pressed(VK_MENU) || pressed(VK_LMENU) || pressed(VK_RMENU);
    let control = pressed(VK_CONTROL) || pressed(VK_LCONTROL) || pressed(VK_RCONTROL);
    let shift = pressed(VK_SHIFT) || pressed(VK_LSHIFT) || pressed(VK_RSHIFT);
    let windows = pressed(VK_LWIN) || pressed(VK_RWIN);
    let bits = (if alt { ALT } else { 0 }) | (if control { CONTROL } else { 0 }) | (if shift {
        SHIFT
    } else {
        0
    }) | (if windows { SUPER | META } else { 0 }) | (if toggled(VK_CAPITAL) {
        CAPS_LOCK
    } else {
        0
    }) | (if toggled(VK_SCROLL) { SCROLL_LOCK } else { 0 }) | (if toggled(VK_NUMLOCK) {
        NUM_LOCK
    } else {
        0
    });
    Modifiers::from_bits(bits)
}

impl Modifiers {
    /// The state table in which exactly the keys of these modifiers are down
    /// or toggled on; used to decode a key under an explicit modifier set.
    pub fn to_keyboard_state(&self) -> (r: KeyboardState)
        ensures
            forall|vk: int| 0 <= vk < 256 ==> #[trigger] r@[vk] == keyboard_state_entry(*self, vk),
    {
        let mut state: KeyboardState = [0u8; 256];
        if self.contains(ALT) {
            state[VK_MENU as usize] = PRESSED;
        }
        if self.contains(CONTROL) {
            state[VK_CONTROL as usize] = PRESSED;
        }
        if self.contains(SHIFT) {
            state[VK_SHIFT as usize] = PRESSED;
        }
        if self.contains(META) || self.contains(SUPER) {
            state[VK_LWIN as usize] = PRESSED;
            state[VK_RWIN as usize] = PRESSED;
        }
        if self.contains(CAPS_LOCK) {
            state[VK_CAPITAL as usize] = TOGGLED;
        }
        if self.contains(SCROLL_LOCK) {
            state[VK_SCROLL as usize] = TOGGLED;
        }
        if self.contains(NUM_LOCK) {
            state[VK_NUMLOCK as usize] = TOGGLED;
        }
        state
    }
}

/// Every key of the named table comes back from translating its code when
/// the layout decodes the code to nothing or to a control character; a
/// printable ASCII unit that the layout decodes comes back as that character.
pub proof fn lemma_translate_round_trip(vk: u32, decoded: Option<u16>)
    ensures
        named_key_spec(vk) != Key::Unidentified && (decoded matches Some(u) ==> is_control_unit(u))
            ==> translate_spec(vk as usize, decoded) == named_key_spec(vk),
        forall|u: u16|
            0x20 <= u <= 0x7E ==> #[trigger] translate_spec(vk as usize, Some(u))
                == Key::Character(u as char),
{
}

/// The part of `m` that a state table can express: Alt, Control, Shift and
/// the three locks as they are, and Super and Meta together when either is.
pub open spec fn expressible(m: Modifiers) -> Modifiers {
    Modifiers {
        bits: (m.bits & (ALT | CONTROL | SHIFT | CAPS_LOCK | SCROLL_LOCK | NUM_LOCK)) | flags_if(
            has_flags(m, META) || has_flags(m, SUPER),
            SUPER | META,
        ),
    }
}

/// Reading back the state table made from a set of modifiers gives that set,
/// short of what a state table cannot express.
pub proof fn lemma_keyboard_state_round_trip(m: Modifiers, state: Seq<u8>)
    requires
        state.len() == 256,
        forall|vk: int| 0 <= vk < 256 ==> #[trigger] state[vk] == keyboard_state_entry(m, vk),
    ensures
        modifiers_of_state(state) == expressible(m),
{
    assert((PRESSED & PRESSED) != 0 && (PRESSED & TOGGLED) != 1) by (bit_vector);
    assert((TOGGLED & PRESSED) == 0 && (TOGGLED & TOGGLED) == 1) by (bit_vector);
    assert((0u8 & PRESSED) == 0 && (0u8 & TOGGLED) != 1) by (bit_vector);
    assert(ALT | CONTROL | SHIFT | CAPS_LOCK | SCROLL_LOCK | NUM_LOCK == 0x38d) by (bit_vector);
    assert(SUPER | META == 0x2040) by (bit_vector);
    let b = m.bits;
    let windows = has_flags(m, META) || has_flags(m, SUPER);
    assert(modifiers_of_state(state).bits == flags_if(has_flags(m, ALT), ALT) | flags_if(
        has_flags(m, CONTROL),
        CONTROL,
    ) | flags_if(has_flags(m, SHIFT), SHIFT) | flags_if(windows, SUPER | META) | flags_if(
        has_flags(m, CAPS_LOCK),
        CAPS_LOCK,
    ) | flags_if(has_flags(m, SCROLL_LOCK), SCROLL_LOCK) | flags_if(
        has_flags(m, NUM_LOCK),
        NUM_LOCK,
    ));
    assert((if b & 0x01 == 0x01 { 0x01u32 } else { 0 }) | (if b & 0x08 == 0x08 {
        0x08u32
    } else {
        0
    }) | (if b & 0x200 == 0x200 { 0x200u32 } else { 0 }) | (if windows { 0x2040u32 } else { 0 })
        | (if b & 0x04 == 0x04 { 0x04u32 } else { 0 }) | (if b & 0x100 == 0x100 {
        0x100u32
    } else {
        0
    }) | (if b & 0x80 == 0x80 { 0x80u32 } else { 0 }) == (b & 0x38d) | (if windows {
        0x2040u32
    } else {
        0
    })) by (bit_vector);
}

} // verus!
