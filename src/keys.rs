//! The value types that make up the event stream.
use vstd::prelude::*;

verus! {

/// Bit of [`Modifiers`] for an Alt key.
pub const ALT: u32 = 0x01;
/// Bit of [`Modifiers`] for the AltGr key.
pub const ALT_GRAPH: u32 = 0x2;
/// Bit of [`Modifiers`] for the Caps Lock toggle.
pub const CAPS_LOCK: u32 = 0x4;
/// Bit of [`Modifiers`] for a Control key.
pub const CONTROL: u32 = 0x8;
/// Bit of [`Modifiers`] for the Fn key.
pub const FN: u32 = 0x10;
/// Bit of [`Modifiers`] for the Fn Lock toggle.
pub const FN_LOCK: u32 = 0x20;
/// Bit of [`Modifiers`] for a Meta key; always set together with [`SUPER`].
pub const META: u32 = 0x40;
/// Bit of [`Modifiers`] for the Num Lock toggle.
pub const NUM_LOCK: u32 = 0x80;
/// Bit of [`Modifiers`] for the Scroll Lock toggle.
pub const SCROLL_LOCK: u32 = 0x100;
/// Bit of [`Modifiers`] for a Shift key.
pub const SHIFT: u32 = 0x200;
/// Bit of [`Modifiers`] for the Symbol key.
pub const SYMBOL: u32 = 0x400;
/// Bit of [`Modifiers`] for the Symbol Lock toggle.
pub const SYMBOL_LOCK: u32 = 0x800;
/// Bit of [`Modifiers`] for the Hyper key.
pub const HYPER: u32 = 0x1000;
/// Bit of [`Modifiers`] for a Super (Windows) key; always set together with [`META`].
pub const SUPER: u32 = 0x2000;

/// A set of modifier flags, one bit per flag, laid out as in `keyboard-types`.
#[derive(Clone, Copy, Debug, PartialEq, Eq, Structural, Hash, Default)]
pub struct Modifiers {
    pub bits: u32,
}

/// Whether every bit of `flags` is set in `m`.
pub open spec fn has_flags(m: Modifiers, flags: u32) -> bool {
    m.bits & flags == flags
}

impl Modifiers {
    /// The empty set.
    pub fn empty() -> (r: Modifiers)
        ensures
            r.bits == 0,
    {
        Modifiers { bits: 0 }
    }

    /// The set whose bits are `bits`.
    pub fn from_bits(bits: u32) -> (r: Modifiers)
        ensures
            r.bits == bits,
    {
        Modifiers { bits }
    }

    /// The bits of this set.
    pub fn bits(&self) -> (r: u32)
        ensures
            r == self.bits,
    {
        self.bits
    }

    /// Whether every flag of `flags` is in this set.
    pub fn contains(&self, flags: u32) -> (r: bool)
        ensures
            r == has_flags(*self, flags),
    {
        self.bits & flags == flags
    }

    /// Adds the flags of `flags` to this set.
    pub fn insert(&mut self, flags: u32)
        ensures
            final(self).bits == old(self).bits | flags,
    {
        self.bits = self.bits | flags;
    }

    /// Whether the set is empty.
    pub fn is_empty(&self) -> (r: bool)
        ensures
            r == (self.bits == 0),
    {
        self.bits == 0
    }
}

/// A key, as far as a virtual key code and the keyboard layout tell it.
#[derive(Clone, Copy, Debug, PartialEq, Eq, Structural, Hash)]
pub enum Key {
    /// A key that produces a character under the current layout.
    Character(char),
    /// A key this library has no name for.
    Unidentified,
    Alt,
    AltGraph,
    Enter,
    Control,
    Shift,
    Super,
    CapsLock,
    ScrollLock,
    NumLock,
    Tab,
    End,
    Home,
    Clear,
    Delete,
    Insert,
    Accept,
    Attn,
    Cancel,
    Escape,
    Execute,
    Help,
    Pause,
    Play,
    Select,
    Convert,
    MediaPlayPause,
    MediaStop,
    Print,
    LaunchMail,
    BrowserBack,
    BrowserFavorites,
    BrowserForward,
    BrowserHome,
    BrowserRefresh,
    BrowserSearch,
    BrowserStop,
    F1,
    F2,
    F3,
    F4,
    F5,
    F6,
    F7,
    F8,
    F9,
    F10,
    F11,
    F12,
    F13,
    F14,
    F15,
    F16,
    F17,
    F18,
    F19,
    F20,
    F21,
    F22,
    F23,
    F24,
}

/// The platform's own description of a key transition.
#[derive(Clone, Copy, Debug, PartialEq, Eq, Structural, Hash)]
pub struct RawKeyEventData {
    pub virtual_key_code: u32,
    pub virtual_scan_code: u32,
}

/// One key transition: which key, under which modifiers.
#[derive(Clone, Copy, Debug, PartialEq, Eq, Structural, Hash)]
pub struct KeyEvent {
    pub key: Key,
    pub modifiers: Modifiers,
    pub raw: RawKeyEventData,
}

/// The unit carried to a listener.
#[derive(Clone, Copy, Debug, PartialEq, Eq, Structural, Hash)]
pub enum Event {
    /// A key went down; `repeat_count` is 0 for the first press and grows by
    /// one with each further press of the same key before its release.
    Press { key: KeyEvent, repeat_count: usize },
    /// A key went up.
    Release(KeyEvent),
}

} // verus!
