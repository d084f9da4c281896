//! Input events as they are captured, routed and injected.
use vstd::prelude::*;

verus! {

/// Held modifier keys, one bit per modifier.
#[derive(Debug, Clone, Copy, PartialEq, Eq, Hash, Structural)]
pub struct ModifierState {
    pub bits: u16,
}

impl ModifierState {
    /// Shift.
    pub fn shift() -> (m: Self)
        ensures
            m.bits == 1,
    {
        ModifierState { bits: 1 }
    }

    /// Control.
    pub fn ctrl() -> (m: Self)
        ensures
            m.bits == 2,
    {
        ModifierState { bits: 2 }
    }

    /// Alt.
    pub fn alt() -> (m: Self)
        ensures
            m.bits == 4,
    {
        ModifierState { bits: 4 }
    }

    /// Super (Windows / Command).
    pub fn super_key() -> (m: Self)
        ensures
            m.bits == 8,
    {
        ModifierState { bits: 8 }
    }

    /// Caps Lock.
    pub fn caps_lock() -> (m: Self)
        ensures
            m.bits == 16,
    {
        ModifierState { bits: 16 }
    }

    /// Num Lock.
    pub fn num_lock() -> (m: Self)
        ensures
            m.bits == 32,
    {
        ModifierState { bits: 32 }
    }

    /// AltGr.
    pub fn alt_gr() -> (m: Self)
        ensures
            m.bits == 64,
    {
        ModifierState { bits: 64 }
    }


    /// The bits of all defined modifiers.
    pub open spec fn all_bits() -> u16 {
        0b0111_1111
    }

    /// No modifier held.
    pub fn empty() -> (m: Self)
        ensures
            m.bits == 0,
    {
        ModifierState { bits: 0 }
    }

    /// The raw bits.
    pub fn bits(&self) -> (b: u16)
        ensures
            b == self.bits,
    {
        self.bits
    }

    /// The state holding exactly the defined modifiers among `bits`.
    pub fn from_bits_truncate(bits: u16) -> (m: Self)
        ensures
            m.bits == bits & Self::all_bits(),
    {
        ModifierState { bits: bits & 0b0111_1111 }
    }

    /// True when no modifier is held.
    pub fn is_empty(&self) -> (b: bool)
        ensures
            b == (self.bits == 0),
    {
        self.bits == 0
    }

    /// Whether every modifier of `other` is held in `self`.
    pub open spec fn spec_contains(&self, other: Self) -> bool {
        self.bits & other.bits == other.bits
    }

    /// Whether every modifier of `other` is held in `self`.
    pub fn contains(&self, other: Self) -> (b: bool)
        ensures
            b == self.spec_contains(other),
    {
        self.bits & other.bits == other.bits
    }

    /// Mark the modifiers of `other` as held.
    pub fn insert(&mut self, other: Self)
        ensures
            final(self).bits == old(self).bits | other.bits,
    {
        self.bits = self.bits | other.bits;
    }

    /// Mark the modifiers of `other` as released.
    pub fn remove(&mut self, other: Self)
        ensures
            final(self).bits == old(self).bits & !other.bits,
    {
        self.bits = self.bits & !other.bits;
    }

    /// The modifiers held in either state.
    pub fn union(self, other: Self) -> (m: Self)
        ensures
            m.bits == self.bits | other.bits,
    {
        ModifierState { bits: self.bits | other.bits }
    }
}

impl Default for ModifierState {
    fn default() -> (m: Self)
        ensures
            m.bits == 0,
    {
        ModifierState { bits: 0 }
    }
}

/// Law: after inserting a set of modifiers, all of them are held; after
/// removing them, none of them is held unless it was empty.
pub proof fn lemma_insert_remove(m: ModifierState, f: ModifierState)
    ensures
        (ModifierState { bits: m.bits | f.bits }).spec_contains(f),
        (ModifierState { bits: (m.bits & !f.bits) & f.bits }).bits == 0,
{
    let a = m.bits;
    let b = f.bits;
    assert((a | b) & b == b) by (bit_vector);
    assert((a & !b) & b == 0) by (bit_vector);
}

/// A mouse button.
#[derive(Debug, Clone, Copy, PartialEq, Eq, Structural)]
pub enum Button {
    Left,
    Right,
    Middle,
    Back,
    Forward,
    Other(u8),
}

/// Whether a key or button went down or up.
#[derive(Debug, Clone, Copy, PartialEq, Eq, Structural)]
pub enum KeyState {
    Pressed,
    Released,
}

/// Scroll wheel movement.
#[derive(Debug, Clone, Copy, PartialEq, Eq, Structural)]
pub struct ScrollDelta {
    pub horizontal: i16,
    pub vertical: i16,
}

/// Platform-neutral key identifier, following the USB HID keyboard usage
/// page.
#[derive(Debug, Clone, Copy, PartialEq, Eq, Hash, Structural)]
pub enum KeyCode {
    Unknown,
    A,
    B,
    C,
    D,
    E,
    F,
    G,
    H,
    I,
    J,
    K,
    L,
    M,
    N,
    O,
    P,
    Q,
    R,
    S,
    T,
    U,
    V,
    W,
    X,
    Y,
    Z,
    Num1,
    Num2,
    Num3,
    Num4,
    Num5,
    Num6,
    Num7,
    Num8,
    Num9,
    Num0,
    Enter,
    Escape,
    Backspace,
    Tab,
    Space,
    Minus,
    Equals,
    LeftBracket,
    RightBracket,
    Backslash,
    Semicolon,
    Apostrophe,
    Grave,
    Comma,
    Period,
    Slash,
    CapsLock,
    F1,
    F2,
    F3,
    F4,
    F5,
    F6,
    F7,
    F8,
    F9,
    F10,
    F11,
    F12,
    PrintScreen,
    ScrollLock,
    Pause,
    Insert,
    Home,
    PageUp,
    Delete,
    End,
    PageDown,
    ArrowRight,
    ArrowLeft,
    ArrowDown,
    ArrowUp,
    LeftCtrl,
    LeftShift,
    LeftAlt,
    LeftSuper,
    RightCtrl,
    RightShift,
    RightAlt,
    RightSuper,
}

/// A key going down or up.
#[derive(Debug, Clone, Copy, PartialEq, Eq, Structural)]
pub struct KeyEvent {
    pub code: KeyCode,
    pub state: KeyState,
    pub modifiers: ModifierState,
    /// Best-effort UTF-32 character produced by the keystroke, if any.
    pub character: Option<u32>,
}

/// A mouse event.
#[derive(Debug, Clone, Copy, PartialEq, Eq, Structural)]
pub enum MouseEvent {
    /// Absolute position, in the logical coordinate space of the source screen.
    Move { x: i32, y: i32 },
    /// Relative motion delta.
    MoveRelative { dx: i32, dy: i32 },
    Button { button: Button, state: KeyState },
    Scroll(ScrollDelta),
}

/// An input event, as captured locally or received from a peer.
#[derive(Debug, Clone, Copy, PartialEq, Eq, Structural)]
pub enum InputEvent {
    Mouse(MouseEvent),
    Key(KeyEvent),
    /// The cursor entered the local screen from a peer.
    ScreenEnter { x: i32, y: i32, modifiers: ModifierState },
    /// The cursor left the local screen toward a peer.
    ScreenLeave { peer_screen: u32 },
    /// Periodic resync of held modifiers.
    ModifierSync(ModifierState),
}

} // verus!
