//! The Windows backend's translations: low-level hook messages into raw
//! events, raw events into input events, and input events into the records
//! that `SendInput` takes. The numeric codes are those of the Windows SDK.
//! The hooks, the message loop and the `SendInput` call are the caller's.
use crate::error::Error;
use crate::event::{Button, InputEvent, KeyCode, KeyEvent, KeyState, ModifierState, MouseEvent, ScrollDelta};
use crate::text::{decimal, u64_to_string};
use vstd::prelude::*;

verus! {

/// `MOUSEEVENTF_MOVE`.
pub const MOUSEEVENTF_MOVE: u32 = 0x0001;
/// `MOUSEEVENTF_LEFTDOWN`.
pub const MOUSEEVENTF_LEFTDOWN: u32 = 0x0002;
/// `MOUSEEVENTF_LEFTUP`.
pub const MOUSEEVENTF_LEFTUP: u32 = 0x0004;
/// `MOUSEEVENTF_RIGHTDOWN`.
pub const MOUSEEVENTF_RIGHTDOWN: u32 = 0x0008;
/// `MOUSEEVENTF_RIGHTUP`.
pub const MOUSEEVENTF_RIGHTUP: u32 = 0x0010;
/// `MOUSEEVENTF_MIDDLEDOWN`.
pub const MOUSEEVENTF_MIDDLEDOWN: u32 = 0x0020;
/// `MOUSEEVENTF_MIDDLEUP`.
pub const MOUSEEVENTF_MIDDLEUP: u32 = 0x0040;
/// `MOUSEEVENTF_XDOWN`.
pub const MOUSEEVENTF_XDOWN: u32 = 0x0080;
/// `MOUSEEVENTF_XUP`.
pub const MOUSEEVENTF_XUP: u32 = 0x0100;
/// `XBUTTON1`, the first X button (back), in a record's mouse data.
pub const XBUTTON1: u32 = 0x0001;
/// `XBUTTON2`, the second X button (forward), in a record's mouse data.
pub const XBUTTON2: u32 = 0x0002;
/// `MOUSEEVENTF_WHEEL`.
pub const MOUSEEVENTF_WHEEL: u32 = 0x0800;
/// `MOUSEEVENTF_HWHEEL`.
pub const MOUSEEVENTF_HWHEEL: u32 = 0x1000;
/// `MOUSEEVENTF_VIRTUALDESK`.
pub const MOUSEEVENTF_VIRTUALDESK: u32 = 0x4000;
/// `MOUSEEVENTF_ABSOLUTE`.
pub const MOUSEEVENTF_ABSOLUTE: u32 = 0x8000;
/// `KEYEVENTF_KEYUP`.
pub const KEYEVENTF_KEYUP: u32 = 0x0002;

/// `VK_SHIFT`.
pub const VK_SHIFT: u16 = 0x10;
/// `VK_CONTROL`.
pub const VK_CONTROL: u16 = 0x11;
/// `VK_MENU` (Alt).
pub const VK_MENU: u16 = 0x12;
/// `VK_CAPITAL` (Caps Lock).
pub const VK_CAPITAL: u16 = 0x14;
/// `VK_LWIN`.
pub const VK_LWIN: u16 = 0x5B;
/// `VK_RWIN`.
pub const VK_RWIN: u16 = 0x5C;
/// `VK_NUMLOCK`.
pub const VK_NUMLOCK: u16 = 0x90;
/// `VK_LSHIFT`.
pub const VK_LSHIFT: u16 = 0xA0;
/// `VK_RSHIFT`.
pub const VK_RSHIFT: u16 = 0xA1;
/// `VK_LCONTROL`.
pub const VK_LCONTROL: u16 = 0xA2;
/// `VK_RCONTROL`.
pub const VK_RCONTROL: u16 = 0xA3;
/// `VK_LMENU`.
pub const VK_LMENU: u16 = 0xA4;
/// `VK_RMENU`.
pub const VK_RMENU: u16 = 0xA5;

/// `WM_KEYDOWN`.
pub const WM_KEYDOWN: u32 = 0x0100;
/// `WM_KEYUP`.
pub const WM_KEYUP: u32 = 0x0101;
/// `WM_SYSKEYDOWN`.
pub const WM_SYSKEYDOWN: u32 = 0x0104;
/// `WM_SYSKEYUP`.
pub const WM_SYSKEYUP: u32 = 0x0105;
/// `WM_MOUSEMOVE`.
pub const WM_MOUSEMOVE: u32 = 0x0200;
/// `WM_LBUTTONDOWN`.
pub const WM_LBUTTONDOWN: u32 = 0x0201;
/// `WM_LBUTTONUP`.
pub const WM_LBUTTONUP: u32 = 0x0202;
/// `WM_RBUTTONDOWN`.
pub const WM_RBUTTONDOWN: u32 = 0x0204;
/// `WM_RBUTTONUP`.
pub const WM_RBUTTONUP: u32 = 0x0205;
/// `WM_MBUTTONDOWN`.
pub const WM_MBUTTONDOWN: u32 = 0x0207;
/// `WM_MBUTTONUP`.
pub const WM_MBUTTONUP: u32 = 0x0208;
/// `WM_MOUSEWHEEL`.
pub const WM_MOUSEWHEEL: u32 = 0x020A;
/// `WM_MOUSEHWHEEL`.
pub const WM_MOUSEHWHEEL: u32 = 0x020E;

/// The normalized range of absolute mouse coordinates.
pub const ABSOLUTE_RANGE: i64 = 65535;

/// One mouse record for `SendInput`.
#[derive(Debug, Clone, Copy, PartialEq, Eq, Structural)]
pub struct MouseInput {
    pub dx: i32,
    pub dy: i32,
    pub mouse_data: u32,
    pub flags: u32,
}

/// One keyboard record for `SendInput`.
#[derive(Debug, Clone, Copy, PartialEq, Eq, Structural)]
pub struct KeyInput {
    pub vk: u16,
    pub scan: u16,
    pub flags: u32,
}

/// What injecting one event takes: mouse records to send, a key to look up
/// in the key table and send, or nothing.
#[derive(Debug, Clone)]
pub enum InjectPlan {
    Mouse(Vec<MouseInput>),
    Key(KeyEvent),
    Nothing,
}

/// Injection through `SendInput`.
#[derive(Debug, Clone, Copy)]
pub struct WindowsInject {
    _private: (),
}

/// `a / b` rounded toward zero, for `b > 0`.
pub open spec fn div_toward_zero(a: int, b: int) -> int {
    if a >= 0 { a / b } else { -((-a) / b) }
}

/// `v` scaled from a virtual desktop `extent` pixels wide into the
/// normalized absolute range (0 when the extent is not positive), then
/// truncated to 32 bits.
pub open spec fn normalized(v: i32, extent: i32) -> i32 {
    if extent > 0 {
        div_toward_zero(v * 65535, extent as int) as i32
    } else {
        0
    }
}

/// `v` scaled into the normalized absolute range of a desktop `extent`
/// pixels across.
pub fn normalize_coordinate(v: i32, extent: i32) -> (n: i32)
    ensures
        n == normalized(v, extent),
{
    if extent <= 0 {
        return 0;
    }
    let p: i64 = v as i64 * ABSOLUTE_RANGE;
    let e: i64 = extent as i64;
    let q: i64 = if p >= 0 {
        p / e
    } else {
        -((-p) / e)
    };
    proof {
        assert(q == div_toward_zero(v * 65535, extent as int));
    }
    q as i32
}

/// The mouse flags and extra data for a button going down or up, or `None`
/// for a button that `SendInput` cannot express.
pub open spec fn button_record(button: Button, state: KeyState) -> Option<(u32, u32)> {
    let down = state == KeyState::Pressed;
    match button {
        Button::Left => Some((if down { MOUSEEVENTF_LEFTDOWN } else { MOUSEEVENTF_LEFTUP }, 0u32)),
        Button::Right => Some((if down { MOUSEEVENTF_RIGHTDOWN } else { MOUSEEVENTF_RIGHTUP }, 0u32)),
        Button::Middle => Some((if down { MOUSEEVENTF_MIDDLEDOWN } else { MOUSEEVENTF_MIDDLEUP }, 0u32)),
        Button::Back => Some((if down { MOUSEEVENTF_XDOWN } else { MOUSEEVENTF_XUP }, 1u32)),
        Button::Forward => Some((if down { MOUSEEVENTF_XDOWN } else { MOUSEEVENTF_XUP }, 2u32)),
        Button::Other(_) => None,
    }
}

/// Law: different button changes give different records, so a peer's click
/// is never injected as another button or as the opposite transition.
pub proof fn lemma_button_records_distinct(b1: Button, s1: KeyState, b2: Button, s2: KeyState)
    requires
        button_record(b1, s1) is Some,
        button_record(b1, s1) == button_record(b2, s2),
    ensures
        b1 == b2,
        s1 == s2,
{
}

/// Law: the back and forward buttons are the first and second X buttons,
/// and a button going down uses a "down" flag, going up an "up" flag.
pub proof fn lemma_button_record_meaning(b: Button, s: KeyState)
    ensures
        b == Button::Back ==> (button_record(b, s) matches Some((f, d)) && d == XBUTTON1 && (f == MOUSEEVENTF_XDOWN
            || f == MOUSEEVENTF_XUP)),
        b == Button::Forward ==> (button_record(b, s) matches Some((f, d)) && d == XBUTTON2 && (f
            == MOUSEEVENTF_XDOWN || f == MOUSEEVENTF_XUP)),
        button_record(b, s) matches Some((f, d)) ==> (s == KeyState::Pressed <==> (f == MOUSEEVENTF_LEFTDOWN || f
            == MOUSEEVENTF_RIGHTDOWN || f == MOUSEEVENTF_MIDDLEDOWN || f == MOUSEEVENTF_XDOWN)),
        b == Button::Left ==> (button_record(b, s) matches Some((f, d)) && d == 0 && (f == MOUSEEVENTF_LEFTDOWN || f
            == MOUSEEVENTF_LEFTUP)),
        b == Button::Right ==> (button_record(b, s) matches Some((f, d)) && d == 0 && (f == MOUSEEVENTF_RIGHTDOWN
            || f == MOUSEEVENTF_RIGHTUP)),
        b == Button::Middle ==> (button_record(b, s) matches Some((f, d)) && d == 0 && (f == MOUSEEVENTF_MIDDLEDOWN
            || f == MOUSEEVENTF_MIDDLEUP)),
        b is Other <==> button_record(b, s) is None,
{
}

/// The wheel records for a scroll: the vertical one first, then the
/// horizontal one, each only when its delta is not zero. The delta goes in
/// as a sign-extended 32-bit value.
pub open spec fn scroll_records(horizontal: i16, vertical: i16) -> Seq<MouseInput> {
    (if vertical != 0 {
        seq![MouseInput { dx: 0, dy: 0, mouse_data: (vertical as i32) as u32, flags: MOUSEEVENTF_WHEEL }]
    } else {
        seq![]
    }) + (if horizontal != 0 {
        seq![MouseInput { dx: 0, dy: 0, mouse_data: (horizontal as i32) as u32, flags: MOUSEEVENTF_HWHEEL }]
    } else {
        seq![]
    })
}

/// The text "SendInput wrote W of N".
pub open spec fn msg_short_write(written: nat, expected: nat) -> Seq<char> {
    seq!['S', 'e', 'n', 'd', 'I', 'n', 'p', 'u', 't', ' ', 'w', 'r', 'o', 't', 'e', ' '] + decimal(written) + seq![
        ' ',
        'o',
        'f',
        ' ',
    ] + decimal(expected)
}

/// The left and right Shift, Ctrl, Alt and Windows keys, in the order they
/// are released.
pub open spec fn modifier_keys() -> Seq<u16> {
    seq![VK_LSHIFT, VK_RSHIFT, VK_LCONTROL, VK_RCONTROL, VK_LMENU, VK_RMENU, VK_LWIN, VK_RWIN]
}

impl WindowsInject {
    /// The injector.
    pub fn new() -> (w: Self) {
        WindowsInject { _private: () }
    }

    /// A move to `(x, y)` on a virtual desktop `virtual_w` by `virtual_h`
    /// pixels, in normalized absolute coordinates.
    pub fn absolute_move(x: i32, y: i32, virtual_w: i32, virtual_h: i32) -> (m: MouseInput)
        ensures
            m == (MouseInput {
                dx: normalized(x, virtual_w),
                dy: normalized(y, virtual_h),
                mouse_data: 0,
                flags: MOUSEEVENTF_MOVE | MOUSEEVENTF_ABSOLUTE | MOUSEEVENTF_VIRTUALDESK,
            }),
    {
        MouseInput {
            dx: normalize_coordinate(x, virtual_w),
            dy: normalize_coordinate(y, virtual_h),
            mouse_data: 0,
            flags: MOUSEEVENTF_MOVE | MOUSEEVENTF_ABSOLUTE | MOUSEEVENTF_VIRTUALDESK,
        }
    }

    /// A relative move by `(dx, dy)`.
    pub fn relative_move(dx: i32, dy: i32) -> (m: MouseInput)
        ensures
            m == (MouseInput { dx, dy, mouse_data: 0, flags: MOUSEEVENTF_MOVE }),
    {
        MouseInput { dx, dy, mouse_data: 0, flags: MOUSEEVENTF_MOVE }
    }

    /// The record for a button going down or up, if `SendInput` can
    /// express that button.
    pub fn button(button: Button, state: KeyState) -> (m: Option<MouseInput>)
        ensures
            m == (match button_record(button, state) {
                Some((flags, data)) => Some(MouseInput { dx: 0, dy: 0, mouse_data: data, flags }),
                None => None,
            }),
    {
        let down = match state {
            KeyState::Pressed => true,
            KeyState::Released => false,
        };
        let (flags, data): (u32, u32) = match button {
            Button::Left => (if down { MOUSEEVENTF_LEFTDOWN } else { MOUSEEVENTF_LEFTUP }, 0),
            Button::Right => (if down { MOUSEEVENTF_RIGHTDOWN } else { MOUSEEVENTF_RIGHTUP }, 0),
            Button::Middle => (if down { MOUSEEVENTF_MIDDLEDOWN } else { MOUSEEVENTF_MIDDLEUP }, 0),
            Button::Back => (if down { MOUSEEVENTF_XDOWN } else { MOUSEEVENTF_XUP }, 0x0001),
            Button::Forward => (if down { MOUSEEVENTF_XDOWN } else { MOUSEEVENTF_XUP }, 0x0002),
            Button::Other(_) => return None,
        };
        Some(MouseInput { dx: 0, dy: 0, mouse_data: data, flags })
    }

    /// The wheel records for a scroll.
    pub fn scroll(horizontal: i16, vertical: i16) -> (v: Vec<MouseInput>)
        ensures
            v@ == scroll_records(horizontal, vertical),
    {
        let mut v: Vec<MouseInput> = Vec::new();
        if vertical != 0 {
            v.push(MouseInput { dx: 0, dy: 0, mouse_data: vertical as i32 as u32, flags: MOUSEEVENTF_WHEEL });
        }
        if horizontal != 0 {
            v.push(MouseInput { dx: 0, dy: 0, mouse_data: horizontal as i32 as u32, flags: MOUSEEVENTF_HWHEEL });
        }
        v
    }

    /// The record for virtual key `vk` (scan code `scan`) going down or up.
    pub fn key(vk: u16, scan: u16, down: bool) -> (k: KeyInput)
        ensures
            k == (KeyInput { vk, scan, flags: if down { 0 } else { KEYEVENTF_KEYUP } }),
    {
        KeyInput { vk, scan, flags: if down { 0 } else { KEYEVENTF_KEYUP } }
    }

    /// The keys released to release every modifier.
    pub fn modifier_keys() -> (v: Vec<u16>)
        ensures
            v@ == modifier_keys(),
    {
        let v: Vec<u16> = vec![VK_LSHIFT, VK_RSHIFT, VK_LCONTROL, VK_RCONTROL, VK_LMENU, VK_RMENU, VK_LWIN, VK_RWIN];
        assert(v@ =~= modifier_keys());
        v
    }

    /// What injecting `event` takes on a virtual desktop `virtual_w` by
    /// `virtual_h` pixels. Keys go through the key table; screen enter and
    /// leave and modifier syncs are handled above the backend and take
    /// nothing here.
    pub fn plan(&self, event: InputEvent, virtual_w: i32, virtual_h: i32) -> (p: InjectPlan)
        ensures
            match event {
                InputEvent::Mouse(MouseEvent::Move { x, y }) => p matches InjectPlan::Mouse(v) && v@ == seq![
                    MouseInput {
                        dx: normalized(x, virtual_w),
                        dy: normalized(y, virtual_h),
                        mouse_data: 0,
                        flags: MOUSEEVENTF_MOVE | MOUSEEVENTF_ABSOLUTE | MOUSEEVENTF_VIRTUALDESK,
                    },
                ],
                InputEvent::Mouse(MouseEvent::MoveRelative { dx, dy }) => p matches InjectPlan::Mouse(v) && v@
                    == seq![MouseInput { dx, dy, mouse_data: 0, flags: MOUSEEVENTF_MOVE }],
                InputEvent::Mouse(MouseEvent::Button { button, state }) => match button_record(button, state) {
                    Some((flags, data)) => p matches InjectPlan::Mouse(v) && v@ == seq![
                        MouseInput { dx: 0, dy: 0, mouse_data: data, flags },
                    ],
                    None => p is Nothing,
                },
                InputEvent::Mouse(MouseEvent::Scroll(d)) => if scroll_records(d.horizontal, d.vertical).len() == 0 {
                    p is Nothing
                } else {
                    p matches InjectPlan::Mouse(v) && v@ == scroll_records(d.horizontal, d.vertical)
                },
                InputEvent::Key(k) => p == InjectPlan::Key(k),
                _ => p is Nothing,
            },
    {
        match event {
            InputEvent::Mouse(MouseEvent::Move { x, y }) => {
                InjectPlan::Mouse(vec![Self::absolute_move(x, y, virtual_w, virtual_h)])
            },
            InputEvent::Mouse(MouseEvent::MoveRelative { dx, dy }) => {
                InjectPlan::Mouse(vec![Self::relative_move(dx, dy)])
            },
            InputEvent::Mouse(MouseEvent::Button { button, state }) => match Self::button(button, state) {
                Some(m) => InjectPlan::Mouse(vec![m]),
                None => InjectPlan::Nothing,
            },
            InputEvent::Mouse(MouseEvent::Scroll(d)) => {
                let v = Self::scroll(d.horizontal, d.vertical);
                if v.len() == 0 {
                    InjectPlan::Nothing
                } else {
                    InjectPlan::Mouse(v)
                }
            },
            InputEvent::Key(k) => InjectPlan::Key(k),
            _ => InjectPlan::Nothing,
        }
    }

    /// The outcome of a `SendInput` call that wrote `written` of `expected`
    /// records: success when all were written.
    pub fn send_outcome(written: u32, expected: usize) -> (r: Result<(), Error>)
        ensures
            written == expected ==> r is Ok,
            written != expected ==> (r matches Err(Error::Platform(m)) && m@ == msg_short_write(
                written as nat,
                expected as nat,
            )),
    {
        if written as usize == expected {
            return Ok(());
        }
        proof {
            reveal_strlit("SendInput wrote ");
            reveal_strlit(" of ");
        }
        let mut m = String::from_str("SendInput wrote ");
        m.append(u64_to_string(written as u64).as_str());
        m.append(" of ");
        m.append(u64_to_string(expected as u64).as_str());
        assert(m@ =~= msg_short_write(written as nat, expected as nat));
        Err(Error::Platform(m))
    }
}

/// An event as the low-level hooks saw it, before translation.
#[derive(Debug, Clone, Copy, PartialEq, Eq, Structural)]
pub enum RawEvent {
    KeyDown { vk: u32, scan: u32 },
    KeyUp { vk: u32, scan: u32 },
    MouseMove { x: i32, y: i32 },
    MouseButton { button: Button, down: bool },
    MouseScroll { horizontal: bool, delta: i16 },
}

impl RawEvent {
    /// The scan code of a key event.
    pub fn scan_code(&self) -> (s: Option<u32>)
        ensures
            s == (match *self {
                RawEvent::KeyDown { scan, .. } => Some(scan),
                RawEvent::KeyUp { scan, .. } => Some(scan),
                _ => None,
            }),
    {
        match self {
            RawEvent::KeyDown { scan, .. } => Some(*scan),
            RawEvent::KeyUp { scan, .. } => Some(*scan),
            _ => None,
        }
    }
}

/// The raw event for a keyboard hook message.
pub open spec fn spec_raw_from_keyboard(message: u32, vk: u32, scan: u32) -> Option<RawEvent> {
    if message == WM_KEYDOWN || message == WM_SYSKEYDOWN {
        Some(RawEvent::KeyDown { vk, scan })
    } else if message == WM_KEYUP || message == WM_SYSKEYUP {
        Some(RawEvent::KeyUp { vk, scan })
    } else {
        None
    }
}

/// The wheel delta carried in the high word of a hook's mouse data.
pub open spec fn wheel_delta(mouse_data: u32) -> i16 {
    ((mouse_data >> 16u32) & 0xFFFFu32) as i16
}

/// The raw event for a mouse hook message.
pub open spec fn spec_raw_from_mouse(message: u32, x: i32, y: i32, mouse_data: u32) -> Option<RawEvent> {
    if message == WM_MOUSEMOVE {
        Some(RawEvent::MouseMove { x, y })
    } else if message == WM_LBUTTONDOWN {
        Some(RawEvent::MouseButton { button: Button::Left, down: true })
    } else if message == WM_LBUTTONUP {
        Some(RawEvent::MouseButton { button: Button::Left, down: false })
    } else if message == WM_RBUTTONDOWN {
        Some(RawEvent::MouseButton { button: Button::Right, down: true })
    } else if message == WM_RBUTTONUP {
        Some(RawEvent::MouseButton { button: Button::Right, down: false })
    } else if message == WM_MBUTTONDOWN {
        Some(RawEvent::MouseButton { button: Button::Middle, down: true })
    } else if message == WM_MBUTTONUP {
        Some(RawEvent::MouseButton { button: Button::Middle, down: false })
    } else if message == WM_MOUSEWHEEL {
        Some(RawEvent::MouseScroll { horizontal: false, delta: wheel_delta(mouse_data) })
    } else if message == WM_MOUSEHWHEEL {
        Some(RawEvent::MouseScroll { horizontal: true, delta: wheel_delta(mouse_data) })
    } else {
        None
    }
}

/// The raw event for a keyboard hook message, if it is a key going down or
/// up.
pub fn raw_from_keyboard(message: u32, vk: u32, scan: u32) -> (r: Option<RawEvent>)
    ensures
        r == spec_raw_from_keyboard(message, vk, scan),
{
    if message == WM_KEYDOWN || message == WM_SYSKEYDOWN {
        Some(RawEvent::KeyDown { vk, scan })
    } else if message == WM_KEYUP || message == WM_SYSKEYUP {
        Some(RawEvent::KeyUp { vk, scan })
    } else {
        None
    }
}

/// The raw event for a mouse hook message at `(x, y)` with `mouse_data`,
/// if it is one the backend forwards.
pub fn raw_from_mouse(message: u32, x: i32, y: i32, mouse_data: u32) -> (r: Option<RawEvent>)
    ensures
        r == spec_raw_from_mouse(message, x, y, mouse_data),
{
    if message == WM_MOUSEMOVE {
        Some(RawEvent::MouseMove { x, y })
    } else if message == WM_LBUTTONDOWN {
        Some(RawEvent::MouseButton { button: Button::Left, down: true })
    } else if message == WM_LBUTTONUP {
        Some(RawEvent::MouseButton { button: Button::Left, down: false })
    } else if message == WM_RBUTTONDOWN {
        Some(RawEvent::MouseButton { button: Button::Right, down: true })
    } else if message == WM_RBUTTONUP {
        Some(RawEvent::MouseButton { button: Button::Right, down: false })
    } else if message == WM_MBUTTONDOWN {
        Some(RawEvent::MouseButton { button: Button::Middle, down: true })
    } else if message == WM_MBUTTONUP {
        Some(RawEvent::MouseButton { button: Button::Middle, down: false })
    } else if message == WM_MOUSEWHEEL {
        Some(RawEvent::MouseScroll { horizontal: false, delta: ((mouse_data >> 16u32) & 0xFFFFu32) as i16 })
    } else if message == WM_MOUSEHWHEEL {
        Some(RawEvent::MouseScroll { horizontal: true, delta: ((mouse_data >> 16u32) & 0xFFFFu32) as i16 })
    } else {
        None
    }
}

/// Whether a hook swallows the message it saw, so that it never reaches the
/// local foreground application: only while capturing, and only for a
/// message the hook may process (`code` not negative).
pub fn hook_swallows(code: i32, capturing: bool) -> (b: bool)
    ensures
        b == (code >= 0 && capturing),
{
    code >= 0 && capturing
}

/// The modifier bit a virtual key stands for, if any.
pub open spec fn modifier_bit(vk: u16) -> Option<u16> {
    if vk == VK_LSHIFT || vk == VK_RSHIFT || vk == VK_SHIFT {
        Some(1u16)
    } else if vk == VK_LCONTROL || vk == VK_RCONTROL || vk == VK_CONTROL {
        Some(2u16)
    } else if vk == VK_LMENU || vk == VK_RMENU || vk == VK_MENU {
        Some(4u16)
    } else if vk == VK_LWIN || vk == VK_RWIN {
        Some(8u16)
    } else if vk == VK_CAPITAL {
        Some(16u16)
    } else if vk == VK_NUMLOCK {
        Some(32u16)
    } else {
        None
    }
}

/// The modifiers after virtual key `vk` (its low 16 bits) went down or up.
pub open spec fn modifiers_after_key(m: ModifierState, vk: u32, down: bool) -> ModifierState {
    match modifier_bit(vk as u16) {
        Some(bit) => if down {
            ModifierState { bits: m.bits | bit }
        } else {
            ModifierState { bits: m.bits & !bit }
        },
        None => m,
    }
}

/// Track a virtual key going down or up in the held modifiers.
pub fn update_modifiers(state: &mut ModifierState, vk: u32, down: bool)
    ensures
        *final(state) == modifiers_after_key(*old(state), vk, down),
{
    let key = vk as u16;
    let flag = if key == VK_LSHIFT || key == VK_RSHIFT || key == VK_SHIFT {
        ModifierState::shift()
    } else if key == VK_LCONTROL || key == VK_RCONTROL || key == VK_CONTROL {
        ModifierState::ctrl()
    } else if key == VK_LMENU || key == VK_RMENU || key == VK_MENU {
        ModifierState::alt()
    } else if key == VK_LWIN || key == VK_RWIN {
        ModifierState::super_key()
    } else if key == VK_CAPITAL {
        ModifierState::caps_lock()
    } else if key == VK_NUMLOCK {
        ModifierState::num_lock()
    } else {
        return;
    };
    if down {
        state.insert(flag);
    } else {
        state.remove(flag);
    }
}

/// The input event for a raw event, given the held modifiers and, for a
/// key, its code in the key table.
pub open spec fn translated(raw: RawEvent, mods: ModifierState, code: KeyCode) -> InputEvent {
    match raw {
        RawEvent::KeyDown { .. } => InputEvent::Key(
            KeyEvent { code, state: KeyState::Pressed, modifiers: mods, character: None },
        ),
        RawEvent::KeyUp { .. } => InputEvent::Key(
            KeyEvent { code, state: KeyState::Released, modifiers: mods, character: None },
        ),
        RawEvent::MouseMove { x, y } => InputEvent::Mouse(MouseEvent::Move { x, y }),
        RawEvent::MouseButton { button, down } => InputEvent::Mouse(
            MouseEvent::Button { button, state: if down { KeyState::Pressed } else { KeyState::Released } },
        ),
        RawEvent::MouseScroll { horizontal, delta } => InputEvent::Mouse(
            MouseEvent::Scroll(
                ScrollDelta {
                    horizontal: if horizontal { delta } else { 0 },
                    vertical: if horizontal { 0 } else { delta },
                },
            ),
        ),
    }
}

/// The modifiers after a raw event: key events update them, whether or not
/// input is being captured, so that a fresh snapshot is at hand when
/// capture starts.
pub open spec fn modifiers_after_raw(raw: RawEvent, mods: ModifierState) -> ModifierState {
    match raw {
        RawEvent::KeyDown { vk, .. } => modifiers_after_key(mods, vk, true),
        RawEvent::KeyUp { vk, .. } => modifiers_after_key(mods, vk, false),
        _ => mods,
    }
}

/// One step of the drain worker: update the held modifiers from `raw`, and
/// while capturing give the input event to forward. `code` is the key
/// table's code for a key event's virtual key.
pub fn drain_step(raw: RawEvent, mods: &mut ModifierState, capturing: bool, code: KeyCode) -> (e: Option<InputEvent>)
    ensures
        *final(mods) == modifiers_after_raw(raw, *old(mods)),
        e == (if capturing { Some(translated(raw, *final(mods), code)) } else { None }),
{
    match raw {
        RawEvent::KeyDown { vk, .. } => update_modifiers(mods, vk, true),
        RawEvent::KeyUp { vk, .. } => update_modifiers(mods, vk, false),
        _ => {},
    }
    if !capturing {
        return None;
    }
    let event = match raw {
        RawEvent::KeyDown { .. } => InputEvent::Key(
            KeyEvent { code, state: KeyState::Pressed, modifiers: *mods, character: None },
        ),
        RawEvent::KeyUp { .. } => InputEvent::Key(
            KeyEvent { code, state: KeyState::Released, modifiers: *mods, character: None },
        ),
        RawEvent::MouseMove { x, y } => InputEvent::Mouse(MouseEvent::Move { x, y }),
        RawEvent::MouseButton { button, down } => InputEvent::Mouse(
            MouseEvent::Button { button, state: if down { KeyState::Pressed } else { KeyState::Released } },
        ),
        RawEvent::MouseScroll { horizontal, delta } => InputEvent::Mouse(
            MouseEvent::Scroll(
                ScrollDelta {
                    horizontal: if horizontal { delta } else { 0 },
                    vertical: if horizontal { 0 } else { delta },
                },
            ),
        ),
    };
    Some(event)
}

} // verus!
