//! The platform layer's own logic: the logical screen made of the local
//! monitors, the fallback backends, and the Windows backend's translation
//! between hook messages, input events and `SendInput` records. The
//! operating-system calls themselves are made by the caller.
use crate::error::Error;
use crate::event::{Button, InputEvent, KeyCode, KeyEvent, KeyState, ModifierState, MouseEvent, ScrollDelta};
use crate::id::ScreenId;
use crate::screen::ScreenInfo;
use vstd::prelude::*;

verus! {

/// One physical monitor, in virtual-desktop coordinates.
#[derive(Debug, Clone)]
pub struct MonitorInfo {
    pub name: String,
    pub x: i32,
    pub y: i32,
    pub width: i32,
    pub height: i32,
    pub primary: bool,
}

/// A snapshot of the local cursor position, in virtual-desktop coordinates.
#[derive(Debug, Clone, Copy, PartialEq, Eq, Structural)]
pub struct CursorPos {
    pub x: i32,
    pub y: i32,
}

impl Default for CursorPos {
    /// The origin.
    fn default() -> (p: Self)
        ensures
            p == (CursorPos { x: 0, y: 0 }),
    {
        CursorPos { x: 0, y: 0 }
    }
}

/// The smallest left edge among `ms`, starting from `i32::MAX`.
pub open spec fn min_left(ms: Seq<MonitorInfo>) -> int
    decreases ms.len(),
{
    if ms.len() == 0 {
        i32::MAX as int
    } else {
        let rest = min_left(ms.drop_last());
        if ms.last().x < rest { ms.last().x as int } else { rest }
    }
}

/// The smallest top edge among `ms`, starting from `i32::MAX`.
pub open spec fn min_top(ms: Seq<MonitorInfo>) -> int
    decreases ms.len(),
{
    if ms.len() == 0 {
        i32::MAX as int
    } else {
        let rest = min_top(ms.drop_last());
        if ms.last().y < rest { ms.last().y as int } else { rest }
    }
}

/// The largest right edge among `ms`, starting from `i32::MIN`.
pub open spec fn max_right(ms: Seq<MonitorInfo>) -> int
    decreases ms.len(),
{
    if ms.len() == 0 {
        i32::MIN as int
    } else {
        let rest = max_right(ms.drop_last());
        let r = ms.last().x + ms.last().width;
        if r > rest { r } else { rest }
    }
}

/// The largest bottom edge among `ms`, starting from `i32::MIN`.
pub open spec fn max_bottom(ms: Seq<MonitorInfo>) -> int
    decreases ms.len(),
{
    if ms.len() == 0 {
        i32::MIN as int
    } else {
        let rest = max_bottom(ms.drop_last());
        let b = ms.last().y + ms.last().height;
        if b > rest { b } else { rest }
    }
}

/// Every monitor's right and bottom edges are `i32` values.
pub open spec fn edges_fit(ms: Seq<MonitorInfo>) -> bool {
    forall|i: int|
        0 <= i < ms.len() ==> i32::MIN <= #[trigger] ms[i].x + ms[i].width <= i32::MAX && i32::MIN <= ms[i].y
            + ms[i].height <= i32::MAX
}

/// The extent of the bounding box of `ms` on each axis is an `i32`.
pub open spec fn extent_fits(ms: Seq<MonitorInfo>) -> bool {
    ms.len() > 0 ==> i32::MIN <= max_right(ms) - min_left(ms) <= i32::MAX && i32::MIN <= max_bottom(ms) - min_top(
        ms,
    ) <= i32::MAX
}

/// The larger of `v` and zero.
pub open spec fn at_least_zero(v: int) -> int {
    if v < 0 { 0 } else { v }
}

/// The logical screen made of `ms`: screen 0, named `name`, as wide and as
/// tall as the box that bounds every monitor (0 by 0 when there is none).
pub open spec fn bounding_screen(ms: Seq<MonitorInfo>, name: String, s: ScreenInfo) -> bool {
    &&& s.id == ScreenId(0)
    &&& s.name == name
    &&& s.width == (if ms.len() == 0 { 0 } else { at_least_zero(max_right(ms) - min_left(ms)) })
    &&& s.height == (if ms.len() == 0 { 0 } else { at_least_zero(max_bottom(ms) - min_top(ms)) })
}

proof fn lemma_bounds_in_range(ms: Seq<MonitorInfo>)
    requires
        edges_fit(ms),
    ensures
        i32::MIN <= min_left(ms) <= i32::MAX,
        i32::MIN <= min_top(ms) <= i32::MAX,
        i32::MIN <= max_right(ms) <= i32::MAX,
        i32::MIN <= max_bottom(ms) <= i32::MAX,
    decreases ms.len(),
{
    if ms.len() > 0 {
        assert(edges_fit(ms.drop_last())) by {
            assert forall|i: int| 0 <= i < ms.drop_last().len() implies i32::MIN <= #[trigger] ms.drop_last()[i].x
                + ms.drop_last()[i].width <= i32::MAX && i32::MIN <= ms.drop_last()[i].y + ms.drop_last()[i].height
                <= i32::MAX by {
                assert(ms.drop_last()[i] == ms[i]);
            }
        }
        lemma_bounds_in_range(ms.drop_last());
        assert(ms.last() == ms[ms.len() - 1]);
    }
}

/// The single logical screen formed by the local monitors, named `name`.
pub fn local_screen_info(monitors: &Vec<MonitorInfo>, name: String) -> (s: ScreenInfo)
    requires
        edges_fit(monitors@),
        extent_fits(monitors@),
    ensures
        bounding_screen(monitors@, name, s),
{
    let mut min_x: i32 = i32::MAX;
    let mut min_y: i32 = i32::MAX;
    let mut max_x: i32 = i32::MIN;
    let mut max_y: i32 = i32::MIN;
    let mut i: usize = 0;
    while i < monitors.len()
        invariant
            i <= monitors@.len(),
            edges_fit(monitors@),
            min_x == min_left(monitors@.subrange(0, i as int)),
            min_y == min_top(monitors@.subrange(0, i as int)),
            max_x == max_right(monitors@.subrange(0, i as int)),
            max_y == max_bottom(monitors@.subrange(0, i as int)),
        decreases monitors@.len() - i,
    {
        let m = &monitors[i];
        assert(monitors@.subrange(0, i + 1).drop_last() =~= monitors@.subrange(0, i as int));
        assert(monitors@.subrange(0, i + 1).last() == monitors@[i as int]);
        assert(i32::MIN <= monitors@[i as int].x + monitors@[i as int].width <= i32::MAX);
        let right = m.x + m.width;
        let bottom = m.y + m.height;
        if m.x < min_x {
            min_x = m.x;
        }
        if m.y < min_y {
            min_y = m.y;
        }
        if right > max_x {
            max_x = right;
        }
        if bottom > max_y {
            max_y = bottom;
        }
        i = i + 1;
    }
    assert(monitors@.subrange(0, monitors@.len() as int) =~= monitors@);
    if monitors.len() == 0 {
        return ScreenInfo { id: ScreenId(0), name, width: 0, height: 0 };
    }
    proof {
        lemma_bounds_in_range(monitors@);
    }
    let w = max_x as i64 - min_x as i64;
    let h = max_y as i64 - min_y as i64;
    let width: i32 = if w < 0 { 0 } else { w as i32 };
    let height: i32 = if h < 0 { 0 } else { h as i32 };
    ScreenInfo { id: ScreenId(0), name, width, height }
}

/// The machine's name: the environment variable the caller read, or the
/// platform's fallback name.
pub fn host_name_or(var: Option<String>, fallback: &str) -> (n: String)
    ensures
        n@ == (match var {
            Some(v) => v@,
            None => fallback@,
        }),
{
    match var {
        Some(v) => v,
        None => String::from_str(fallback),
    }
}

/// The text "stub".
pub open spec fn stub_word() -> Seq<char> {
    seq!['s', 't', 'u', 'b']
}

/// The logical screen reported where no backend exists: screen 0, named
/// "stub", of no size.
pub fn stub_screen_info() -> (s: ScreenInfo)
    ensures
        s.id == ScreenId(0),
        s.name@ == stub_word(),
        s.width == 0,
        s.height == 0,
{
    proof {
        reveal_strlit("stub");
    }
    ScreenInfo { id: ScreenId(0), name: String::from_str("stub"), width: 0, height: 0 }
}

/// The text "no platform backend available for OS".
pub open spec fn msg_no_backend(os: Seq<char>) -> Seq<char> {
    seq![
        'n', 'o', ' ', 'p', 'l', 'a', 't', 'f', 'o', 'r', 'm', ' ', 'b', 'a', 'c', 'k', 'e', 'n', 'd', ' ', 'a', 'v',
        'a', 'i', 'l', 'a', 'b', 'l', 'e', ' ', 'f', 'o', 'r', ' ',
    ] + os
}

/// The error for an operating system `os` that has no backend.
pub fn no_backend_error(os: &str) -> (e: Error)
    ensures
        e matches Error::Platform(m) && m@ == msg_no_backend(os@),
{
    proof {
        reveal_strlit("no platform backend available for ");
    }
    let mut m = String::from_str("no platform backend available for ");
    m.append(os);
    assert(m@ =~= msg_no_backend(os@));
    Error::Platform(m)
}

/// Capture where the platform has none: it cannot start, and otherwise
/// does nothing.
#[derive(Debug, Clone, Copy)]
pub struct StubCapture;

/// Injection where the platform has none: it cannot inject, and releasing
/// modifiers does nothing.
#[derive(Debug, Clone, Copy)]
pub struct StubInject;

/// The fallback backend for an unsupported platform.
#[derive(Debug, Clone, Copy)]
pub struct StubPlatform {
    pub capture: StubCapture,
    pub inject: StubInject,
}

impl StubPlatform {
    /// The fallback backend.
    pub fn new() -> (p: Self)
        ensures
            p == (StubPlatform { capture: StubCapture, inject: StubInject }),
    {
        StubPlatform { capture: StubCapture, inject: StubInject }
    }

    /// The backend's name, "stub".
    pub fn name(&self) -> (n: &'static str)
        ensures
            n@ == stub_word(),
    {
        proof {
            reveal_strlit("stub");
        }
        "stub"
    }
}

impl StubCapture {
    /// Starting fails with "stub: capture unsupported".
    pub fn start(&self) -> (r: Result<(), Error>)
        ensures
            r matches Err(Error::Platform(m)) && m@ == seq![
                's', 't', 'u', 'b', ':', ' ', 'c', 'a', 'p', 't', 'u', 'r', 'e', ' ', 'u', 'n', 's', 'u', 'p', 'p', 'o',
                'r', 't', 'e', 'd',
            ],
    {
        proof {
            reveal_strlit("stub: capture unsupported");
        }
        Err(Error::Platform(String::from_str("stub: capture unsupported")))
    }

    /// Stopping succeeds.
    pub fn stop(&self) -> (r: Result<(), Error>)
        ensures
            r is Ok,
    {
        Ok(())
    }

    /// The cursor is always reported at the origin.
    pub fn cursor_position(&self) -> (r: Result<CursorPos, Error>)
        ensures
            r == Ok::<CursorPos, Error>(CursorPos { x: 0, y: 0 }),
    {
        Ok(CursorPos::default())
    }

    /// Warping succeeds and does nothing.
    pub fn warp_cursor(&self, pos: CursorPos) -> (r: Result<(), Error>)
        ensures
            r is Ok,
    {
        Ok(())
    }
}

impl StubInject {
    /// Injecting fails with "stub: inject unsupported".
    pub fn inject(&self, event: InputEvent) -> (r: Result<(), Error>)
        ensures
            r matches Err(Error::Platform(m)) && m@ == seq![
                's', 't', 'u', 'b', ':', ' ', 'i', 'n', 'j', 'e', 'c', 't', ' ', 'u', 'n', 's', 'u', 'p', 'p', 'o', 'r',
                't', 'e', 'd',
            ],
    {
        proof {
            reveal_strlit("stub: inject unsupported");
        }
        Err(Error::Platform(String::from_str("stub: inject unsupported")))
    }

    /// Releasing modifiers succeeds and does nothing.
    pub fn release_all_modifiers(&self) -> (r: Result<(), Error>)
        ensures
            r is Ok,
    {
        Ok(())
    }
}

/// Injection on Linux, not written yet: it cannot inject.
#[derive(Debug, Clone, Copy)]
pub struct LinuxInject {
    _private: (),
}

impl LinuxInject {
    /// The Linux injector. Opening it never fails yet.
    pub fn new() -> (r: Result<Self, Error>)
        ensures
            r is Ok,
    {
        Ok(LinuxInject { _private: () })
    }

    /// Injecting fails with "linux inject not yet implemented".
    pub fn inject(&self, event: InputEvent) -> (r: Result<(), Error>)
        ensures
            r matches Err(Error::Platform(m)) && m@ == seq![
                'l', 'i', 'n', 'u', 'x', ' ', 'i', 'n', 'j', 'e', 'c', 't', ' ', 'n', 'o', 't', ' ', 'y', 'e', 't', ' ',
                'i', 'm', 'p', 'l', 'e', 'm', 'e', 'n', 't', 'e', 'd',
            ],
    {
        proof {
            reveal_strlit("linux inject not yet implemented");
        }
        Err(Error::Platform(String::from_str("linux inject not yet implemented")))
    }

    /// Releasing modifiers succeeds and does nothing.
    pub fn release_all_modifiers(&self) -> (r: Result<(), Error>)
        ensures
            r is Ok,
    {
        Ok(())
    }
}

/// Injection that silently drops every event: the fallback when the Linux
/// injector cannot be opened, so that the daemon stays reachable.
#[derive(Debug, Clone, Copy)]
pub struct NullInject;

impl NullInject {
    /// Every event is dropped, successfully.
    pub fn inject(&self, event: InputEvent) -> (r: Result<(), Error>)
        ensures
            r is Ok,
    {
        Ok(())
    }

    /// Releasing modifiers succeeds and does nothing.
    pub fn release_all_modifiers(&self) -> (r: Result<(), Error>)
        ensures
            r is Ok,
    {
        Ok(())
    }
}

/// Capture on Linux, not written yet: it remembers whether it should
/// capture, produces no events, and cannot read or move the cursor.
#[derive(Debug, Clone, Copy, PartialEq, Eq, Structural)]
pub struct LinuxCapture {
    pub capturing: bool,
}

impl LinuxCapture {
    /// Not capturing.
    pub fn new() -> (c: Self)
        ensures
            !c.capturing,
    {
        LinuxCapture { capturing: false }
    }

    /// Starting succeeds, though no event will be produced yet.
    pub fn start(&self) -> (r: Result<(), Error>)
        ensures
            r is Ok,
    {
        Ok(())
    }

    /// Stopping ends capture.
    pub fn stop(&mut self) -> (r: Result<(), Error>)
        ensures
            r is Ok,
            !final(self).capturing,
    {
        self.capturing = false;
        Ok(())
    }

    /// Record whether input should be captured.
    pub fn set_capturing(&mut self, capturing: bool)
        ensures
            final(self).capturing == capturing,
    {
        self.capturing = capturing;
    }

    /// Fails with "linux cursor query not yet implemented".
    pub fn cursor_position(&self) -> (r: Result<CursorPos, Error>)
        ensures
            r matches Err(Error::Platform(m)) && m@ == seq![
                'l', 'i', 'n', 'u', 'x', ' ', 'c', 'u', 'r', 's', 'o', 'r', ' ', 'q', 'u', 'e', 'r', 'y', ' ', 'n', 'o',
                't', ' ', 'y', 'e', 't', ' ', 'i', 'm', 'p', 'l', 'e', 'm', 'e', 'n', 't', 'e', 'd',
            ],
    {
        proof {
            reveal_strlit("linux cursor query not yet implemented");
        }
        Err(Error::Platform(String::from_str("linux cursor query not yet implemented")))
    }

    /// Fails with "linux warp_cursor not yet implemented".
    pub fn warp_cursor(&self, pos: CursorPos) -> (r: Result<(), Error>)
        ensures
            r matches Err(Error::Platform(m)) && m@ == seq![
                'l', 'i', 'n', 'u', 'x', ' ', 'w', 'a', 'r', 'p', '_', 'c', 'u', 'r', 's', 'o', 'r', ' ', 'n', 'o', 't',
                ' ', 'y', 'e', 't', ' ', 'i', 'm', 'p', 'l', 'e', 'm', 'e', 'n', 't', 'e', 'd',
            ],
    {
        proof {
            reveal_strlit("linux warp_cursor not yet implemented");
        }
        Err(Error::Platform(String::from_str("linux warp_cursor not yet implemented")))
    }
}

} // verus!
