//! Cursor edge detection and the screen-routing state machine.
//!
//! Tracks where input is being routed: to the local OS, or to one of the
//! connected peer screens. On each mouse-move event the detector checks
//! whether the cursor crossed a configured screen edge and emits a
//! [`RouteDecision`] for the orchestrator to act on.
use crate::event::{InputEvent, ModifierState, MouseEvent};
use crate::id::ScreenId;
use crate::screen::{first_neighbour, EdgeSide, Neighbour, Point, ScreenInfo, ScreenLayout};
use vstd::prelude::*;

verus! {

/// Where input goes.
#[derive(Debug, Clone, Copy, PartialEq, Eq, Structural)]
pub enum Route {
    /// Input stays on the local machine.
    Local,
    /// Input is forwarded to the peer driving this screen.
    Remote(ScreenId),
}

/// What the orchestrator should do as a side effect of an event.
#[derive(Debug, Clone, Copy, PartialEq, Eq, Structural)]
pub enum RouteDecision {
    /// No routing change.
    Stay,
    /// Routing flipped to a remote screen: park the local cursor at
    /// `local_warp` and send `ScreenEnter { entry, modifiers }` to the peer.
    EnterRemote { screen: ScreenId, entry: Point, local_warp: Point, modifiers: ModifierState },
    /// Routing flipped back to local: send `ScreenLeave` to the previously
    /// active peer and release its held modifiers.
    LeaveRemote { screen: ScreenId },
}

/// Whether an event is handled locally or forwarded to the active peer.
#[derive(Debug, Clone, Copy, PartialEq, Eq, Structural)]
pub enum ForwardTo {
    Local,
    Remote,
}

/// The edge a point touches, given the screen size and the threshold, tried
/// in the order left, right, top, bottom.
pub open spec fn edge_crossed(p: Point, w: i32, h: i32, t: i32) -> Option<EdgeSide> {
    if p.x <= t {
        Some(EdgeSide::Left)
    } else if p.x >= w - t {
        Some(EdgeSide::Right)
    } else if p.y <= t {
        Some(EdgeSide::Top)
    } else if p.y >= h - t {
        Some(EdgeSide::Bottom)
    } else {
        None
    }
}

/// Point on the far screen where the cursor appears after crossing: on the
/// far screen's facing edge, keeping the coordinate along the edge.
pub open spec fn spec_entry_point(crossed: EdgeSide, p: Point) -> Point {
    match crossed {
        EdgeSide::Left => Point { x: 32_000, y: p.y },
        EdgeSide::Right => Point { x: 0, y: p.y },
        EdgeSide::Top => Point { x: p.x, y: 32_000 },
        EdgeSide::Bottom => Point { x: p.x, y: 0 },
    }
}

/// Half of `v`, rounded toward zero (integer division of `i32`).
pub open spec fn half(v: i32) -> int {
    if v >= 0 {
        v as int / 2
    } else {
        -((-(v as int)) / 2)
    }
}

/// Where the local cursor is parked after control moves to a peer: just
/// inside the crossed edge, centred along it.
pub open spec fn spec_warp_back_inside(crossed: EdgeSide, w: i32, h: i32) -> Point {
    match crossed {
        EdgeSide::Left => Point { x: 2, y: half(h) as i32 },
        EdgeSide::Right => Point { x: (w - 2) as i32, y: half(h) as i32 },
        EdgeSide::Top => Point { x: half(w) as i32, y: 2 },
        EdgeSide::Bottom => Point { x: half(w) as i32, y: (h - 2) as i32 },
    }
}

/// The screen reached by crossing `side` of `local`: the layout's neighbour,
/// or else the automatically routed peer.
pub open spec fn crossing_target(
    ns: Seq<Neighbour>,
    local: ScreenId,
    side: EdgeSide,
    auto_peer: Option<ScreenId>,
) -> Option<ScreenId> {
    match first_neighbour(ns, local, side) {
        Some(s) => Some(s),
        None => auto_peer,
    }
}

/// The held modifiers after an event: key events and modifier syncs carry
/// the current state; other events leave it alone.
pub open spec fn modifiers_after(m: ModifierState, ev: InputEvent) -> ModifierState {
    match ev {
        InputEvent::Key(k) => k.modifiers,
        InputEvent::ModifierSync(s) => s,
        _ => m,
    }
}

/// The detector's configuration, as plain values.
pub struct EdgeConfig {
    pub local: ScreenId,
    pub width: i32,
    pub height: i32,
    pub threshold: i32,
    pub neighbours: Seq<Neighbour>,
    pub auto_peer: Option<ScreenId>,
    pub screens: Seq<ScreenInfo>,
}

/// The detector's state, as plain values.
pub struct EdgeState {
    pub route: Route,
    pub last_point: Point,
    pub modifiers: ModifierState,
}

/// Finding the edge that `p` touches stays within `i32`: the far edges
/// `w - t` and `h - t` are computed only as far as the tests get.
pub open spec fn edge_test_ok(p: Point, w: i32, h: i32, t: i32) -> bool {
    p.x <= t || (w - t >= i32::MIN && (p.x >= w - t || p.y <= t || h - t >= i32::MIN))
}

/// The detector can take `ev` without leaving `i32`: while routing is
/// local, a move's edge test stays in range, and a move that crosses an
/// edge with a screen behind it leaves room for the parking point 2 px
/// inside the crossed edge.
pub open spec fn observe_ok(c: EdgeConfig, s: EdgeState, ev: InputEvent) -> bool {
    match ev {
        InputEvent::Mouse(MouseEvent::Move { x, y }) => s.route is Local ==> {
            &&& edge_test_ok(Point { x, y }, c.width, c.height, c.threshold)
            &&& match edge_crossed(Point { x, y }, c.width, c.height, c.threshold) {
                Some(side) => crossing_target(c.neighbours, c.local, side, c.auto_peer) is Some ==> c.width
                    >= i32::MIN + 2 && c.height >= i32::MIN + 2,
                None => true,
            }
        },
        _ => true,
    }
}

/// The state after an event, the decision and where the event goes.
pub open spec fn observe_outcome(c: EdgeConfig, s: EdgeState, ev: InputEvent) -> (
    EdgeState,
    RouteDecision,
    ForwardTo,
) {
    let mods = modifiers_after(s.modifiers, ev);
    match ev {
        InputEvent::Mouse(MouseEvent::Move { x, y }) => {
            let p = Point { x, y };
            match s.route {
                Route::Local => {
                    match edge_crossed(p, c.width, c.height, c.threshold) {
                        Some(side) => match crossing_target(c.neighbours, c.local, side, c.auto_peer) {
                            Some(remote) => (
                                EdgeState { route: Route::Remote(remote), last_point: p, modifiers: mods },
                                RouteDecision::EnterRemote {
                                    screen: remote,
                                    entry: spec_entry_point(side, p),
                                    local_warp: spec_warp_back_inside(side, c.width, c.height),
                                    modifiers: mods,
                                },
                                ForwardTo::Remote,
                            ),
                            None => (
                                EdgeState { route: Route::Local, last_point: p, modifiers: mods },
                                RouteDecision::Stay,
                                ForwardTo::Local,
                            ),
                        },
                        None => (
                            EdgeState { route: Route::Local, last_point: p, modifiers: mods },
                            RouteDecision::Stay,
                            ForwardTo::Local,
                        ),
                    }
                },
                Route::Remote(r) => (
                    EdgeState { route: Route::Remote(r), last_point: p, modifiers: mods },
                    RouteDecision::Stay,
                    ForwardTo::Remote,
                ),
            }
        },
        _ => (
            EdgeState { route: s.route, last_point: s.last_point, modifiers: mods },
            RouteDecision::Stay,
            if s.route is Local {
                ForwardTo::Local
            } else {
                ForwardTo::Remote
            },
        ),
    }
}

/// The edge-crossing state machine.
pub struct EdgeDetector {
    /// The local screen id (multi-monitor on the local machine is one
    /// logical screen).
    local: ScreenId,
    local_width: i32,
    local_height: i32,
    layout: ScreenLayout,
    route: Route,
    last_point: Point,
    modifiers: ModifierState,
    /// Margin in px from the screen edge before a crossing is detected.
    edge_threshold: i32,
    /// Peer screen that edge crossings go to when the layout names no
    /// neighbour on that side.
    auto_peer: Option<ScreenId>,
}

impl EdgeDetector {
    #[verifier::type_invariant]
    spec fn inv(self) -> bool {
        self.edge_threshold == 1
    }

    /// The configuration, as plain values.
    pub closed spec fn config(&self) -> EdgeConfig {
        EdgeConfig {
            local: self.local,
            width: self.local_width,
            height: self.local_height,
            threshold: self.edge_threshold,
            neighbours: self.layout.neighbours@,
            auto_peer: self.auto_peer,
            screens: self.layout.screens@,
        }
    }

    /// The routing state, as plain values.
    pub closed spec fn state(&self) -> EdgeState {
        EdgeState { route: self.route, last_point: self.last_point, modifiers: self.modifiers }
    }

    /// A detector routing locally, with no modifier held and a 1 px edge
    /// threshold.
    pub fn new(local: ScreenId, local_width: i32, local_height: i32, layout: ScreenLayout) -> (d: Self)
        ensures
            d.config().local == local,
            d.config().width == local_width,
            d.config().height == local_height,
            d.config().threshold == 1,
            d.config().neighbours == layout.neighbours@,
            d.config().auto_peer is None,
            d.config().screens == layout.screens@,
            d.state().route == Route::Local,
            d.state().last_point == (Point { x: 0, y: 0 }),
            d.state().modifiers.bits == 0,
    {
        EdgeDetector {
            local,
            local_width,
            local_height,
            layout,
            route: Route::Local,
            last_point: Point { x: 0, y: 0 },
            modifiers: ModifierState::empty(),
            edge_threshold: 1,
            auto_peer: None,
        }
    }

    /// The current route.
    pub fn route(&self) -> (r: Route)
        ensures
            r == self.state().route,
    {
        self.route
    }

    /// Set the held modifiers.
    pub fn set_modifiers(&mut self, m: ModifierState)
        ensures
            final(self).config() == old(self).config(),
            final(self).state() == (EdgeState { modifiers: m, ..old(self).state() }),
    {
        proof {
            use_type_invariant(&*self);
        }
        self.modifiers = m;
    }

    /// Route edge crossings with no layout neighbour to `peer`, or nowhere.
    pub fn set_auto_peer(&mut self, peer: Option<ScreenId>)
        ensures
            final(self).config() == (EdgeConfig { auto_peer: peer, ..old(self).config() }),
            final(self).state() == old(self).state(),
    {
        proof {
            use_type_invariant(&*self);
        }
        self.auto_peer = peer;
    }

    /// Force routing back to local (the emergency hotkey's escape hatch).
    pub fn force_local(&mut self) -> (d: RouteDecision)
        ensures
            final(self).config() == old(self).config(),
            final(self).state() == (EdgeState { route: Route::Local, ..old(self).state() }),
            d == (match old(self).state().route {
                Route::Local => RouteDecision::Stay,
                Route::Remote(screen) => RouteDecision::LeaveRemote { screen },
            }),
    {
        proof {
            use_type_invariant(&*self);
        }
        match self.route {
            Route::Local => RouteDecision::Stay,
            Route::Remote(screen) => {
                self.route = Route::Local;
                RouteDecision::LeaveRemote { screen }
            },
        }
    }

    /// Whether [`EdgeDetector::observe`] can take `event`: a crossing must
    /// leave room for the parking point 2 px inside the crossed edge.
    pub fn can_observe(&self, event: &InputEvent) -> (b: bool)
        ensures
            b == observe_ok(self.config(), self.state(), *event),
    {
        proof {
            use_type_invariant(self);
        }
        if let InputEvent::Mouse(MouseEvent::Move { x, y }) = event {
            if let Route::Local = self.route {
                let t = self.edge_threshold as i64;
                let far_x = self.local_width as i64 - t;
                let far_y = self.local_height as i64 - t;
                let min = i32::MIN as i64;
                let in_range = (*x as i64) <= t || (far_x >= min && ((*x as i64) >= far_x || (*y as i64) <= t
                    || far_y >= min));
                if !in_range {
                    return false;
                }
                if let Some(side) = self.cross_local_edge(Point { x: *x, y: *y }) {
                    let target = match self.layout.neighbour_of(self.local, side) {
                        Some(s) => Some(s),
                        None => self.auto_peer,
                    };
                    if target.is_some() {
                        return self.local_width >= i32::MIN + 2 && self.local_height >= i32::MIN + 2;
                    }
                }
            }
        }
        true
    }

    /// Whether [`EdgeDetector::observe`] would send `event` to the remote
    /// peer.
    pub fn forwards(&self, event: &InputEvent) -> (b: bool)
        requires
            observe_ok(self.config(), self.state(), *event),
        ensures
            b == (observe_outcome(self.config(), self.state(), *event).2 == ForwardTo::Remote),
    {
        proof {
            use_type_invariant(self);
        }
        match self.route {
            Route::Remote(_) => true,
            Route::Local => {
                if let InputEvent::Mouse(MouseEvent::Move { x, y }) = event {
                    if let Some(side) = self.cross_local_edge(Point { x: *x, y: *y }) {
                        return match self.layout.neighbour_of(self.local, side) {
                            Some(_) => true,
                            None => self.auto_peer.is_some(),
                        };
                    }
                }
                false
            },
        }
    }

    /// Feed an input event. Returns the routing decision and whether the
    /// event goes to the remote peer or stays local.
    pub fn observe(&mut self, event: &InputEvent) -> (r: (RouteDecision, ForwardTo))
        requires
            observe_ok(old(self).config(), old(self).state(), *event),
        ensures
            final(self).config() == old(self).config(),
            ({
                let o = observe_outcome(old(self).config(), old(self).state(), *event);
                final(self).state() == o.0 && r.0 == o.1 && r.1 == o.2
            }),
    {
        proof {
            use_type_invariant(&*self);
        }
        if let InputEvent::Key(k) = event {
            self.modifiers = k.modifiers;
        }
        if let InputEvent::ModifierSync(m) = event {
            self.modifiers = *m;
        }
        match event {
            InputEvent::Mouse(MouseEvent::Move { x, y }) => {
                self.last_point = Point { x: *x, y: *y };
                match self.route {
                    Route::Local => {
                        if let Some(side) = self.cross_local_edge(self.last_point) {
                            let target = match self.layout.neighbour_of(self.local, side) {
                                Some(s) => Some(s),
                                None => self.auto_peer,
                            };
                            if let Some(remote) = target {
                                let entry = entry_point(side, self.last_point);
                                let warp = warp_back_inside(side, self.local_width, self.local_height);
                                self.route = Route::Remote(remote);
                                return (
                                    RouteDecision::EnterRemote {
                                        screen: remote,
                                        entry,
                                        local_warp: warp,
                                        modifiers: self.modifiers,
                                    },
                                    ForwardTo::Remote,
                                );
                            }
                        }
                        (RouteDecision::Stay, ForwardTo::Local)
                    },
                    Route::Remote(_) => (RouteDecision::Stay, ForwardTo::Remote),
                }
            },
            _ => match self.route {
                Route::Local => (RouteDecision::Stay, ForwardTo::Local),
                Route::Remote(_) => (RouteDecision::Stay, ForwardTo::Remote),
            },
        }
    }

    /// The edge the point touches, if any.
    fn cross_local_edge(&self, p: Point) -> (r: Option<EdgeSide>)
        requires
            edge_test_ok(p, self.config().width, self.config().height, self.config().threshold),
        ensures
            r == edge_crossed(p, self.local_width, self.local_height, self.edge_threshold),
    {
        proof {
            use_type_invariant(self);
        }
        if p.x <= self.edge_threshold {
            return Some(EdgeSide::Left);
        }
        if p.x >= self.local_width - self.edge_threshold {
            return Some(EdgeSide::Right);
        }
        if p.y <= self.edge_threshold {
            return Some(EdgeSide::Top);
        }
        if p.y >= self.local_height - self.edge_threshold {
            return Some(EdgeSide::Bottom);
        }
        None
    }
}

/// Point on the far screen where the cursor appears after crossing.
fn entry_point(crossed: EdgeSide, local_pos: Point) -> (p: Point)
    ensures
        p == spec_entry_point(crossed, local_pos),
{
    match crossed {
        EdgeSide::Left => Point { x: 32_000, y: local_pos.y },
        EdgeSide::Right => Point { x: 0, y: local_pos.y },
        EdgeSide::Top => Point { x: local_pos.x, y: 32_000 },
        EdgeSide::Bottom => Point { x: local_pos.x, y: 0 },
    }
}

/// Where the local cursor is parked after control moves to a peer.
fn warp_back_inside(crossed: EdgeSide, w: i32, h: i32) -> (p: Point)
    requires
        w >= i32::MIN + 2,
        h >= i32::MIN + 2,
    ensures
        p == spec_warp_back_inside(crossed, w, h),
{
    match crossed {
        EdgeSide::Left => Point { x: 2, y: h / 2 },
        EdgeSide::Right => Point { x: w - 2, y: h / 2 },
        EdgeSide::Top => Point { x: w / 2, y: 2 },
        EdgeSide::Bottom => Point { x: w / 2, y: h - 2 },
    }
}

/// Law: once input is routed to a peer, no event brings it back; only
/// [`EdgeDetector::force_local`] does. While remote, every event is
/// forwarded and no decision is taken.
pub proof fn lemma_remote_is_sticky(c: EdgeConfig, s: EdgeState, ev: InputEvent)
    requires
        s.route is Remote,
    ensures
        observe_outcome(c, s, ev).0.route == s.route,
        observe_outcome(c, s, ev).1 == RouteDecision::Stay,
        observe_outcome(c, s, ev).2 == ForwardTo::Remote,
{
}

/// Law: an event is forwarded to the peer exactly when, after it, input is
/// routed to a peer.
pub proof fn lemma_forward_matches_route(c: EdgeConfig, s: EdgeState, ev: InputEvent)
    ensures
        (observe_outcome(c, s, ev).2 == ForwardTo::Remote) == (observe_outcome(c, s, ev).0.route is Remote),
{
}

/// Law: routing leaves the local machine only on a mouse move that touches
/// an edge with a screen behind it, and the decision names that screen, the
/// entry point on its facing edge and the modifiers held.
pub proof fn lemma_enter_only_at_edge(c: EdgeConfig, s: EdgeState, ev: InputEvent)
    requires
        s.route is Local,
        observe_outcome(c, s, ev).0.route is Remote,
    ensures
        ev matches InputEvent::Mouse(MouseEvent::Move { x, y }) && ({
            let p = Point { x, y };
            &&& edge_crossed(p, c.width, c.height, c.threshold) matches Some(side)
            &&& crossing_target(c.neighbours, c.local, side, c.auto_peer) == Some(
                observe_outcome(c, s, ev).0.route->Remote_0,
            )
            &&& observe_outcome(c, s, ev).1 == (RouteDecision::EnterRemote {
                screen: observe_outcome(c, s, ev).0.route->Remote_0,
                entry: spec_entry_point(side, p),
                local_warp: spec_warp_back_inside(side, c.width, c.height),
                modifiers: modifiers_after(s.modifiers, ev),
            })
        }),
{
}

/// Law: the route changes only when a local route enters a peer's screen on
/// a mouse move, and the decision then names the screen now routed to; when
/// the route stays, the decision is to stay.
pub proof fn lemma_route_changes_only_on_entry(c: EdgeConfig, s: EdgeState, ev: InputEvent)
    ensures
        ({
            let (s1, d, _f) = observe_outcome(c, s, ev);
            &&& s1.route != s.route ==> s.route is Local && ev is Mouse && (ev->Mouse_0 is Move)
                && (d matches RouteDecision::EnterRemote { screen, .. } && s1.route == Route::Remote(screen))
            &&& s1.route == s.route ==> d == RouteDecision::Stay
        }),
{
}

/// Law: the modifiers held by the last key event or modifier sync travel
/// with the next crossing to a peer's screen.
pub proof fn lemma_held_modifiers_travel(c: EdgeConfig, s: EdgeState, held: InputEvent, x: i32, y: i32)
    requires
        s.route is Local,
        held is Key || held is ModifierSync,
        edge_crossed(Point { x, y }, c.width, c.height, c.threshold) matches Some(side) && crossing_target(
            c.neighbours,
            c.local,
            side,
            c.auto_peer,
        ) is Some,
    ensures
        ({
            let s1 = observe_outcome(c, s, held).0;
            observe_outcome(c, s1, InputEvent::Mouse(MouseEvent::Move { x, y })).1 matches RouteDecision::EnterRemote {
                modifiers,
                ..
            } && modifiers == (match held {
                InputEvent::Key(k) => k.modifiers,
                InputEvent::ModifierSync(m) => m,
                _ => s.modifiers,
            })
        }),
{
}

/// Law: a mouse move inside the screen (away from every edge) never changes
/// the route.
pub proof fn lemma_inside_stays(c: EdgeConfig, s: EdgeState, x: i32, y: i32)
    requires
        edge_crossed(Point { x, y }, c.width, c.height, c.threshold) is None,
    ensures
        observe_outcome(c, s, InputEvent::Mouse(MouseEvent::Move { x, y })).0.route == s.route,
        observe_outcome(c, s, InputEvent::Mouse(MouseEvent::Move { x, y })).1 == RouteDecision::Stay,
{
}

/// Law: the point where the local cursor is parked after a crossing does not
/// itself touch an edge (so the next move does not bounce), on any screen at
/// least 4 px wide and high with the default 1 px threshold.
pub proof fn lemma_warp_is_inside(side: EdgeSide, w: i32, h: i32)
    requires
        w >= 4,
        h >= 4,
    ensures
        edge_crossed(spec_warp_back_inside(side, w, h), w, h, 1) is None,
{
}

/// The far screen's coordinates run from 0 to 32 000 on each axis, whatever
/// its size: `p` lies on its `side` edge.
pub open spec fn on_far_edge(p: Point, side: EdgeSide) -> bool {
    match side {
        EdgeSide::Left => p.x == 0,
        EdgeSide::Right => p.x == 32_000,
        EdgeSide::Top => p.y == 0,
        EdgeSide::Bottom => p.y == 32_000,
    }
}

/// The coordinate of `p` along the edges of `side` (the one a crossing
/// keeps): `y` for the left and right edges, `x` for the top and bottom.
pub open spec fn along(p: Point, side: EdgeSide) -> i32 {
    match side {
        EdgeSide::Left | EdgeSide::Right => p.y,
        EdgeSide::Top | EdgeSide::Bottom => p.x,
    }
}

/// How far `p` lies from the `side` edge of a `w` by `h` screen.
pub open spec fn distance_to_edge(p: Point, side: EdgeSide, w: i32, h: i32) -> int {
    match side {
        EdgeSide::Left => p.x as int,
        EdgeSide::Right => w - p.x,
        EdgeSide::Top => p.y as int,
        EdgeSide::Bottom => h - p.y,
    }
}

/// Law: the entry point lies on the far screen's edge facing the crossed
/// one (crossing a side enters through the opposite side), keeping the
/// coordinate along the edge.
pub proof fn lemma_entry_on_facing_edge(side: EdgeSide, p: Point)
    ensures
        on_far_edge(spec_entry_point(side, p), side.spec_opposite()),
        along(spec_entry_point(side, p), side) == along(p, side),
        side == EdgeSide::Right ==> spec_entry_point(side, p).x == 0 && spec_entry_point(side, p).y == p.y,
        side == EdgeSide::Bottom ==> spec_entry_point(side, p).y == 0 && spec_entry_point(side, p).x == p.x,
        side == EdgeSide::Left ==> spec_entry_point(side, p).x == 32_000 && spec_entry_point(side, p).y == p.y,
        side == EdgeSide::Top ==> spec_entry_point(side, p).y == 32_000 && spec_entry_point(side, p).x == p.x,
{
}

/// Law: the local cursor is parked 2 px inside the crossed edge, halfway
/// along it.
pub proof fn lemma_warp_near_crossed_edge(side: EdgeSide, w: i32, h: i32)
    requires
        w >= i32::MIN + 2,
        h >= i32::MIN + 2,
    ensures
        distance_to_edge(spec_warp_back_inside(side, w, h), side, w, h) == 2,
        along(spec_warp_back_inside(side, w, h), side) == half(
            match side {
                EdgeSide::Left | EdgeSide::Right => h,
                EdgeSide::Top | EdgeSide::Bottom => w,
            },
        ),
{
}

/// Law: when input moves to a peer, the cursor enters the peer's screen on
/// the edge facing the one it crossed locally, at the same position along
/// that edge, and the local cursor is parked 2 px inside the crossed edge.
pub proof fn lemma_crossing_enters_facing_edge(c: EdgeConfig, s: EdgeState, x: i32, y: i32)
    requires
        s.route is Local,
        c.width >= i32::MIN + 2,
        c.height >= i32::MIN + 2,
        edge_crossed(Point { x, y }, c.width, c.height, c.threshold) matches Some(side) && crossing_target(
            c.neighbours,
            c.local,
            side,
            c.auto_peer,
        ) is Some,
    ensures
        ({
            let side = edge_crossed(Point { x, y }, c.width, c.height, c.threshold)->0;
            observe_outcome(c, s, InputEvent::Mouse(MouseEvent::Move { x, y })).1 matches RouteDecision::EnterRemote {
                entry,
                local_warp,
                ..
            } && on_far_edge(entry, side.spec_opposite()) && along(entry, side) == along(Point { x, y }, side)
                && distance_to_edge(local_warp, side, c.width, c.height) == 2
        }),
{
    let side = edge_crossed(Point { x, y }, c.width, c.height, c.threshold)->0;
    lemma_entry_on_facing_edge(side, Point { x, y });
    lemma_warp_near_crossed_edge(side, c.width, c.height);
}

} // verus!
