//! The session orchestrator's decisions, as functions from state and event to
//! next state and action. The caller performs the actions (sending to peers,
//! moving the cursor, injecting input) and feeds events back in.
use crate::edge::{
    observe_ok, EdgeConfig,
    modifiers_after, observe_outcome, EdgeDetector, EdgeState, ForwardTo, Route, RouteDecision,
};
use crate::event::{InputEvent, KeyCode, KeyEvent, KeyState, ModifierState, MouseEvent};
use crate::message::{FileChunk, FileOffer, Message};
use crate::clipboard::{ClipboardManager, ClipboardView};
use crate::config::{Config, ServerRole};
use crate::filetransfer::{FileTransferManager, RecvView};
use crate::id::{PeerId, ScreenId};
use crate::screen::{Point, ScreenInfo, ScreenLayout};
use crate::text::{path_join, joined_path};
use vstd::prelude::*;

verus! {

/// Whether the event is the emergency hotkey: Escape pressed with Ctrl, Alt
/// and Shift held.
pub open spec fn spec_is_emergency(event: InputEvent) -> bool {
    event matches InputEvent::Key(k) && k.state == KeyState::Pressed && k.code == KeyCode::Escape
        && k.modifiers.spec_contains(ModifierState { bits: 2 }) && k.modifiers.spec_contains(
        ModifierState { bits: 4 },
    ) && k.modifiers.spec_contains(ModifierState { bits: 1 })
}

/// Whether the event is the emergency hotkey (Ctrl+Alt+Shift+Escape pressed).
pub fn is_emergency(event: &InputEvent) -> (b: bool)
    ensures
        b == spec_is_emergency(*event),
{
    if let InputEvent::Key(k) = event {
        if matches!(k.state, KeyState::Pressed) && k.code == KeyCode::Escape && k.modifiers.contains(
            ModifierState::ctrl(),
        ) && k.modifiers.contains(ModifierState::alt()) && k.modifiers.contains(
            ModifierState::shift(),
        ) {
            return true;
        }
    }
    false
}

/// The key presses that put a peer's modifiers into state `target` after all
/// its modifiers were released: left Shift, Ctrl, Alt and Super, in that
/// order, for each that `target` holds.
pub open spec fn resync_presses(target: ModifierState) -> Seq<KeyEvent> {
    let press = |code: KeyCode| KeyEvent { code, state: KeyState::Pressed, modifiers: target, character: None };
    (if target.spec_contains(ModifierState { bits: 1 }) { seq![press(KeyCode::LeftShift)] } else { seq![] })
    + (if target.spec_contains(ModifierState { bits: 2 }) { seq![press(KeyCode::LeftCtrl)] } else { seq![] })
    + (if target.spec_contains(ModifierState { bits: 4 }) { seq![press(KeyCode::LeftAlt)] } else { seq![] })
    + (if target.spec_contains(ModifierState { bits: 8 }) { seq![press(KeyCode::LeftSuper)] } else { seq![] })
}

/// The key presses to inject, after releasing every modifier, so that the
/// held modifiers become `target`.
pub fn resync_key_events(target: ModifierState) -> (v: Vec<KeyEvent>)
    ensures
        v@ == resync_presses(target),
{
    let mut v: Vec<KeyEvent> = Vec::new();
    if target.contains(ModifierState::shift()) {
        v.push(KeyEvent { code: KeyCode::LeftShift, state: KeyState::Pressed, modifiers: target, character: None });
    }
    let ghost a = v@;
    if target.contains(ModifierState::ctrl()) {
        v.push(KeyEvent { code: KeyCode::LeftCtrl, state: KeyState::Pressed, modifiers: target, character: None });
    }
    let ghost b = v@;
    if target.contains(ModifierState::alt()) {
        v.push(KeyEvent { code: KeyCode::LeftAlt, state: KeyState::Pressed, modifiers: target, character: None });
    }
    let ghost c = v@;
    if target.contains(ModifierState::super_key()) {
        v.push(KeyEvent { code: KeyCode::LeftSuper, state: KeyState::Pressed, modifiers: target, character: None });
    }
    assert(v@ =~= resync_presses(target));
    v
}

/// What a routing decision asks of the orchestrator: messages for the active
/// peer (sent only when there is one), where to park the local cursor, and
/// whether local capture should now swallow input.
#[derive(Debug, Clone)]
pub struct DecisionEffects {
    pub peer_messages: Vec<Message>,
    pub warp: Option<Point>,
    pub capturing: Option<bool>,
}

/// The messages a decision sends to the active peer.
pub open spec fn decision_messages(d: RouteDecision) -> Seq<Message> {
    match d {
        RouteDecision::Stay => seq![],
        RouteDecision::EnterRemote { entry, modifiers, .. } => seq![
            Message::ScreenEnter { x: entry.x, y: entry.y, modifiers },
        ],
        RouteDecision::LeaveRemote { screen } => seq![
            Message::ScreenLeave { peer_screen: screen.0 },
            Message::ModifierSync(ModifierState { bits: 0 }),
        ],
    }
}

/// The effects of a routing decision: entering a peer's screen sends
/// `ScreenEnter`, parks the cursor and starts capturing; leaving sends
/// `ScreenLeave` and an empty `ModifierSync` and stops capturing.
pub fn apply_decision(decision: &RouteDecision) -> (e: DecisionEffects)
    ensures
        e.peer_messages@ == decision_messages(*decision),
        e.warp == (match *decision {
            RouteDecision::EnterRemote { local_warp, .. } => Some(local_warp),
            _ => None,
        }),
        e.capturing == (match *decision {
            RouteDecision::Stay => None,
            RouteDecision::EnterRemote { .. } => Some(true),
            RouteDecision::LeaveRemote { .. } => Some(false),
        }),
{
    match decision {
        RouteDecision::Stay => DecisionEffects { peer_messages: Vec::new(), warp: None, capturing: None },
        RouteDecision::EnterRemote { entry, local_warp, modifiers, .. } => {
            let mut v: Vec<Message> = Vec::new();
            v.push(Message::ScreenEnter { x: entry.x, y: entry.y, modifiers: *modifiers });
            assert(v@ =~= decision_messages(*decision));
            DecisionEffects { peer_messages: v, warp: Some(*local_warp), capturing: Some(true) }
        },
        RouteDecision::LeaveRemote { screen } => {
            let mut v: Vec<Message> = Vec::new();
            v.push(Message::ScreenLeave { peer_screen: screen.0 });
            v.push(Message::ModifierSync(ModifierState::empty()));
            assert(v@ =~= decision_messages(*decision));
            DecisionEffects { peer_messages: v, warp: None, capturing: Some(false) }
        },
    }
}

/// The outcome of one captured event: the routing decision and the message
/// to forward to the active peer, if any.
#[derive(Debug, Clone)]
pub struct CaptureStep {
    pub decision: RouteDecision,
    pub forward: Option<Message>,
}

/// Whether the movement from `prev` to `cur` fits in `i32` on both axes.
pub open spec fn delta_fits(prev: Point, cur: Point) -> bool {
    i32::MIN <= cur.x - prev.x <= i32::MAX && i32::MIN <= cur.y - prev.y <= i32::MAX
}

/// Routes captured events: runs the edge detector and turns absolute moves
/// into relative deltas while input goes to a peer (the local cursor is
/// parked near the edge, so the peer needs how far the user moved, not where
/// the cursor is).
pub struct CaptureRouter {
    pub edge: EdgeDetector,
    pub last_mouse: Option<Point>,
}

impl CaptureRouter {
    /// A router over `edge` that has seen no mouse position yet.
    pub fn new(edge: EdgeDetector) -> (r: Self)
        ensures
            r.edge == edge,
            r.last_mouse is None,
    {
        CaptureRouter { edge, last_mouse: None }
    }

    /// Whether `event` can be processed with or without a peer: the edge
    /// detector can take it, and a move forwarded to a peer has a delta
    /// from the last position that fits in `i32`.
    pub open spec fn can_process(&self, event: InputEvent, has_peer: bool) -> bool {
        &&& observe_ok(self.edge.config(), self.edge.state(), event)
        &&& match event {
            InputEvent::Mouse(MouseEvent::Move { x, y }) => has_peer && observe_outcome(
                self.edge.config(),
                self.edge.state(),
                event,
            ).2 == ForwardTo::Remote ==> (self.last_mouse matches Some(prev) ==> delta_fits(prev, Point { x, y })),
            _ => true,
        }
    }

    /// Whether [`CaptureRouter::on_event`] can take `event`.
    pub fn can_take(&self, event: &InputEvent, has_peer: bool) -> (b: bool)
        ensures
            b == self.can_process(*event, has_peer),
    {
        if !self.edge.can_observe(event) {
            return false;
        }
        if let InputEvent::Mouse(MouseEvent::Move { x, y }) = event {
            if has_peer && self.edge.forwards(event) {
                if let Some(prev) = self.last_mouse {
                    let dx = *x as i64 - prev.x as i64;
                    let dy = *y as i64 - prev.y as i64;
                    return i32::MIN as i64 <= dx && dx <= i32::MAX as i64 && i32::MIN as i64 <= dy && dy
                        <= i32::MAX as i64;
                }
            }
        }
        true
    }

    /// Process one captured event. `has_peer` tells whether a peer is
    /// connected to forward to.
    ///
    /// The emergency hotkey forces routing back to local and forgets the last
    /// mouse position. Otherwise the edge detector decides; an event it sends
    /// to the peer is forwarded when a peer is connected, a mouse move as the
    /// delta from the last position (dropped when zero), any other event as
    /// its wire message. While routing is local, mouse moves only update the
    /// last position.
    pub fn on_event(&mut self, event: InputEvent, has_peer: bool) -> (step: CaptureStep)
        requires
            old(self).can_process(event, has_peer),
        ensures
            spec_is_emergency(event) ==> {
                &&& final(self).edge.config() == old(self).edge.config()
                &&& final(self).edge.state() == (EdgeState { route: Route::Local, ..old(self).edge.state() })
                &&& final(self).last_mouse is None
                &&& step.decision == (match old(self).edge.state().route {
                    Route::Local => RouteDecision::Stay,
                    Route::Remote(screen) => RouteDecision::LeaveRemote { screen },
                })
                &&& step.forward is None
            },
            !spec_is_emergency(event) ==> {
                let o = observe_outcome(old(self).edge.config(), old(self).edge.state(), event);
                &&& final(self).edge.config() == old(self).edge.config()
                &&& final(self).edge.state() == o.0
                &&& step.decision == o.1
                &&& (o.2 == ForwardTo::Local ==> step.forward is None && final(self).last_mouse == (
                    match event {
                        InputEvent::Mouse(MouseEvent::Move { x, y }) => Some(Point { x, y }),
                        _ => old(self).last_mouse,
                    }))
                &&& (o.2 == ForwardTo::Remote && !has_peer ==> step.forward is None
                    && final(self).last_mouse == old(self).last_mouse)
                &&& (o.2 == ForwardTo::Remote && has_peer ==> match event {
                    InputEvent::Mouse(MouseEvent::Move { x, y }) => {
                        let (dx, dy) = match old(self).last_mouse {
                            Some(prev) => (x - prev.x, y - prev.y),
                            None => (0int, 0int),
                        };
                        &&& final(self).last_mouse == Some(Point { x, y })
                        &&& step.forward == (if dx == 0 && dy == 0 {
                            None
                        } else {
                            Some(Message::MouseMoveRelative { dx: dx as i32, dy: dy as i32 })
                        })
                    },
                    _ => final(self).last_mouse == old(self).last_mouse && step.forward == Some(
                        Message::spec_from_input(event),
                    ),
                })
            },
    {
        if is_emergency(&event) {
            self.last_mouse = None;
            let decision = self.edge.force_local();
            return CaptureStep { decision, forward: None };
        }
        let (decision, forward) = self.edge.observe(&event);
        if forward == ForwardTo::Remote {
            if has_peer {
                let msg = match event {
                    InputEvent::Mouse(MouseEvent::Move { x, y }) => {
                        let cur = Point { x, y };
                        let (dx, dy) = match self.last_mouse {
                            Some(prev) => (cur.x - prev.x, cur.y - prev.y),
                            None => (0i32, 0i32),
                        };
                        self.last_mouse = Some(cur);
                        if dx == 0 && dy == 0 {
                            return CaptureStep { decision, forward: None };
                        }
                        Message::from_input(InputEvent::Mouse(MouseEvent::MoveRelative { dx, dy }))
                    },
                    _ => Message::from_input(event),
                };
                return CaptureStep { decision, forward: Some(msg) };
            }
            CaptureStep { decision, forward: None }
        } else {
            if let InputEvent::Mouse(MouseEvent::Move { x, y }) = event {
                self.last_mouse = Some(Point { x, y });
            }
            CaptureStep { decision, forward: None }
        }
    }
}

/// Law: the emergency hotkey always returns control to the local machine,
/// whatever the route was, and asks the peer to leave only if input was
/// routed to it.
pub proof fn lemma_emergency_returns_control(
    before: EdgeState,
    after: EdgeState,
    decision: RouteDecision,
)
    requires
        after == (EdgeState { route: Route::Local, ..before }),
        decision == (match before.route {
            Route::Local => RouteDecision::Stay,
            Route::Remote(screen) => RouteDecision::LeaveRemote { screen },
        }),
    ensures
        after.route == Route::Local,
        before.route is Remote ==> decision_messages(decision).len() == 2 && decision_messages(
            decision,
        )[1] == Message::ModifierSync(ModifierState { bits: 0 }),
        before.route is Local ==> decision_messages(decision).len() == 0,
{
}

/// What the orchestrator does with a message received from a peer.
#[derive(Debug, Clone)]
pub enum InboundAction {
    /// Send this message back to the peer.
    Reply(Message),
    /// Inject this event locally.
    Inject(InputEvent),
    /// Move the cursor to the entry point, then release every modifier and
    /// press those of the given state.
    EnterScreen { x: i32, y: i32, modifiers: ModifierState },
    /// Release every held modifier.
    ReleaseModifiers,
    /// Release every modifier, then press those of the given state.
    ResyncModifiers(ModifierState),
    /// Hand the message to the clipboard manager.
    Clipboard(Message),
    /// Start receiving a file transfer.
    FileOffer(FileOffer),
    /// Write a received file chunk.
    FileChunk(FileChunk),
    /// The peer cancelled a transfer.
    TransferCancelled { transfer_id: u64, reason: String },
    /// The peer said goodbye.
    Goodbye { reason: String },
    /// Nothing to do.
    Ignore,
}

/// The action for each inbound message. Input messages are acted on only by
/// a client (the controlled machine); pings are answered with a pong that
/// echoes nonce and timestamp.
pub open spec fn spec_inbound_action(msg: Message, is_client: bool) -> InboundAction {
    match msg {
        Message::Ping { nonce, timestamp_ms } => InboundAction::Reply(Message::Pong { nonce, timestamp_ms }),
        Message::Pong { .. } => InboundAction::Ignore,
        Message::MouseMove { x, y } => if is_client {
            InboundAction::Inject(InputEvent::Mouse(MouseEvent::Move { x, y }))
        } else {
            InboundAction::Ignore
        },
        Message::MouseButton(e) => if is_client { InboundAction::Inject(InputEvent::Mouse(e)) } else { InboundAction::Ignore },
        Message::MouseScroll(e) => if is_client { InboundAction::Inject(InputEvent::Mouse(e)) } else { InboundAction::Ignore },
        Message::KeyEvent(k) => if is_client { InboundAction::Inject(InputEvent::Key(k)) } else { InboundAction::Ignore },
        Message::ScreenEnter { x, y, modifiers } => if is_client {
            InboundAction::EnterScreen { x, y, modifiers }
        } else {
            InboundAction::Ignore
        },
        Message::ScreenLeave { .. } => if is_client { InboundAction::ReleaseModifiers } else { InboundAction::Ignore },
        Message::ModifierSync(m) => if is_client { InboundAction::ResyncModifiers(m) } else { InboundAction::Ignore },
        Message::ClipboardFormats { .. } => InboundAction::Clipboard(msg),
        Message::ClipboardRequest { .. } => InboundAction::Clipboard(msg),
        Message::ClipboardData(_) => InboundAction::Clipboard(msg),
        Message::FileOfferStart(o) => InboundAction::FileOffer(o),
        Message::FileChunk(c) => InboundAction::FileChunk(c),
        Message::FileTransferCancel { transfer_id, reason } => InboundAction::TransferCancelled { transfer_id, reason },
        Message::FileAck { .. } => InboundAction::Ignore,
        Message::Goodbye(g) => InboundAction::Goodbye { reason: g.reason },
        _ => InboundAction::Ignore,
    }
}

/// Law: a client entering the screen moves the cursor to exactly the point
/// and holds exactly the modifiers the server's message names.
pub proof fn lemma_screen_enter_taken_as_sent(x: i32, y: i32, modifiers: ModifierState)
    ensures
        spec_inbound_action(Message::ScreenEnter { x, y, modifiers }, true) matches InboundAction::EnterScreen {
            x: ex,
            y: ey,
            modifiers: em,
        } && ex == x && ey == y && em == modifiers,
        spec_inbound_action(Message::ScreenEnter { x, y, modifiers }, false) == InboundAction::Ignore,
{
}

/// Law: what a server forwards of an input event, a client acts on as that
/// same event: pointer moves, buttons, scrolls and keys are injected
/// unchanged, a screen entry moves the cursor to the same point with the
/// same modifiers, and a modifier sync holds the same modifiers.
pub proof fn lemma_client_replays_forwarded_input(ev: InputEvent)
    ensures
        ({
            let a = spec_inbound_action(Message::spec_from_input(ev), true);
            match ev {
                InputEvent::Mouse(MouseEvent::MoveRelative { .. }) => true,
                InputEvent::Mouse(m) => a == InboundAction::Inject(ev),
                InputEvent::Key(k) => a == InboundAction::Inject(ev),
                InputEvent::ScreenEnter { x, y, modifiers } => a matches InboundAction::EnterScreen {
                    x: ex,
                    y: ey,
                    modifiers: em,
                } && ex == x && ey == y && em == modifiers,
                InputEvent::ScreenLeave { .. } => a == InboundAction::ReleaseModifiers,
                InputEvent::ModifierSync(m) => a == InboundAction::ResyncModifiers(m),
            }
        }),
{
}

/// Decide what to do with a message received from a peer.
pub fn inbound_action(msg: Message, is_client: bool) -> (a: InboundAction)
    ensures
        a == spec_inbound_action(msg, is_client),
{
    match msg {
        Message::Ping { nonce, timestamp_ms } => InboundAction::Reply(Message::Pong { nonce, timestamp_ms }),
        Message::Pong { .. } => InboundAction::Ignore,
        Message::MouseMove { x, y } => if is_client {
            InboundAction::Inject(InputEvent::Mouse(MouseEvent::Move { x, y }))
        } else {
            InboundAction::Ignore
        },
        Message::MouseButton(e) => if is_client { InboundAction::Inject(InputEvent::Mouse(e)) } else { InboundAction::Ignore },
        Message::MouseScroll(e) => if is_client { InboundAction::Inject(InputEvent::Mouse(e)) } else { InboundAction::Ignore },
        Message::KeyEvent(k) => if is_client { InboundAction::Inject(InputEvent::Key(k)) } else { InboundAction::Ignore },
        Message::ScreenEnter { x, y, modifiers } => if is_client {
            InboundAction::EnterScreen { x, y, modifiers }
        } else {
            InboundAction::Ignore
        },
        Message::ScreenLeave { .. } => if is_client { InboundAction::ReleaseModifiers } else { InboundAction::Ignore },
        Message::ModifierSync(m) => if is_client { InboundAction::ResyncModifiers(m) } else { InboundAction::Ignore },
        Message::ClipboardFormats { .. } => InboundAction::Clipboard(msg),
        Message::ClipboardRequest { .. } => InboundAction::Clipboard(msg),
        Message::ClipboardData(_) => InboundAction::Clipboard(msg),
        Message::FileOfferStart(o) => InboundAction::FileOffer(o),
        Message::FileChunk(c) => InboundAction::FileChunk(c),
        Message::FileTransferCancel { transfer_id, reason } => InboundAction::TransferCancelled { transfer_id, reason },
        Message::FileAck { .. } => InboundAction::Ignore,
        Message::Goodbye(g) => InboundAction::Goodbye { reason: g.reason },
        _ => InboundAction::Ignore,
    }
}

/// The text "./inputsync-drop".
pub open spec fn fallback_drop_dir() -> Seq<char> {
    seq!['.', '/', 'i', 'n', 'p', 'u', 't', 's', 'y', 'n', 'c', '-', 'd', 'r', 'o', 'p']
}

/// Where received files go when the configuration names no directory: an
/// `InputSync` folder in the user's download folder (as the caller found
/// it), else `./inputsync-drop`.
pub open spec fn spec_default_drop_dir(download_dir: Option<Seq<char>>) -> Seq<char> {
    match download_dir {
        Some(d) => joined_path(d, seq!['I', 'n', 'p', 'u', 't', 'S', 'y', 'n', 'c']),
        None => fallback_drop_dir(),
    }
}

/// The session's drop directory: the configured one, else the default.
pub fn session_drop_dir(config: &Config, download_dir: Option<String>) -> (d: String)
    ensures
        d@ == (match config.file_transfer.drop_dir {
            Some(c) => c@,
            None => spec_default_drop_dir(match download_dir {
                Some(x) => Some(x@),
                None => None,
            }),
        }),
{
    proof {
        reveal_strlit("InputSync");
        reveal_strlit("./inputsync-drop");
    }
    match &config.file_transfer.drop_dir {
        Some(c) => c.clone(),
        None => match download_dir {
            Some(x) => {
                assert("InputSync"@ =~= seq!['I', 'n', 'p', 'u', 't', 'S', 'y', 'n', 'c']);
                path_join(x.as_str(), "InputSync")
            },
            None => {
                assert("./inputsync-drop"@ =~= fallback_drop_dir());
                String::from_str("./inputsync-drop")
            },
        },
    }
}

/// A session's own state: its role and configuration, the local peer's
/// identifier, clipboard sync, and incoming file transfers. The platform
/// backend and the network stay with the caller.
pub struct Session {
    pub role: ServerRole,
    pub config: Config,
    pub local_peer_id: PeerId,
    pub clipboard: ClipboardManager,
    pub filetransfer: FileTransferManager,
}

impl Session {
    /// A session for `role` and `config`: clipboard sync that has seen
    /// nothing, capped at the configured size, and no file transfer yet, into the configured drop directory
    /// or the default one under `download_dir` (as the caller found it).
    pub fn new(role: ServerRole, config: Config, local_peer_id: PeerId, download_dir: Option<String>) -> (s: Self)
        ensures
            s.role == role,
            s.config == config,
            s.local_peer_id == local_peer_id,
            s.clipboard.view() == (ClipboardView { originators: Map::empty(), last_hash: None, local: local_peer_id }),
            s.clipboard.max_bytes == config.clipboard.max_bytes,
            s.filetransfer.drop_dir@ == (match config.file_transfer.drop_dir {
                Some(c) => c@,
                None => spec_default_drop_dir(match download_dir {
                    Some(x) => Some(x@),
                    None => None,
                }),
            }),
            s.filetransfer.receiver.view() == Map::<u64, RecvView>::empty(),
            s.filetransfer.receiver.spec_drop_dir() == s.filetransfer.drop_dir@,
    {
        let drop_dir = session_drop_dir(&config, download_dir);
        let max_bytes = config.clipboard.max_bytes;
        Session {
            role,
            config,
            local_peer_id,
            clipboard: ClipboardManager::new(local_peer_id, max_bytes),
            filetransfer: FileTransferManager::new(drop_dir),
        }
    }

    /// Where received files go.
    pub fn drop_dir(&self) -> (d: String)
        ensures
            d == self.filetransfer.drop_dir,
    {
        self.filetransfer.drop_dir.clone()
    }
}

/// The local screen a server session routes from: the one the platform
/// reported, else a 1920 by 1080 screen 0; each side at least 1 pixel.
pub open spec fn routed_screen(local: Option<ScreenInfo>) -> (ScreenId, i32, i32) {
    match local {
        Some(s) => (s.id, if s.width < 1 { 1i32 } else { s.width }, if s.height < 1 { 1i32 } else { s.height }),
        None => (ScreenId(0), 1920i32, 1080i32),
    }
}

/// The edge detector of a server session for the local screen the platform
/// reported (if it could) and the configured layout.
pub fn server_edge_detector(local: Option<ScreenInfo>, layout: ScreenLayout) -> (d: EdgeDetector)
    ensures
        d.config().local == routed_screen(local).0,
        d.config().width == routed_screen(local).1,
        d.config().height == routed_screen(local).2,
        d.config().threshold == 1,
        d.config().neighbours == layout.neighbours@,
        d.config().auto_peer is None,
        d.config().screens == layout.screens@,
        d.state().route == Route::Local,
        d.state().last_point == (Point { x: 0, y: 0 }),
        d.state().modifiers.bits == 0,
{
    let (id, w, h) = match local {
        Some(s) => (s.id, if s.width < 1 { 1i32 } else { s.width }, if s.height < 1 { 1i32 } else { s.height }),
        None => (ScreenId(0), 1920i32, 1080i32),
    };
    EdgeDetector::new(id, w, h, layout)
}

/// The screen the server gives its first client, where edge crossings go
/// when the layout names no neighbour.
pub open spec fn first_client_screen_id() -> ScreenId {
    ScreenId(1)
}

/// The peers a server session is connected to.
#[derive(Debug, Clone)]
pub struct ServerPeers {
    pub ids: Vec<PeerId>,
}

/// While any peer is connected, edge crossings with no layout neighbour go
/// to the first client's screen; with none connected they go nowhere.
pub open spec fn auto_peer_follows(ids: Seq<PeerId>, c: EdgeConfig) -> bool {
    c.auto_peer == (if ids.len() > 0 { Some(first_client_screen_id()) } else { None })
}

impl ServerPeers {
    /// No peer yet.
    pub fn new() -> (p: Self)
        ensures
            p.ids@.len() == 0,
    {
        ServerPeers { ids: Vec::new() }
    }

    /// A peer connected: it is tracked, and crossings with no layout
    /// neighbour now go to the first client's screen.
    pub fn on_connected(&mut self, id: PeerId, edge: &mut EdgeDetector)
        ensures
            final(self).ids@ == old(self).ids@.push(id),
            final(edge).config() == (EdgeConfig { auto_peer: Some(first_client_screen_id()), ..old(edge).config() }),
            final(edge).state() == old(edge).state(),
            auto_peer_follows(final(self).ids@, final(edge).config()),
    {
        self.ids.push(id);
        edge.set_auto_peer(Some(ScreenId(1)));
    }

    /// A peer disconnected: it is no longer tracked, and once none is left
    /// crossings with no layout neighbour go nowhere.
    pub fn on_disconnected(&mut self, id: PeerId, edge: &mut EdgeDetector)
        ensures
            final(self).ids@ == old(self).ids@.filter(|p: PeerId| p != id),
            final(self).ids@.len() == 0 ==> final(edge).config() == (EdgeConfig {
                auto_peer: None,
                ..old(edge).config()
            }),
            final(self).ids@.len() > 0 ==> final(edge).config() == old(edge).config(),
            final(edge).state() == old(edge).state(),
            auto_peer_follows(old(self).ids@, old(edge).config()) ==> auto_peer_follows(
                final(self).ids@,
                final(edge).config(),
            ),
    {
        let ghost keep = |p: PeerId| p != id;
        let mut kept: Vec<PeerId> = Vec::new();
        let mut i: usize = 0;
        while i < self.ids.len()
            invariant
                i <= self.ids@.len(),
                kept@ == self.ids@.subrange(0, i as int).filter(keep),
                keep == (|p: PeerId| p != id),
            decreases self.ids@.len() - i,
        {
            let p = self.ids[i];
            proof {
                let next = self.ids@.subrange(0, i + 1);
                assert(next.drop_last() =~= self.ids@.subrange(0, i as int));
                reveal_with_fuel(Seq::filter, 1);
            }
            if p != id {
                kept.push(p);
            }
            i = i + 1;
        }
        proof {
            assert(self.ids@.subrange(0, self.ids@.len() as int) =~= self.ids@);
            if kept@.len() > 0 {
                old(self).ids@.lemma_filter_len(keep);
            }
        }
        self.ids = kept;
        if self.ids.len() == 0 {
            edge.set_auto_peer(None);
        }
    }
}

/// Law: every connect and disconnect keeps the auto-peer in step with
/// the peer list.
pub proof fn lemma_auto_peer_tracks_peers(ids: Seq<PeerId>, c: EdgeConfig, id: PeerId)
    requires
        auto_peer_follows(ids, c),
    ensures
        auto_peer_follows(ids.push(id), EdgeConfig { auto_peer: Some(first_client_screen_id()), ..c }),
        ids.filter(|p: PeerId| p != id).len() == 0 ==> auto_peer_follows(
            ids.filter(|p: PeerId| p != id),
            EdgeConfig { auto_peer: None, ..c },
        ),
        ids.filter(|p: PeerId| p != id).len() > 0 ==> auto_peer_follows(ids.filter(|p: PeerId| p != id), c),
{
    let keep = |p: PeerId| p != id;
    if ids.filter(keep).len() > 0 {
        ids.lemma_filter_len(keep);
    }
}

/// Law: a ping is always answered with a pong carrying the same nonce and
/// timestamp, on either side.
pub proof fn lemma_ping_answered(nonce: u64, timestamp_ms: u64, is_client: bool)
    ensures
        spec_inbound_action(Message::Ping { nonce, timestamp_ms }, is_client) == InboundAction::Reply(
            Message::Pong { nonce, timestamp_ms },
        ),
{
}

/// Law: the server (the machine whose input is shared) never injects input
/// received from a peer.
pub proof fn lemma_server_never_injects(msg: Message)
    ensures
        !(spec_inbound_action(msg, false) is Inject),
        !(spec_inbound_action(msg, false) is EnterScreen),
        !(spec_inbound_action(msg, false) is ReleaseModifiers),
        !(spec_inbound_action(msg, false) is ResyncModifiers),
{
}

} // verus!
