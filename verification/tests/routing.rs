use inputsync::config::Config;
use inputsync::edge::{EdgeDetector, ForwardTo, Route, RouteDecision};
use inputsync::event::{Button, InputEvent, KeyCode, KeyEvent, KeyState, ModifierState, MouseEvent};
use inputsync::id::{PeerId, ScreenId};
use inputsync::message::{Goodbye, Message};
use inputsync::screen::{EdgeSide, Neighbour, Point, ScreenInfo, ScreenLayout};
use inputsync::session::{
    apply_decision, inbound_action, is_emergency, resync_key_events, server_edge_detector, session_drop_dir,
    CaptureRouter, InboundAction, ServerPeers,
};

fn layout_right_to(to: u32) -> ScreenLayout {
    ScreenLayout {
        screens: Vec::new(),
        neighbours: vec![Neighbour { from: ScreenId(0), side: EdgeSide::Right, to: ScreenId(to) }],
    }
}

fn mv(x: i32, y: i32) -> InputEvent {
    InputEvent::Mouse(MouseEvent::Move { x, y })
}

fn emergency() -> InputEvent {
    let mods = ModifierState::ctrl().union(ModifierState::alt()).union(ModifierState::shift());
    InputEvent::Key(KeyEvent { code: KeyCode::Escape, state: KeyState::Pressed, modifiers: mods, character: None })
}

#[test]
fn opposite_is_an_involution() {
    for s in [EdgeSide::Left, EdgeSide::Right, EdgeSide::Top, EdgeSide::Bottom] {
        assert_eq!(s.opposite().opposite(), s);
        assert_ne!(s.opposite(), s);
    }
    assert_eq!(EdgeSide::Left.opposite(), EdgeSide::Right);
    assert_eq!(EdgeSide::Top.opposite(), EdgeSide::Bottom);
}

#[test]
fn neighbour_lookup_takes_first_match() {
    let layout = ScreenLayout {
        screens: Vec::new(),
        neighbours: vec![
            Neighbour { from: ScreenId(0), side: EdgeSide::Left, to: ScreenId(3) },
            Neighbour { from: ScreenId(0), side: EdgeSide::Left, to: ScreenId(4) },
        ],
    };
    assert_eq!(layout.neighbour_of(ScreenId(0), EdgeSide::Left), Some(ScreenId(3)));
    assert_eq!(layout.neighbour_of(ScreenId(0), EdgeSide::Right), None);
    assert_eq!(layout.neighbour_of(ScreenId(1), EdgeSide::Left), None);
}

#[test]
fn crossing_the_right_edge_enters_the_neighbour() {
    let mut d = EdgeDetector::new(ScreenId(0), 1920, 1080, layout_right_to(2));
    assert_eq!(d.observe(&mv(500, 500)), (RouteDecision::Stay, ForwardTo::Local));
    let (decision, fwd) = d.observe(&mv(1919, 300));
    assert_eq!(
        decision,
        RouteDecision::EnterRemote {
            screen: ScreenId(2),
            entry: Point { x: 0, y: 300 },
            local_warp: Point { x: 1918, y: 540 },
            modifiers: ModifierState::empty(),
        }
    );
    assert_eq!(fwd, ForwardTo::Remote);
    assert_eq!(d.route(), Route::Remote(ScreenId(2)));
    // Once remote, further movement stays remote.
    assert_eq!(d.observe(&mv(1, 1)), (RouteDecision::Stay, ForwardTo::Remote));
    assert_eq!(d.force_local(), RouteDecision::LeaveRemote { screen: ScreenId(2) });
    assert_eq!(d.route(), Route::Local);
    assert_eq!(d.force_local(), RouteDecision::Stay);
}

#[test]
fn edge_without_neighbour_is_clamped_unless_auto_peer() {
    let mut d = EdgeDetector::new(ScreenId(0), 800, 600, ScreenLayout::default());
    assert_eq!(d.observe(&mv(0, 300)), (RouteDecision::Stay, ForwardTo::Local));
    d.set_auto_peer(Some(ScreenId(1)));
    let (decision, _) = d.observe(&mv(0, 300));
    assert_eq!(
        decision,
        RouteDecision::EnterRemote {
            screen: ScreenId(1),
            entry: Point { x: 32_000, y: 300 },
            local_warp: Point { x: 2, y: 300 },
            modifiers: ModifierState::empty(),
        }
    );
}

#[test]
fn emergency_hotkey_is_recognised() {
    assert!(is_emergency(&emergency()));
    let plain = InputEvent::Key(KeyEvent {
        code: KeyCode::Escape,
        state: KeyState::Pressed,
        modifiers: ModifierState::ctrl(),
        character: None,
    });
    assert!(!is_emergency(&plain));
    assert!(!is_emergency(&mv(1, 1)));
}

#[test]
fn capture_router_forwards_relative_motion_and_honours_emergency() {
    let d = EdgeDetector::new(ScreenId(0), 1920, 1080, layout_right_to(2));
    let mut r = CaptureRouter::new(d);
    let step = r.on_event(mv(1000, 500), true);
    assert_eq!(step.decision, RouteDecision::Stay);
    assert!(step.forward.is_none());
    let step = r.on_event(mv(1919, 500), true);
    assert!(matches!(step.decision, RouteDecision::EnterRemote { screen: ScreenId(2), .. }));
    assert!(matches!(step.forward, Some(Message::MouseMoveRelative { dx: 919, dy: 0 })));
    let step = r.on_event(mv(1919, 490), true);
    assert!(matches!(step.forward, Some(Message::MouseMoveRelative { dx: 0, dy: -10 })));
    let click = InputEvent::Mouse(MouseEvent::Button { button: Button::Left, state: KeyState::Pressed });
    assert!(matches!(r.on_event(click, true).forward, Some(Message::MouseButton(_))));
    assert!(r.on_event(click, false).forward.is_none());
    let step = r.on_event(emergency(), true);
    assert_eq!(step.decision, RouteDecision::LeaveRemote { screen: ScreenId(2) });
    assert!(step.forward.is_none());
    assert_eq!(r.edge.route(), Route::Local);
}

#[test]
fn decisions_become_peer_messages() {
    let e = apply_decision(&RouteDecision::LeaveRemote { screen: ScreenId(2) });
    assert_eq!(e.peer_messages.len(), 2);
    assert!(matches!(e.peer_messages[0], Message::ScreenLeave { peer_screen: 2 }));
    assert!(matches!(e.peer_messages[1], Message::ModifierSync(m) if m.is_empty()));
    assert_eq!(e.capturing, Some(false));
    let enter = RouteDecision::EnterRemote {
        screen: ScreenId(1),
        entry: Point { x: 0, y: 5 },
        local_warp: Point { x: 9, y: 9 },
        modifiers: ModifierState::shift(),
    };
    let e = apply_decision(&enter);
    assert!(matches!(e.peer_messages[0], Message::ScreenEnter { x: 0, y: 5, .. }));
    assert_eq!(e.warp, Some(Point { x: 9, y: 9 }));
    assert_eq!(e.capturing, Some(true));
    let e = apply_decision(&RouteDecision::Stay);
    assert!(e.peer_messages.is_empty());
    assert_eq!(e.capturing, None);
}

#[test]
fn inbound_messages_map_to_actions() {
    match inbound_action(Message::Ping { nonce: 4, timestamp_ms: 5 }, false) {
        InboundAction::Reply(Message::Pong { nonce: 4, timestamp_ms: 5 }) => {},
        other => panic!("unexpected {:?}", other),
    }
    assert!(matches!(inbound_action(Message::MouseMove { x: 1, y: 2 }, false), InboundAction::Ignore));
    assert!(matches!(
        inbound_action(Message::MouseMove { x: 1, y: 2 }, true),
        InboundAction::Inject(InputEvent::Mouse(MouseEvent::Move { x: 1, y: 2 }))
    ));
    assert!(matches!(
        inbound_action(Message::ScreenLeave { peer_screen: 1 }, true),
        InboundAction::ReleaseModifiers
    ));
    match inbound_action(Message::Goodbye(Goodbye { reason: "bye".to_string() }), true) {
        InboundAction::Goodbye { reason } => assert_eq!(reason, "bye"),
        other => panic!("unexpected {:?}", other),
    }
}

#[test]
fn modifier_resync_presses_left_keys_in_order() {
    let target = ModifierState::super_key().union(ModifierState::shift());
    let keys = resync_key_events(target);
    let codes: Vec<KeyCode> = keys.iter().map(|k| k.code).collect();
    assert_eq!(codes, vec![KeyCode::LeftShift, KeyCode::LeftSuper]);
    assert!(keys.iter().all(|k| k.state == KeyState::Pressed && k.modifiers == target));
    assert!(resync_key_events(ModifierState::empty()).is_empty());
}

#[test]
fn auto_peer_follows_connected_peers() {
    let mut edge = EdgeDetector::new(ScreenId(0), 800, 600, ScreenLayout::default());
    let mut peers = ServerPeers::new();
    let a = PeerId(1);
    let b = PeerId(2);
    peers.on_connected(a, &mut edge);
    peers.on_connected(b, &mut edge);
    assert!(matches!(edge.observe(&mv(0, 10)).0, RouteDecision::EnterRemote { screen: ScreenId(1), .. }));
    edge.force_local();
    peers.on_disconnected(a, &mut edge);
    assert_eq!(peers.ids, vec![b]);
    assert!(matches!(edge.observe(&mv(0, 10)).0, RouteDecision::EnterRemote { .. }));
    edge.force_local();
    peers.on_disconnected(b, &mut edge);
    assert!(peers.ids.is_empty());
    assert_eq!(edge.observe(&mv(0, 10)).0, RouteDecision::Stay);
}

#[test]
fn server_session_screen_and_drop_dir() {
    let mut d = server_edge_detector(None, ScreenLayout::default());
    d.set_auto_peer(Some(ScreenId(1)));
    assert!(matches!(
        d.observe(&mv(1919, 10)).0,
        RouteDecision::EnterRemote { local_warp: Point { x: 1918, y: 540 }, .. }
    ));
    let tiny = ScreenInfo { id: ScreenId(4), name: "t".to_string(), width: 0, height: -5 };
    let mut d = server_edge_detector(Some(tiny), ScreenLayout::default());
    assert_eq!(d.observe(&mv(0, 0)).0, RouteDecision::Stay);

    let mut cfg = Config::default_for("box".to_string());
    assert_eq!(session_drop_dir(&cfg, Some("/home/u/Downloads".to_string())), "/home/u/Downloads/InputSync");
    assert_eq!(session_drop_dir(&cfg, None), "./inputsync-drop");
    cfg.file_transfer.drop_dir = Some("/data".to_string());
    assert_eq!(session_drop_dir(&cfg, None), "/data");
}

#[test]
fn degenerate_screens_are_refused_before_overflow() {
    let d = EdgeDetector::new(ScreenId(0), i32::MIN, 100, layout_right_to(2));
    assert!(!d.can_observe(&mv(5, 5)));
    assert!(d.can_observe(&mv(0, 5)));
    let ok = EdgeDetector::new(ScreenId(0), 1920, 1080, layout_right_to(2));
    assert!(ok.can_observe(&mv(1919, 5)));
    let mut r = CaptureRouter::new(ok);
    assert!(r.can_take(&mv(100, 100), true));
    r.on_event(mv(100, 100), false);
    // Routed locally, a far jump needs no delta.
    assert!(r.can_take(&mv(i32::MIN, 100), true));
    let mut far = CaptureRouter::new(EdgeDetector::new(ScreenId(0), 1920, 1080, layout_right_to(2)));
    far.on_event(mv(1919, 500), true);
    // Routed to the peer, the delta must fit.
    assert!(!far.can_take(&mv(i32::MIN, 500), true));
    assert!(far.can_take(&mv(i32::MIN, 500), false));
}

#[test]
fn held_modifiers_travel_with_the_crossing() {
    let mut d = EdgeDetector::new(ScreenId(0), 1920, 1080, layout_right_to(2));
    let key = InputEvent::Key(KeyEvent {
        code: KeyCode::Escape,
        state: KeyState::Pressed,
        modifiers: ModifierState::shift(),
        character: None,
    });
    assert_eq!(d.observe(&key), (RouteDecision::Stay, ForwardTo::Local));
    match d.observe(&mv(1919, 300)).0 {
        RouteDecision::EnterRemote { screen, modifiers, .. } => {
            assert_eq!(screen, ScreenId(2));
            assert_eq!(modifiers, ModifierState::shift());
        },
        other => panic!("unexpected {:?}", other),
    }
    let mut d = EdgeDetector::new(ScreenId(0), 1920, 1080, layout_right_to(2));
    d.observe(&InputEvent::ModifierSync(ModifierState::ctrl()));
    assert!(matches!(
        d.observe(&mv(1919, 300)).0,
        RouteDecision::EnterRemote { modifiers, .. } if modifiers == ModifierState::ctrl()
    ));
}
