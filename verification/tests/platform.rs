use inputsync::clipboard::{
    hash_content, image_payload, offered_formats, read_source, write_plan, ClipboardAction, ClipboardSource,
    ClipboardManager, ClipboardWrite, OriginatorRegistry, StubBackend,
};
use inputsync::error::Error;
use inputsync::event::{Button, InputEvent, KeyCode, KeyState, ModifierState, MouseEvent, ScrollDelta};
use inputsync::id::{PeerId, ScreenId};
use inputsync::launcher::{
    daemon_candidates, daemon_filename, path_from_search_output, well_known_paths, DaemonSupervisor, LaunchPlan,
};
use inputsync::message::{ClipboardFormat, ClipboardPayload, Message};
use inputsync::pinning::{cert_fingerprint, check_server_cert, fingerprint_trusted, CertBundle, CertPaths};
use inputsync::platform::{
    host_name_or, local_screen_info, no_backend_error, stub_screen_info, LinuxCapture, LinuxInject, MonitorInfo,
    StubPlatform,
};
use inputsync::text::humantime;
use inputsync::windows_input::{
    drain_step, hook_swallows, normalize_coordinate, raw_from_keyboard, raw_from_mouse, update_modifiers, InjectPlan,
    RawEvent, WindowsInject, MOUSEEVENTF_ABSOLUTE, MOUSEEVENTF_HWHEEL, MOUSEEVENTF_MOVE, MOUSEEVENTF_VIRTUALDESK,
    MOUSEEVENTF_WHEEL, MOUSEEVENTF_XDOWN,
};

fn monitor(x: i32, y: i32, width: i32, height: i32) -> MonitorInfo {
    MonitorInfo { name: "m".to_string(), x, y, width, height, primary: false }
}

#[test]
fn humantime_formats() {
    assert_eq!(humantime(0), "0s");
    assert_eq!(humantime(59), "59s");
    assert_eq!(humantime(120), "2m 0s");
    assert_eq!(humantime(3723), "1h 2m 3s");
    assert_eq!(humantime(3600), "1h 0m 0s");
}

#[test]
fn logical_screen_bounds_all_monitors() {
    let ms = vec![monitor(0, 0, 1920, 1080), monitor(-1280, 100, 1280, 1024)];
    let s = local_screen_info(&ms, "desk".to_string());
    assert_eq!((s.id, s.width, s.height), (ScreenId(0), 3200, 1124));
    assert_eq!(s.name, "desk");
    let none = local_screen_info(&Vec::new(), "desk".to_string());
    assert_eq!((none.width, none.height), (0, 0));
    let s = stub_screen_info();
    assert_eq!((s.name.as_str(), s.width, s.height), ("stub", 0, 0));
    assert_eq!(host_name_or(None, "linux"), "linux");
    assert_eq!(host_name_or(Some("h".to_string()), "linux"), "h");
}

#[test]
fn fallback_backends() {
    let p = StubPlatform::new();
    assert_eq!(p.name(), "stub");
    match p.capture.start() {
        Err(Error::Platform(m)) => assert_eq!(m, "stub: capture unsupported"),
        other => panic!("unexpected {:?}", other),
    }
    assert_eq!(p.capture.cursor_position().map(|c| (c.x, c.y)).ok(), Some((0, 0)));
    match p.inject.inject(InputEvent::ModifierSync(ModifierState::empty())) {
        Err(Error::Platform(m)) => assert_eq!(m, "stub: inject unsupported"),
        other => panic!("unexpected {:?}", other),
    }
    let li = LinuxInject::new().unwrap();
    assert!(li.release_all_modifiers().is_ok());
    assert!(li.inject(InputEvent::ModifierSync(ModifierState::empty())).is_err());
    let mut lc = LinuxCapture::new();
    lc.set_capturing(true);
    assert!(lc.capturing);
    assert!(lc.stop().is_ok());
    assert!(!lc.capturing);
    match no_backend_error("plan9") {
        Error::Platform(m) => assert_eq!(m, "no platform backend available for plan9"),
        other => panic!("unexpected {:?}", other),
    }
}

#[test]
fn windows_coordinates_and_records() {
    assert_eq!(normalize_coordinate(960, 1920), 32767);
    assert_eq!(normalize_coordinate(-10, 1920), -341);
    assert_eq!(normalize_coordinate(5, 0), 0);
    let w = WindowsInject::new();
    match w.plan(InputEvent::Mouse(MouseEvent::Move { x: 1920, y: 0 }), 1920, 1080) {
        InjectPlan::Mouse(v) => {
            assert_eq!(v.len(), 1);
            assert_eq!((v[0].dx, v[0].dy), (65535, 0));
            assert_eq!(v[0].flags, MOUSEEVENTF_MOVE | MOUSEEVENTF_ABSOLUTE | MOUSEEVENTF_VIRTUALDESK);
        },
        other => panic!("unexpected {:?}", other),
    }
    let back = WindowsInject::button(Button::Back, KeyState::Pressed).unwrap();
    assert_eq!((back.flags, back.mouse_data), (MOUSEEVENTF_XDOWN, 1));
    assert!(WindowsInject::button(Button::Other(9), KeyState::Pressed).is_none());
    let v = WindowsInject::scroll(3, -120);
    assert_eq!(v.len(), 2);
    assert_eq!((v[0].flags, v[0].mouse_data), (MOUSEEVENTF_WHEEL, (-120i32) as u32));
    assert_eq!((v[1].flags, v[1].mouse_data), (MOUSEEVENTF_HWHEEL, 3));
    assert!(matches!(
        w.plan(InputEvent::Mouse(MouseEvent::Scroll(ScrollDelta { horizontal: 0, vertical: 0 })), 1, 1),
        InjectPlan::Nothing
    ));
    assert_eq!(WindowsInject::key(0x41, 30, false).flags, 2);
    assert_eq!(WindowsInject::modifier_keys().len(), 8);
    assert!(WindowsInject::send_outcome(2, 2).is_ok());
    match WindowsInject::send_outcome(1, 2) {
        Err(Error::Platform(m)) => assert_eq!(m, "SendInput wrote 1 of 2"),
        other => panic!("unexpected {:?}", other),
    }
}

#[test]
fn windows_hook_messages_and_modifiers() {
    assert_eq!(raw_from_keyboard(0x0104, 0x41, 30), Some(RawEvent::KeyDown { vk: 0x41, scan: 30 }));
    assert_eq!(raw_from_keyboard(0x0101, 0x41, 30), Some(RawEvent::KeyUp { vk: 0x41, scan: 30 }));
    assert_eq!(raw_from_keyboard(0x0999, 0x41, 30), None);
    assert_eq!(
        raw_from_mouse(0x020A, 0, 0, 0xFF88_0000),
        Some(RawEvent::MouseScroll { horizontal: false, delta: -120 })
    );
    assert_eq!(raw_from_mouse(0x0200, 4, 5, 0), Some(RawEvent::MouseMove { x: 4, y: 5 }));
    assert_eq!(
        raw_from_mouse(0x0204, 0, 0, 0),
        Some(RawEvent::MouseButton { button: Button::Right, down: true })
    );
    assert!(hook_swallows(0, true));
    assert!(!hook_swallows(-1, true));
    assert!(!hook_swallows(0, false));
    let mut m = ModifierState::empty();
    update_modifiers(&mut m, 0xA2, true);
    update_modifiers(&mut m, 0x10, true);
    assert_eq!(m.bits(), 3);
    update_modifiers(&mut m, 0xA3, false);
    assert_eq!(m.bits(), 1);
    update_modifiers(&mut m, 0x41, true);
    assert_eq!(m.bits(), 1);

    let mut mods = ModifierState::empty();
    assert_eq!(drain_step(RawEvent::KeyDown { vk: 0xA0, scan: 42 }, &mut mods, false, KeyCode::LeftShift), None);
    assert_eq!(mods.bits(), 1);
    match drain_step(RawEvent::KeyDown { vk: 0x41, scan: 30 }, &mut mods, true, KeyCode::A) {
        Some(InputEvent::Key(k)) => {
            assert_eq!((k.code, k.state, k.modifiers.bits()), (KeyCode::A, KeyState::Pressed, 1));
        },
        other => panic!("unexpected {:?}", other),
    }
    assert_eq!(
        drain_step(RawEvent::MouseScroll { horizontal: true, delta: 5 }, &mut mods, true, KeyCode::Unknown),
        Some(InputEvent::Mouse(MouseEvent::Scroll(ScrollDelta { horizontal: 5, vertical: 0 })))
    );
    assert_eq!(RawEvent::KeyUp { vk: 1, scan: 9 }.scan_code(), Some(9));
    assert_eq!(RawEvent::MouseMove { x: 0, y: 0 }.scan_code(), None);
}

#[test]
fn launcher_paths_and_throttle() {
    assert_eq!(daemon_filename(true), "inputsync-daemon.exe");
    assert_eq!(daemon_filename(false), "inputsync-daemon");
    assert_eq!(
        well_known_paths(false, None, None),
        vec!["/usr/bin/inputsync-daemon".to_string(), "/usr/local/bin/inputsync-daemon".to_string()]
    );
    assert_eq!(
        well_known_paths(true, Some("C:/PF".to_string()), None),
        vec!["C:/PF/InputSync/inputsync-daemon.exe".to_string()]
    );
    let c = daemon_candidates(Vec::new(), Some("/opt/app".to_string()), false);
    assert_eq!(c, vec!["/opt/app/inputsync-daemon".to_string()]);
    assert_eq!(path_from_search_output("/usr/bin/inputsync-daemon\r\nother\n"), Some("/usr/bin/inputsync-daemon".to_string()));
    assert_eq!(path_from_search_output("  \nx"), None);
    assert_eq!(path_from_search_output(""), None);
    assert_eq!(path_from_search_output("\u{3000}\t/opt/x daemon\u{a0}\n"), Some("/opt/x daemon".to_string()));

    let mut l = DaemonSupervisor::new(None);
    match l.ensure_running(false, 1_000) {
        Err(m) => assert_eq!(m, "daemon binary not found \u{2014} install InputSync or run from a build output dir"),
        other => panic!("unexpected {:?}", other),
    }
    assert!(matches!(l.ensure_running_throttled(false, 3_000, 5), Ok(LaunchPlan::TooSoon)));
    assert!(matches!(l.ensure_running_throttled(true, 3_000, 5), Ok(LaunchPlan::AlreadyRunning)));
    let mut l = DaemonSupervisor::new(Some("/usr/bin/inputsync-daemon".to_string()));
    match l.ensure_running_throttled(false, 10_000, 5) {
        Ok(LaunchPlan::Spawn { program }) => assert_eq!(program, "/usr/bin/inputsync-daemon"),
        other => panic!("unexpected {:?}", other),
    }
    assert_eq!(l.last_launch_attempt_ms, Some(10_000));
    assert!(matches!(l.ensure_running_throttled(false, 16_000, 5), Ok(LaunchPlan::Spawn { .. })));
}

#[test]
fn clipboard_never_syncs_confidential_or_oversized_content() {
    let me = PeerId(1);
    let other = PeerId(2);
    let mut sync = ClipboardManager::new(me, 4);
    assert!(sync.on_local_content(b"secret", false).is_none());
    assert!(sync.on_local_content(b"pw", true).is_none());
    assert!(sync.on_local_content(b"ok", false).is_some());
    assert!(sync.data_reply(ClipboardFormat::PlainText, b"toolong".to_vec(), false).is_none());
    assert!(sync.data_reply(ClipboardFormat::PlainText, b"pw".to_vec(), true).is_none());
    assert!(sync.data_reply(ClipboardFormat::PlainText, b"four".to_vec(), false).is_some());
    let big = ClipboardPayload {
        format: ClipboardFormat::PlainText,
        bytes: b"remote".to_vec(),
        originator: other,
        hash: hash_content(b"remote"),
    };
    assert!(matches!(sync.handle_inbound(other, Message::ClipboardData(big)), ClipboardAction::Nothing));
}

#[test]
fn clipboard_content_is_never_echoed_or_reannounced_later() {
    let me = PeerId(1);
    let other = PeerId(2);
    let mut sync = ClipboardManager::new(me, 1024);
    let payload = ClipboardPayload {
        format: ClipboardFormat::PlainText,
        bytes: b"from peer".to_vec(),
        originator: other,
        hash: hash_content(b"from peer"),
    };
    assert!(matches!(sync.handle_inbound(other, Message::ClipboardData(payload)), ClipboardAction::Write(_)));
    assert!(sync.on_local_content(b"mine", false).is_some());
    assert!(sync.on_local_content(b"from peer", false).is_none());
    assert!(sync.on_local_content(b"mine", false).is_none());
    assert!(sync.on_local_content(b"from peer", false).is_none());
}

#[test]
fn clipboard_changes_are_announced_once_and_not_echoed() {
    let me = PeerId(1);
    let other = PeerId(2);
    let mut sync = ClipboardManager::new(me, 100 * 1024 * 1024);
    let announce = sync.on_local_content(b"hello", false);
    match announce {
        Some(Message::ClipboardFormats { formats, hash }) => {
            assert_eq!(formats, vec![ClipboardFormat::PlainText]);
            assert_eq!(hash, hash_content(b"hello"));
        },
        other => panic!("unexpected {:?}", other),
    }
    assert!(sync.on_local_content(b"hello", false).is_none());
    assert!(sync.on_local_content(b"", false).is_none());

    // Content received from a peer is written locally and not announced back.
    let payload = ClipboardPayload {
        format: ClipboardFormat::PlainText,
        bytes: b"remote".to_vec(),
        originator: other,
        hash: hash_content(b"remote"),
    };
    assert!(matches!(sync.handle_inbound(other, Message::ClipboardData(payload)), ClipboardAction::Write(_)));
    assert!(sync.on_local_content(b"remote", false).is_none());

    // A peer announcing text is asked for it.
    let formats = Message::ClipboardFormats { formats: vec![ClipboardFormat::PlainText], hash: hash_content(b"x") };
    assert!(matches!(
        sync.handle_inbound(other, formats),
        ClipboardAction::Send(Message::ClipboardRequest { format: ClipboardFormat::PlainText })
    ));
    assert!(sync.on_local_content(b"x", false).is_none());
    let reply = sync.data_reply(ClipboardFormat::PlainText, b"mine".to_vec(), false);
    match reply {
        Some(Message::ClipboardData(p)) => {
            assert_eq!(p.originator, me);
            assert_eq!(p.hash, hash_content(b"mine"));
        },
        other => panic!("unexpected {:?}", other),
    }
}

#[test]
fn originators_and_stub_clipboard() {
    let mut reg = OriginatorRegistry::new();
    let h = hash_content(b"a");
    assert_eq!(reg.originator(&h), None);
    reg.record(h, PeerId(4));
    reg.record(h, PeerId(5));
    assert_eq!(reg.originator(&h), Some(PeerId(5)));

    let mut b = StubBackend::new();
    assert!(b.list_formats().is_empty());
    b.write(ClipboardPayload { format: ClipboardFormat::Html, bytes: b"<b>".to_vec(), originator: PeerId(1), hash: h });
    b.write(ClipboardPayload { format: ClipboardFormat::Html, bytes: b"<i>".to_vec(), originator: PeerId(1), hash: h });
    assert_eq!(b.list_formats(), vec![ClipboardFormat::Html]);
    assert_eq!(b.read(ClipboardFormat::Html), b"<i>".to_vec());
    assert!(b.read(ClipboardFormat::Png).is_empty());
}

#[test]
fn clipboard_backend_conversions() {
    assert_eq!(read_source(ClipboardFormat::PlainText), ClipboardSource::Text);
    assert_eq!(read_source(ClipboardFormat::Png), ClipboardSource::Image);
    assert_eq!(read_source(ClipboardFormat::Rtf), ClipboardSource::Nothing);
    assert_eq!(offered_formats(true, true), vec![ClipboardFormat::PlainText, ClipboardFormat::Png]);
    assert!(offered_formats(false, false).is_empty());

    match image_payload(2, 2, vec![0u8; 15]) {
        Err(Error::Other(m)) => assert_eq!(m, "clipboard image: bad dimensions"),
        other => panic!("unexpected {:?}", other),
    }
    let pixels: Vec<u8> = (0..16u8).collect();
    let png = image_payload(2, 2, pixels.clone()).unwrap();
    assert_eq!(&png[1..4], b"PNG");
    let payload = ClipboardPayload { format: ClipboardFormat::Png, bytes: png, originator: PeerId(1), hash: [0; 32] };
    match write_plan(payload).unwrap() {
        ClipboardWrite::SetImage { width, height, rgba } => {
            assert_eq!((width, height), (2, 2));
            assert_eq!(rgba, pixels);
        },
        other => panic!("unexpected {:?}", other),
    }
    let text = ClipboardPayload {
        format: ClipboardFormat::PlainText,
        bytes: "héllo".as_bytes().to_vec(),
        originator: PeerId(1),
        hash: [0; 32],
    };
    assert!(matches!(write_plan(text).unwrap(), ClipboardWrite::SetText(t) if t == "héllo"));
    let bad = ClipboardPayload { format: ClipboardFormat::PlainText, bytes: vec![0xff], originator: PeerId(1), hash: [0; 32] };
    match write_plan(bad) {
        Err(Error::Other(m)) => assert!(m.starts_with("clipboard utf8: ")),
        other => panic!("unexpected {:?}", other),
    }
    let junk = ClipboardPayload { format: ClipboardFormat::Png, bytes: vec![1, 2, 3], originator: PeerId(1), hash: [0; 32] };
    assert!(matches!(write_plan(junk).unwrap(), ClipboardWrite::Nothing));
}

#[test]
fn certificate_pinning() {
    let der = b"certificate bytes";
    let fp = cert_fingerprint(der);
    assert_eq!(fp, blake3::hash(der).to_hex().to_string());
    assert!(!fingerprint_trusted(&Vec::new(), &fp));
    assert!(fingerprint_trusted(&vec![fp.to_uppercase()], &fp));
    assert!(!fingerprint_trusted(&vec!["00".to_string()], &fp));
    assert_eq!(
        check_server_cert(&Vec::new(), der),
        Err(format!("server cert fingerprint {} not in pin list", fp))
    );
    assert_eq!(
        check_server_cert(&vec!["00".to_string()], der),
        Err(format!("server cert fingerprint {} not in pin list", fp))
    );
    let b = CertBundle::from_der(der.to_vec(), vec![1, 2, 3]);
    assert_eq!(b.fingerprint_hex, fp);
    let c = b.clone();
    assert_eq!((c.cert_der, c.key_der, c.fingerprint_hex), (der.to_vec(), vec![1, 2, 3], fp));
    let fresh = CertBundle::generate().unwrap();
    assert_eq!(fresh.fingerprint_hex, cert_fingerprint(&fresh.cert_der));
    let paths = CertPaths { dir: "/var/lib/inputsync/certs".to_string() };
    assert_eq!(paths.cert_file(), "/var/lib/inputsync/certs/cert.der");
    assert_eq!(paths.key_file(), "/var/lib/inputsync/certs/key.der");
}

#[test]
fn modifier_flags() {
    let mut m = ModifierState::empty();
    m.insert(ModifierState::ctrl());
    m.insert(ModifierState::alt());
    assert!(m.contains(ModifierState::ctrl()));
    m.remove(ModifierState::ctrl());
    assert!(!m.contains(ModifierState::ctrl()));
    assert!(m.contains(ModifierState::alt()));
    assert_eq!(ModifierState::from_bits_truncate(0xFFFF).bits(), 0x7F);
    assert!(ModifierState::default().is_empty());
}
