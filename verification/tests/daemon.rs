use inputsync::client::{
    client_base_config, client_bind_address, dial_config, ClientCommand, IdleStep, Supervisor,
};
use inputsync::config::{
    apply_overrides, config_or_default, init_config_check, parse_role, Config, IpAddress, ServerRole, SocketAddress,
};
use inputsync::daemon::{handle_request, DaemonState, RequestOutcome, TrackedPeer};
use inputsync::error::Error;
use inputsync::handshake::{accept_welcome, answer_hello, hello_message, HelloOutcome};
use inputsync::heartbeat::{heartbeat_period_ms, Heartbeat};
use inputsync::id::{ClientId, PeerId, ScreenId};
use inputsync::ipc::{cli_request, default_socket_path, CliCommand, IpcRequest, IpcResponse, PeerSummary, StatusReply};
use inputsync::status_view::{status_pane, StatusPane};
use inputsync::message::{Capabilities, Hello, Message};

fn v4(a: u8, b: u8, c: u8, d: u8, port: u16) -> SocketAddress {
    SocketAddress { ip: IpAddress::V4([a, b, c, d]), port }
}

fn peer(id: u128, name: &str, at_ms: u64) -> TrackedPeer {
    TrackedPeer {
        peer_id: PeerId(id),
        name: name.to_string(),
        remote_addr: "10.0.0.2:5000".to_string(),
        connected_at_ms: at_ms,
        last_rtt_ms: 3,
    }
}

fn state() -> DaemonState {
    DaemonState::new(Config::default_for("desk".to_string()), "ab12".to_string(), true)
}

#[test]
fn status_reports_uptime_role_and_peers() {
    let mut s = state();
    s.on_peer_connected(peer(0x0123_4567_89ab_cdef_0011_2233_4455_6677, "laptop", 1_000));
    match handle_request(IpcRequest::GetStatus, &mut s, "0.1.0", 3_725_500) {
        RequestOutcome::Respond(IpcResponse::Status(r)) => {
            assert_eq!(r.version, "0.1.0");
            assert_eq!(r.uptime_secs, 3725);
            assert_eq!(r.role, "server");
            assert_eq!(r.local_fingerprint, "ab12");
            assert!(!r.capturing);
            assert_eq!(r.connected_peers.len(), 1);
            let p = &r.connected_peers[0];
            assert_eq!(p.peer_id, "01234567-89ab-cdef-0011-223344556677");
            assert_eq!(p.name, "laptop");
            assert_eq!(p.connected_secs, 3724);
            assert_eq!(p.last_rtt_ms, 3);
        },
        other => panic!("unexpected {:?}", other),
    }
}

#[test]
fn requests_change_only_what_they_name() {
    let mut s = state();
    s.record_server_started(Some(v4(0, 0, 0, 0, 24800)));
    assert!(s.capturing);
    assert!(matches!(
        handle_request(IpcRequest::EmergencyStop, &mut s, "v", 0),
        RequestOutcome::Respond(IpcResponse::Success)
    ));
    assert!(!s.capturing);
    assert!(s.listening);
    let mut cfg = Config::default_for("other".to_string());
    cfg.role = ServerRole::Client;
    assert!(matches!(
        handle_request(IpcRequest::UpdateConfig { config: cfg }, &mut s, "v", 0),
        RequestOutcome::Respond(IpcResponse::Success)
    ));
    match handle_request(IpcRequest::GetConfig, &mut s, "v", 0) {
        RequestOutcome::Respond(IpcResponse::Config(c)) => {
            assert_eq!(c.role, ServerRole::Client);
            assert_eq!(c.peer_name, "other");
        },
        other => panic!("unexpected {:?}", other),
    }
    match handle_request(IpcRequest::Connect { addr: "1.2.3.4:5".to_string() }, &mut s, "v", 0) {
        RequestOutcome::Respond(IpcResponse::Error { message }) => {
            assert_eq!(message, "runtime peer add not yet implemented")
        },
        other => panic!("unexpected {:?}", other),
    }
    match handle_request(IpcRequest::Disconnect { peer: "x".to_string() }, &mut s, "v", 0) {
        RequestOutcome::Respond(IpcResponse::Error { message }) => {
            assert_eq!(message, "runtime peer remove not yet implemented")
        },
        other => panic!("unexpected {:?}", other),
    }
    match handle_request(IpcRequest::SubscribeEvents, &mut s, "v", 0) {
        RequestOutcome::Respond(IpcResponse::Error { message }) => {
            assert_eq!(message, "event streaming not yet implemented")
        },
        other => panic!("unexpected {:?}", other),
    }
    match handle_request(IpcRequest::GetLogs { tail: 10 }, &mut s, "v", 0) {
        RequestOutcome::Respond(IpcResponse::Logs { lines }) => assert!(lines.is_empty()),
        other => panic!("unexpected {:?}", other),
    }
    assert!(matches!(handle_request(IpcRequest::Shutdown, &mut s, "v", 0), RequestOutcome::Exit));
}

#[test]
fn server_start_and_stop_bookkeeping() {
    let mut s = state();
    assert!(s.check_start_server().is_ok());
    s.record_server_started(Some(v4(0, 0, 0, 0, 24800)));
    assert_eq!(s.check_start_server(), Err("server is already running".to_string()));
    s.on_peer_connected(peer(1, "a", 0));
    assert!(s.record_server_stopped());
    assert!(!s.listening && !s.capturing && s.peers.is_empty() && s.listen_addr.is_none());
    // Stopping again is harmless.
    assert!(!s.record_server_stopped());
    assert!(!s.listening && !s.capturing && s.peers.is_empty());
    let client = DaemonState::new(Config::default_for("c".to_string()), String::new(), false);
    assert_eq!(client.check_start_server(), Err("daemon is not running as a server".to_string()));
}

#[test]
fn disconnect_removes_only_that_peer() {
    let mut s = state();
    s.on_peer_connected(peer(1, "a", 0));
    s.on_peer_connected(peer(2, "b", 0));
    s.on_peer_connected(peer(1, "a-again", 0));
    s.on_peer_connected(peer(3, "c", 0));
    s.on_peer_disconnected(PeerId(1));
    let names: Vec<&str> = s.peers.iter().map(|p| p.name.as_str()).collect();
    assert_eq!(names, vec!["b", "c"]);
    s.on_peer_disconnected(PeerId(9));
    assert_eq!(s.peers.len(), 2);
}

#[test]
fn roles_parse_without_regard_to_case() {
    assert_eq!(parse_role("Server"), Ok(ServerRole::Server));
    assert_eq!(parse_role("CLIENT"), Ok(ServerRole::Client));
    assert_eq!(parse_role("Peer"), Err("unknown role 'peer'; expected server or client".to_string()));
}

#[test]
fn overrides_apply_in_full_or_not_at_all() {
    let mut cfg = Config::default_for("box".to_string());
    let r = apply_overrides(
        &mut cfg,
        Some("client".to_string()),
        Some(v4(127, 0, 0, 1, 9000)),
        Some(v4(10, 0, 0, 1, 24800)),
        vec!["AbC".to_string()],
    );
    assert!(r.is_ok());
    assert_eq!(cfg.role, ServerRole::Client);
    assert_eq!(cfg.network.listen.port, 9000);
    assert_eq!(cfg.network.connect.map(|a| a.port), Some(24800));
    assert_eq!(cfg.network.trusted_fingerprints, vec!["AbC".to_string()]);
    let mut cfg2 = Config::default_for("box".to_string());
    assert!(apply_overrides(&mut cfg2, Some("nope".to_string()), None, None, Vec::new()).is_err());
    assert_eq!(cfg2.role, ServerRole::Server);
    assert!(cfg2.network.connect.is_none());
}

#[test]
fn default_config_values() {
    let c = Config::default_for("box".to_string());
    assert_eq!(c.role, ServerRole::Server);
    assert_eq!(c.peer_name, "box");
    assert_eq!(c.network.listen.port, 24800);
    assert_eq!(c.network.heartbeat_interval_ms, 2000);
    assert_eq!(c.clipboard.max_bytes, 100 * 1024 * 1024);
    assert_eq!(c.file_transfer.chunk_size, 64 * 1024);
    assert_eq!(c.emergency_hotkey, "Ctrl+Alt+Shift+Esc");
    assert_eq!(
        inputsync::config::peer_name_from_env(None, Some("host".to_string())),
        "host"
    );
    assert_eq!(inputsync::config::peer_name_from_env(None, None), "unknown");
}

#[test]
fn missing_config_falls_back_to_defaults() {
    let c = config_or_default(Err(Error::ConfigMissing("/x.toml".to_string())), "m".to_string()).unwrap();
    assert_eq!(c.peer_name, "m");
    assert!(matches!(
        config_or_default(Err(Error::Config("bad".to_string())), "m".to_string()),
        Err(Error::Config(_))
    ));
    assert_eq!(
        init_config_check("/etc/inputsync.toml", true, false),
        Err("config already exists at /etc/inputsync.toml; pass --force to overwrite".to_string())
    );
    assert!(init_config_check("/etc/inputsync.toml", true, true).is_ok());
    assert!(init_config_check("/etc/inputsync.toml", false, false).is_ok());
}

#[test]
fn handshake_accepts_matching_version_only() {
    let hello = hello_message(PeerId(5), "client".to_string());
    match answer_hello(hello, PeerId(9), "server".to_string()) {
        HelloOutcome::Accept { hello, welcome } => {
            assert_eq!(hello.peer_id, PeerId(5));
            match accept_welcome(welcome) {
                Ok(w) => {
                    assert_eq!(w.peer_id, PeerId(9));
                    assert_eq!(w.assigned_screen, ScreenId(1));
                    assert_eq!(w.accepted_capabilities, Capabilities::full());
                },
                Err(e) => panic!("unexpected {:?}", e),
            }
        },
        other => panic!("unexpected {:?}", other),
    }
    let old = Message::Hello(Hello {
        peer_id: PeerId(5),
        peer_name: "old".to_string(),
        protocol_version: 7,
        capabilities: Capabilities::full(),
    });
    match answer_hello(old, PeerId(9), "server".to_string()) {
        HelloOutcome::Reject { reply: Some(Message::Error { code, message }), error } => {
            assert_eq!(code, 1);
            assert_eq!(message, "version mismatch");
            assert!(matches!(error, Error::VersionMismatch { local: 1, remote: 7 }));
        },
        other => panic!("unexpected {:?}", other),
    }
    match answer_hello(Message::Ping { nonce: 1, timestamp_ms: 1 }, PeerId(9), "s".to_string()) {
        HelloOutcome::Reject { reply: None, error: Error::Protocol(m) } => assert_eq!(m, "expected Hello, got Ping"),
        other => panic!("unexpected {:?}", other),
    }
    match accept_welcome(Message::Error { code: 1, message: "version mismatch".to_string() }) {
        Err(Error::PeerRejected(m)) => assert_eq!(m, "[1] version mismatch"),
        other => panic!("unexpected {:?}", other),
    }
}

#[test]
fn heartbeat_period_and_nonces() {
    assert_eq!(heartbeat_period_ms(100), 500);
    assert_eq!(heartbeat_period_ms(2000), 2000);
    let mut h = Heartbeat::new();
    assert!(matches!(h.next_ping(77), Message::Ping { nonce: 1, timestamp_ms: 77 }));
    assert!(matches!(h.next_ping(78), Message::Ping { nonce: 2, timestamp_ms: 78 }));
    let mut top = Heartbeat { nonce: u64::MAX };
    assert!(matches!(top.next_ping(0), Message::Ping { nonce: 0, .. }));
}

#[test]
fn socket_paths_per_platform() {
    assert_eq!(default_socket_path(true, None).socket, "\\\\.\\pipe\\inputsync");
    assert_eq!(default_socket_path(false, None).socket, "/tmp/inputsync.sock");
    assert_eq!(default_socket_path(false, Some("/run/user/1000".to_string())).socket, "/run/user/1000/inputsync.sock");
    assert_eq!(default_socket_path(false, Some("/run/user/1000/".to_string())).socket, "/run/user/1000/inputsync.sock");
}

#[test]
fn cli_commands_map_to_requests() {
    assert!(matches!(cli_request(CliCommand::Fingerprint), IpcRequest::GetStatus));
    assert!(matches!(cli_request(CliCommand::Watch), IpcRequest::SubscribeEvents));
    assert!(matches!(cli_request(CliCommand::Emergency), IpcRequest::EmergencyStop));
    match cli_request(CliCommand::Connect { addr: "h:1".to_string() }) {
        IpcRequest::Connect { addr } => assert_eq!(addr, "h:1"),
        other => panic!("unexpected {:?}", other),
    }
}

#[test]
fn client_supervisor_redials_the_latest_target() {
    let base = client_base_config(&Config::default_for("c".to_string()), PeerId(3));
    assert_eq!(base.server_addr.port, 0);
    let a = dial_config(&base, v4(10, 0, 0, 1, 1));
    let b = dial_config(&base, v4(10, 0, 0, 2, 2));
    let mut sup = Supervisor::new();
    assert!(sup.next_dial().is_none());
    assert!(matches!(Supervisor::on_idle_command(Some(ClientCommand::HangUp)), IdleStep::Wait));
    assert!(matches!(Supervisor::on_idle_command(None), IdleStep::Exit));
    assert!(!sup.on_command_while_connected(Some(ClientCommand::Dial(a))));
    assert!(!sup.on_command_while_connected(Some(ClientCommand::Dial(b))));
    assert_eq!(sup.next_dial().map(|c| c.server_addr.port), Some(2));
    assert!(sup.next_dial().is_none());
    assert!(sup.on_command_while_connected(None));
    let v6 = SocketAddress { ip: IpAddress::V6([0, 0, 0, 0, 0, 0, 0, 1]), port: 9 };
    assert!(matches!(client_bind_address(v6).ip, IpAddress::V6([0, 0, 0, 0, 0, 0, 0, 0])));
    assert!(matches!(client_bind_address(v4(1, 2, 3, 4, 5)).ip, IpAddress::V4([0, 0, 0, 0])));
}

#[test]
fn identifiers_as_text() {
    assert_eq!(ClientId(7).to_text(), "client#7");
    assert_eq!(ScreenId(12).to_text(), "screen#12");
    assert_eq!(PeerId::nil().to_text(), "00000000-0000-0000-0000-000000000000");
    let fresh = PeerId::new();
    assert_ne!(fresh, PeerId::nil());
    assert_eq!(fresh.to_text().as_bytes()[14], b'4');
}

#[test]
fn error_messages() {
    assert_eq!(Error::Network("boom".to_string()).message(), "network error: boom");
    assert_eq!(Error::VersionMismatch { local: 1, remote: 2 }.message(), "version mismatch: local=1 remote=2");
    assert_eq!(Error::Other("plain".to_string()).message(), "plain");
    assert_eq!(Error::NotConnected.message(), "not connected");
    assert_eq!(Error::ConfigMissing("/a".to_string()).message(), "config file not found at /a");
    let io = Error::Io(std::io::Error::new(std::io::ErrorKind::Other, "disk"));
    assert_eq!(io.message(), "io error: disk");
}

#[test]
fn status_pane_texts() {
    match status_pane(Some("refused".to_string()), None) {
        StatusPane::Unreachable { message, hint } => {
            assert_eq!(message, "daemon unreachable: refused");
            assert_eq!(hint, "Start the daemon with `inputsync-daemon run --role server`.");
        },
        other => panic!("unexpected {:?}", other),
    }
    assert!(matches!(status_pane(None, None), StatusPane::Connecting { .. }));
    let status = StatusReply {
        version: "0.1.0".to_string(),
        uptime_secs: 61,
        role: "server".to_string(),
        local_fingerprint: "ab".to_string(),
        connected_peers: vec![PeerSummary {
            peer_id: "id".to_string(),
            name: "laptop".to_string(),
            remote_addr: "10.0.0.2:5000".to_string(),
            connected_secs: 3600,
            last_rtt_ms: 4,
        }],
        capturing: true,
    };
    match status_pane(None, Some(&status)) {
        StatusPane::Ready { rows, peers_heading, peers, empty_note } => {
            assert_eq!(rows[2], ("Uptime".to_string(), "1m 1s".to_string()));
            assert_eq!(rows[4], ("Capturing".to_string(), "yes".to_string()));
            assert_eq!(peers_heading, "Peers (1)");
            assert_eq!(peers[0].remote, "remote: 10.0.0.2:5000");
            assert_eq!(peers[0].connection, "connected: 1h 0m 0s  \u{2022}  rtt: 4 ms");
            assert!(empty_note.is_none());
        },
        other => panic!("unexpected {:?}", other),
    }
}
