//! The messages exchanged between the daemon and its GUI or CLI. On the
//! wire each is one line of JSON; the framing and serialization live with
//! the transport.
use crate::config::Config;
use crate::text::{path_join, joined_path};
use vstd::prelude::*;

verus! {

/// A request from the GUI or CLI.
#[derive(Debug)]
pub enum IpcRequest {
    GetStatus,
    GetConfig,
    UpdateConfig { config: Config },
    Connect { addr: String },
    Disconnect { peer: String },
    EmergencyStop,
    SubscribeEvents,
    GetLogs { tail: u32 },
    Shutdown,
}

/// The daemon's answer to one request.
#[derive(Debug)]
pub enum IpcResponse {
    Status(StatusReply),
    Config(Config),
    /// The request was carried out.
    Success,
    Logs { lines: Vec<String> },
    Error { message: String },
}

/// What `GetStatus` reports.
#[derive(Debug)]
pub struct StatusReply {
    pub version: String,
    pub uptime_secs: u64,
    pub role: String,
    pub local_fingerprint: String,
    pub connected_peers: Vec<PeerSummary>,
    pub capturing: bool,
}

/// One connected peer, as `GetStatus` reports it.
#[derive(Debug)]
pub struct PeerSummary {
    pub peer_id: String,
    pub name: String,
    pub remote_addr: String,
    pub connected_secs: u64,
    pub last_rtt_ms: u32,
}

/// Something the daemon tells a subscribed client without being asked.
#[derive(Debug)]
pub enum IpcEvent {
    PeerConnected { peer_id: String, name: String },
    PeerDisconnected { peer_id: String },
    CapturingChanged { capturing: bool },
    FileTransferProgress { transfer_id: u64, bytes: u64, total: u64 },
    Log { line: String },
}

/// Anything the daemon writes to a client: a response or an event.
#[derive(Debug)]
pub enum IpcMessage {
    Response(IpcResponse),
    Event(IpcEvent),
}

/// Where the daemon's socket (or named pipe) lives.
#[derive(Debug)]
pub struct SocketPaths {
    pub socket: String,
}

/// The name of the socket file inside the runtime directory.
pub open spec fn socket_file_name() -> Seq<char> {
    seq!['i', 'n', 'p', 'u', 't', 's', 'y', 'n', 'c', '.', 's', 'o', 'c', 'k']
}

/// The named pipe used on Windows.
pub open spec fn windows_pipe_path() -> Seq<char> {
    seq!['\\', '\\', '.', '\\', 'p', 'i', 'p', 'e', '\\', 'i', 'n', 'p', 'u', 't', 's', 'y', 'n', 'c']
}

/// The text "/tmp".
pub open spec fn tmp_dir() -> Seq<char> {
    seq!['/', 't', 'm', 'p']
}

/// Where the daemon listens: the named pipe `\\.\pipe\inputsync` on
/// Windows; elsewhere `inputsync.sock` in `$XDG_RUNTIME_DIR`, or in `/tmp`
/// when that variable is unset. The caller reads the variable.
pub fn default_socket_path(is_windows: bool, runtime_dir: Option<String>) -> (r: SocketPaths)
    ensures
        is_windows ==> r.socket@ == windows_pipe_path(),
        !is_windows ==> r.socket@ == joined_path(
            match runtime_dir {
                Some(d) => d@,
                None => tmp_dir(),
            },
            socket_file_name(),
        ),
{
    proof {
        reveal_strlit("\\\\.\\pipe\\inputsync");
        reveal_strlit("inputsync.sock");
        reveal_strlit("/tmp");
    }
    if is_windows {
        return SocketPaths { socket: String::from_str("\\\\.\\pipe\\inputsync") };
    }
    let base = match runtime_dir {
        Some(d) => d,
        None => {
            assert("/tmp"@ =~= tmp_dir());
            String::from_str("/tmp")
        },
    };
    assert("inputsync.sock"@ =~= socket_file_name());
    SocketPaths { socket: path_join(base.as_str(), "inputsync.sock") }
}

/// What the command-line client was asked to do.
#[derive(Debug)]
pub enum CliCommand {
    Status,
    Config,
    Fingerprint,
    Watch,
    Emergency,
    Shutdown,
    Connect { addr: String },
    Disconnect { peer: String },
}

/// The request the command-line client sends for each command: the
/// fingerprint is read from the status, and watching starts with a
/// subscription.
pub fn cli_request(cmd: CliCommand) -> (r: IpcRequest)
    ensures
        match cmd {
            CliCommand::Status => r is GetStatus,
            CliCommand::Config => r is GetConfig,
            CliCommand::Fingerprint => r is GetStatus,
            CliCommand::Watch => r is SubscribeEvents,
            CliCommand::Emergency => r is EmergencyStop,
            CliCommand::Shutdown => r is Shutdown,
            CliCommand::Connect { addr } => r == IpcRequest::Connect { addr },
            CliCommand::Disconnect { peer } => r == IpcRequest::Disconnect { peer },
        },
{
    match cmd {
        CliCommand::Status => IpcRequest::GetStatus,
        CliCommand::Config => IpcRequest::GetConfig,
        CliCommand::Fingerprint => IpcRequest::GetStatus,
        CliCommand::Watch => IpcRequest::SubscribeEvents,
        CliCommand::Emergency => IpcRequest::EmergencyStop,
        CliCommand::Shutdown => IpcRequest::Shutdown,
        CliCommand::Connect { addr } => IpcRequest::Connect { addr },
        CliCommand::Disconnect { peer } => IpcRequest::Disconnect { peer },
    }
}

} // verus!
