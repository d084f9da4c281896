//! The client side's decisions: what it dials, from which local address,
//! and how its supervisor reacts to commands while a connection runs. The
//! QUIC endpoint and the tasks stay with the caller.
use crate::config::{Config, IpAddress, SocketAddress};
use crate::id::PeerId;
use vstd::prelude::*;

verus! {

/// What a client needs to dial a server.
#[derive(Debug)]
pub struct ClientConfig {
    pub server_addr: SocketAddress,
    pub local_peer_id: PeerId,
    pub local_peer_name: String,
    pub trusted_fingerprints: Vec<String>,
    pub heartbeat_interval_ms: u64,
}

/// A command to the client's supervisor.
#[derive(Debug)]
pub enum ClientCommand {
    /// Abort any current connection and dial this server.
    Dial(ClientConfig),
    /// Abort the current connection, if any.
    HangUp,
}

/// The unspecified address `0.0.0.0:0`.
pub open spec fn unspecified_v4() -> SocketAddress {
    SocketAddress { ip: IpAddress::V4([0u8, 0u8, 0u8, 0u8]), port: 0 }
}

/// The unspecified address `[::]:0`.
pub open spec fn unspecified_v6() -> SocketAddress {
    SocketAddress { ip: IpAddress::V6([0u16, 0u16, 0u16, 0u16, 0u16, 0u16, 0u16, 0u16]), port: 0 }
}

/// The local address a one-shot client binds to reach `server`: any port
/// on the unspecified address of the server's family.
pub fn client_bind_address(server: SocketAddress) -> (a: SocketAddress)
    ensures
        a == (match server.ip {
            IpAddress::V6(_) => unspecified_v6(),
            IpAddress::V4(_) => unspecified_v4(),
        }),
{
    match server.ip {
        IpAddress::V6(_) => SocketAddress { ip: IpAddress::V6([0, 0, 0, 0, 0, 0, 0, 0]), port: 0 },
        IpAddress::V4(_) => SocketAddress { ip: IpAddress::V4([0, 0, 0, 0]), port: 0 },
    }
}

/// The client settings a daemon starts with: its identity and pins from
/// the configuration, and the configured server, or `0.0.0.0:0` as a
/// placeholder until a dial names one.
pub fn client_base_config(config: &Config, local_peer_id: PeerId) -> (c: ClientConfig)
    ensures
        c.server_addr == (match config.network.connect {
            Some(a) => a,
            None => unspecified_v4(),
        }),
        c.local_peer_id == local_peer_id,
        c.local_peer_name == config.peer_name,
        c.trusted_fingerprints@ == config.network.trusted_fingerprints@,
        c.heartbeat_interval_ms == config.network.heartbeat_interval_ms,
{
    let server_addr = match config.network.connect {
        Some(a) => a,
        None => SocketAddress { ip: IpAddress::V4([0, 0, 0, 0]), port: 0 },
    };
    let trusted_fingerprints = config.network.trusted_fingerprints.clone();
    assert(trusted_fingerprints@ =~= config.network.trusted_fingerprints@);
    ClientConfig {
        server_addr,
        local_peer_id,
        local_peer_name: config.peer_name.clone(),
        trusted_fingerprints,
        heartbeat_interval_ms: config.network.heartbeat_interval_ms,
    }
}

/// `base` aimed at the server at `addr`.
pub fn dial_config(base: &ClientConfig, addr: SocketAddress) -> (c: ClientConfig)
    ensures
        c.server_addr == addr,
        c.local_peer_id == base.local_peer_id,
        c.local_peer_name == base.local_peer_name,
        c.trusted_fingerprints@ == base.trusted_fingerprints@,
        c.heartbeat_interval_ms == base.heartbeat_interval_ms,
{
    let trusted_fingerprints = base.trusted_fingerprints.clone();
    assert(trusted_fingerprints@ =~= base.trusted_fingerprints@);
    ClientConfig {
        server_addr: addr,
        local_peer_id: base.local_peer_id,
        local_peer_name: base.local_peer_name.clone(),
        trusted_fingerprints,
        heartbeat_interval_ms: base.heartbeat_interval_ms,
    }
}

/// What an idle supervisor does with the next command: dial, keep
/// waiting, or end because its controller is gone.
#[derive(Debug)]
pub enum IdleStep {
    Dial(ClientConfig),
    Wait,
    Exit,
}

/// The supervisor of a client's (at most one) connection: the dial it will
/// start next, if a command asked for one while a connection was running.
#[derive(Debug)]
pub struct Supervisor {
    pub pending: Option<ClientConfig>,
}

/// The pending dial after a command that arrived while a connection ran,
/// and whether the supervisor ends.
pub open spec fn after_command_while_connected(
    pending: Option<ClientConfig>,
    cmd: Option<ClientCommand>,
) -> (Option<ClientConfig>, bool) {
    match cmd {
        Some(ClientCommand::Dial(c)) => (Some(c), false),
        Some(ClientCommand::HangUp) => (pending, false),
        None => (pending, true),
    }
}

impl Supervisor {
    /// Nothing pending.
    pub fn new() -> (s: Self)
        ensures
            s.pending is None,
    {
        Supervisor { pending: None }
    }

    /// The dial to start now that no connection runs, if one is pending.
    /// When there is none the caller waits for a command.
    pub fn next_dial(&mut self) -> (c: Option<ClientConfig>)
        ensures
            c == old(self).pending,
            final(self).pending is None,
    {
        self.pending.take()
    }

    /// What to do with a command that arrived while idle: a dial starts, a
    /// hang-up has nothing to end, and a closed command channel ends the
    /// supervisor.
    pub fn on_idle_command(cmd: Option<ClientCommand>) -> (s: IdleStep)
        ensures
            match cmd {
                Some(ClientCommand::Dial(c)) => s == IdleStep::Dial(c),
                Some(ClientCommand::HangUp) => s is Wait,
                None => s is Exit,
            },
    {
        match cmd {
            Some(ClientCommand::Dial(c)) => IdleStep::Dial(c),
            Some(ClientCommand::HangUp) => IdleStep::Wait,
            None => IdleStep::Exit,
        }
    }

    /// A command arrived while a connection ran; the caller has cancelled
    /// that connection. A dial becomes the next one to start; a hang-up
    /// leaves nothing to restart. Returns whether the supervisor ends
    /// (its command channel closed).
    pub fn on_command_while_connected(&mut self, cmd: Option<ClientCommand>) -> (exit: bool)
        ensures
            (final(self).pending, exit) == after_command_while_connected(old(self).pending, cmd),
    {
        match cmd {
            Some(ClientCommand::Dial(c)) => {
                self.pending = Some(c);
                false
            },
            Some(ClientCommand::HangUp) => false,
            None => true,
        }
    }
}

/// Law: a dial that arrives while a connection runs replaces it: the next
/// dial the supervisor starts is that one.
pub proof fn lemma_redial_replaces(pending: Option<ClientConfig>, c: ClientConfig)
    ensures
        after_command_while_connected(pending, Some(ClientCommand::Dial(c))) == (Some(c), false),
{
}

} // verus!
