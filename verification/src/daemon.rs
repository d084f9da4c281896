//! The daemon's bookkeeping: the peers it is connected to, whether its
//! server is up, and its answers to requests from the GUI and CLI. The
//! network endpoints, tasks and sockets stay with the caller, which applies
//! what these functions decide.
use crate::config::{parse_role_spec, Config, ServerRole, SocketAddress};
use crate::id::{uuid_hyphenated, PeerId};
use crate::ipc::{IpcRequest, IpcResponse, PeerSummary, StatusReply};
use vstd::prelude::*;

verus! {

/// A connected peer as the daemon tracks it. Times are milliseconds since
/// the daemon started.
#[derive(Debug)]
pub struct TrackedPeer {
    pub peer_id: PeerId,
    pub name: String,
    pub remote_addr: String,
    pub connected_at_ms: u64,
    pub last_rtt_ms: u32,
}

/// What the daemon knows of itself.
#[derive(Debug)]
pub struct DaemonState {
    pub config: Config,
    pub capturing: bool,
    pub fingerprint: String,
    pub peers: Vec<TrackedPeer>,
    /// True while the server listens for clients.
    pub listening: bool,
    /// The bound server address, while listening.
    pub listen_addr: Option<SocketAddress>,
    /// A server has been brought up and not yet stopped.
    pub server_running: bool,
    /// The daemon was started in the server role, so a server can be
    /// brought up on request.
    pub can_serve: bool,
}

/// What the daemon does with a request: answer it, or end the process.
#[derive(Debug)]
pub enum RequestOutcome {
    Respond(IpcResponse),
    Exit,
}

/// The text "server is already running".
pub open spec fn msg_already_running() -> Seq<char> {
    seq!['s', 'e', 'r', 'v', 'e', 'r', ' ', 'i', 's', ' ', 'a', 'l', 'r', 'e', 'a', 'd', 'y', ' ', 'r', 'u', 'n', 'n', 'i', 'n', 'g']
}

/// The text "daemon is not running as a server".
pub open spec fn msg_not_a_server() -> Seq<char> {
    seq![
        'd', 'a', 'e', 'm', 'o', 'n', ' ', 'i', 's', ' ', 'n', 'o', 't', ' ', 'r', 'u', 'n', 'n', 'i', 'n', 'g', ' ', 'a',
        's', ' ', 'a', ' ', 's', 'e', 'r', 'v', 'e', 'r',
    ]
}

/// The text "runtime peer add not yet implemented".
pub open spec fn msg_no_peer_add() -> Seq<char> {
    seq![
        'r', 'u', 'n', 't', 'i', 'm', 'e', ' ', 'p', 'e', 'e', 'r', ' ', 'a', 'd', 'd', ' ', 'n', 'o', 't', ' ', 'y', 'e',
        't', ' ', 'i', 'm', 'p', 'l', 'e', 'm', 'e', 'n', 't', 'e', 'd',
    ]
}

/// The text "runtime peer remove not yet implemented".
pub open spec fn msg_no_peer_remove() -> Seq<char> {
    seq![
        'r', 'u', 'n', 't', 'i', 'm', 'e', ' ', 'p', 'e', 'e', 'r', ' ', 'r', 'e', 'm', 'o', 'v', 'e', ' ', 'n', 'o', 't',
        ' ', 'y', 'e', 't', ' ', 'i', 'm', 'p', 'l', 'e', 'm', 'e', 'n', 't', 'e', 'd',
    ]
}

/// The text "event streaming not yet implemented".
pub open spec fn msg_no_events() -> Seq<char> {
    seq![
        'e', 'v', 'e', 'n', 't', ' ', 's', 't', 'r', 'e', 'a', 'm', 'i', 'n', 'g', ' ', 'n', 'o', 't', ' ', 'y', 'e', 't',
        ' ', 'i', 'm', 'p', 'l', 'e', 'm', 'e', 'n', 't', 'e', 'd',
    ]
}

/// A role's name in lowercase: "server" or "client".
pub open spec fn role_word(role: ServerRole) -> Seq<char> {
    match role {
        ServerRole::Server => seq!['s', 'e', 'r', 'v', 'e', 'r'],
        ServerRole::Client => seq!['c', 'l', 'i', 'e', 'n', 't'],
    }
}

/// Whole seconds from `since_ms` to `now_ms`, zero if `now_ms` is earlier.
pub open spec fn elapsed_secs(now_ms: u64, since_ms: u64) -> u64 {
    if now_ms >= since_ms {
        ((now_ms - since_ms) / 1000) as u64
    } else {
        0
    }
}

/// `s` reports peer `p` at time `now_ms`.
pub open spec fn summarizes(s: PeerSummary, p: TrackedPeer, now_ms: u64) -> bool {
    &&& s.peer_id@ == uuid_hyphenated(p.peer_id.0)
    &&& s.name == p.name
    &&& s.remote_addr == p.remote_addr
    &&& s.connected_secs == elapsed_secs(now_ms, p.connected_at_ms)
    &&& s.last_rtt_ms == p.last_rtt_ms
}

/// `r` is the status report of `s` at time `now_ms` for daemon `version`.
pub open spec fn reports(r: StatusReply, s: DaemonState, version: Seq<char>, now_ms: u64) -> bool {
    &&& r.version@ == version
    &&& r.uptime_secs == now_ms / 1000
    &&& r.role@ == role_word(s.config.role)
    &&& r.local_fingerprint == s.fingerprint
    &&& r.connected_peers@.len() == s.peers@.len()
    &&& forall|i: int|
        0 <= i < s.peers@.len() ==> #[trigger] summarizes(r.connected_peers@[i], s.peers@[i], now_ms)
    &&& r.capturing == s.capturing
}

/// Law: the role a status report names reads back, under the configuration's
/// own role parser, as the daemon's configured role; so the two roles report
/// different texts.
pub proof fn lemma_status_role_reads_back(r: StatusReply, s: DaemonState, version: Seq<char>, now_ms: u64)
    requires
        reports(r, s, version, now_ms),
    ensures
        parse_role_spec(r.role@) == Some(s.config.role),
{
    let w = role_word(s.config.role);
    assert(w.map_values(|c: char| crate::pinning::ascii_lower(c)) =~= w);
}

/// Two states that agree on everything but the peer list.
pub open spec fn same_but_peers(a: DaemonState, b: DaemonState) -> bool {
    &&& a.config == b.config
    &&& a.capturing == b.capturing
    &&& a.fingerprint == b.fingerprint
    &&& a.listening == b.listening
    &&& a.listen_addr == b.listen_addr
    &&& a.server_running == b.server_running
    &&& a.can_serve == b.can_serve
}

/// The peers of `peers` other than `id`, in order.
pub open spec fn without_peer(peers: Seq<TrackedPeer>, id: PeerId) -> Seq<TrackedPeer> {
    peers.filter(|p: TrackedPeer| p.peer_id != id)
}

/// `t` is `s` after the server was stopped: nothing listens, nothing is
/// captured, no peer is left and no server runs.
pub open spec fn after_stop(s: DaemonState, t: DaemonState) -> bool {
    &&& t.config == s.config
    &&& t.fingerprint == s.fingerprint
    &&& t.can_serve == s.can_serve
    &&& !t.listening
    &&& !t.capturing
    &&& t.listen_addr is None
    &&& t.peers@.len() == 0
    &&& !t.server_running
}

/// The role's name as text.
fn role_text(role: ServerRole) -> (s: String)
    ensures
        s@ == role_word(role),
{
    proof {
        reveal_strlit("server");
        reveal_strlit("client");
    }
    match role {
        ServerRole::Server => String::from_str("server"),
        ServerRole::Client => String::from_str("client"),
    }
}

impl TrackedPeer {
    /// How this peer is reported at time `now_ms`.
    pub fn summary(&self, now_ms: u64) -> (s: PeerSummary)
        ensures
            summarizes(s, *self, now_ms),
    {
        let connected_secs = if now_ms >= self.connected_at_ms {
            (now_ms - self.connected_at_ms) / 1000
        } else {
            0
        };
        PeerSummary {
            peer_id: self.peer_id.to_text(),
            name: self.name.clone(),
            remote_addr: self.remote_addr.clone(),
            connected_secs,
            last_rtt_ms: self.last_rtt_ms,
        }
    }
}

impl DaemonState {
    /// A freshly started daemon: not capturing, no peers, no server up.
    pub fn new(config: Config, fingerprint: String, can_serve: bool) -> (s: Self)
        ensures
            s.config == config,
            s.fingerprint == fingerprint,
            s.can_serve == can_serve,
            !s.capturing,
            s.peers@.len() == 0,
            !s.listening,
            s.listen_addr is None,
            !s.server_running,
    {
        DaemonState {
            config,
            capturing: false,
            fingerprint,
            peers: Vec::new(),
            listening: false,
            listen_addr: None,
            server_running: false,
            can_serve,
        }
    }

    /// The status report at time `now_ms` for daemon `version`.
    pub fn status(&self, version: &str, now_ms: u64) -> (r: StatusReply)
        ensures
            reports(r, *self, version@, now_ms),
    {
        let mut peers: Vec<PeerSummary> = Vec::new();
        let mut i: usize = 0;
        while i < self.peers.len()
            invariant
                i <= self.peers@.len(),
                peers@.len() == i,
                forall|j: int| 0 <= j < i ==> #[trigger] summarizes(peers@[j], self.peers@[j], now_ms),
            decreases self.peers@.len() - i,
        {
            let s = self.peers[i].summary(now_ms);
            peers.push(s);
            i = i + 1;
        }
        StatusReply {
            version: String::from_str(version),
            uptime_secs: now_ms / 1000,
            role: role_text(self.config.role),
            local_fingerprint: self.fingerprint.clone(),
            connected_peers: peers,
            capturing: self.capturing,
        }
    }

    /// A peer connected: it joins the end of the list.
    pub fn on_peer_connected(&mut self, peer: TrackedPeer)
        ensures
            final(self).peers@ == old(self).peers@.push(peer),
            same_but_peers(*final(self), *old(self)),
    {
        self.peers.push(peer);
    }

    /// A peer disconnected: every entry with its identifier leaves the list,
    /// and the others keep their order.
    pub fn on_peer_disconnected(&mut self, peer_id: PeerId)
        ensures
            final(self).peers@ == without_peer(old(self).peers@, peer_id),
            same_but_peers(*final(self), *old(self)),
    {
        let ghost keep = |p: TrackedPeer| p.peer_id != peer_id;
        let ghost initial = self.peers@;
        let mut i: usize = 0;
        assert(self.peers@.subrange(0, 0).filter(keep) =~= self.peers@.subrange(0, 0));
        while i < self.peers.len()
            invariant
                i <= self.peers@.len(),
                self.peers@.filter(keep) == initial.filter(keep),
                self.peers@.subrange(0, i as int).filter(keep) == self.peers@.subrange(0, i as int),
                same_but_peers(*self, *old(self)),
                initial == old(self).peers@,
                keep == (|p: TrackedPeer| p.peer_id != peer_id),
            decreases self.peers@.len() - i,
        {
            let ghost before = self.peers@;
            if self.peers[i].peer_id == peer_id {
                proof {
                    let x = before[i as int];
                    let head = before.subrange(0, i as int);
                    let tail = before.subrange(i + 1, before.len() as int);
                    assert(before =~= head + (seq![x] + tail));
                    Seq::filter_distributes_over_add(head, seq![x] + tail, keep);
                    tail.lemma_filter_prepend(x, keep);
                    assert(!keep(x));
                    assert(before.remove(i as int) =~= head + tail);
                    Seq::filter_distributes_over_add(head, tail, keep);
                }
                self.peers.remove(i);
                proof {
                    assert(self.peers@.subrange(0, i as int) =~= before.subrange(0, i as int));
                }
            } else {
                proof {
                    let x = before[i as int];
                    let next = before.subrange(0, i + 1);
                    assert(next.drop_last() =~= before.subrange(0, i as int));
                    assert(next.last() == x);
                    reveal_with_fuel(Seq::filter, 1);
                    assert(next.filter(keep) =~= next);
                }
                i = i + 1;
            }
        }
        proof {
            assert(self.peers@.subrange(0, self.peers@.len() as int) =~= self.peers@);
        }
    }

    /// Whether a server may be brought up: not when one is running, and
    /// only in the server role.
    pub fn check_start_server(&self) -> (r: Result<(), String>)
        ensures
            self.server_running ==> (r matches Err(m) && m@ == msg_already_running()),
            !self.server_running && !self.can_serve ==> (r matches Err(m) && m@ == msg_not_a_server()),
            !self.server_running && self.can_serve ==> r is Ok,
    {
        proof {
            reveal_strlit("server is already running");
            reveal_strlit("daemon is not running as a server");
        }
        if self.server_running {
            assert("server is already running"@ =~= msg_already_running());
            return Err(String::from_str("server is already running"));
        }
        if !self.can_serve {
            assert("daemon is not running as a server"@ =~= msg_not_a_server());
            return Err(String::from_str("daemon is not running as a server"));
        }
        Ok(())
    }

    /// The server came up, bound to `listen_addr`: it listens and input is
    /// captured.
    pub fn record_server_started(&mut self, listen_addr: Option<SocketAddress>)
        ensures
            final(self).server_running,
            final(self).listening,
            final(self).capturing,
            final(self).listen_addr == listen_addr,
            final(self).config == old(self).config,
            final(self).fingerprint == old(self).fingerprint,
            final(self).peers == old(self).peers,
            final(self).can_serve == old(self).can_serve,
    {
        self.server_running = true;
        self.listening = true;
        self.capturing = true;
        self.listen_addr = listen_addr;
    }

    /// The server is torn down to idle. Returns whether one was running;
    /// stopping an idle daemon changes nothing that matters and succeeds.
    pub fn record_server_stopped(&mut self) -> (was_running: bool)
        ensures
            was_running == old(self).server_running,
            after_stop(*old(self), *final(self)),
    {
        self.listening = false;
        self.capturing = false;
        self.listen_addr = None;
        self.peers.clear();
        let was_running = self.server_running;
        self.server_running = false;
        was_running
    }
}

/// Law: stopping twice is stopping once. The second stop finds no server
/// running and leaves the state as the first one left it.
pub proof fn lemma_stop_idempotent(s: DaemonState, t: DaemonState, u: DaemonState)
    requires
        after_stop(s, t),
        after_stop(t, u),
    ensures
        !t.server_running,
        u.config == t.config,
        u.fingerprint == t.fingerprint,
        u.can_serve == t.can_serve,
        u.listening == t.listening,
        u.capturing == t.capturing,
        u.listen_addr == t.listen_addr,
        u.peers@ == t.peers@,
        u.server_running == t.server_running,
{
    assert(u.peers@ =~= t.peers@);
}

/// Law: a peer that disconnected is no longer listed, and every other
/// listed peer still is.
pub proof fn lemma_disconnect_removes(peers: Seq<TrackedPeer>, id: PeerId, i: int)
    requires
        0 <= i < peers.len(),
    ensures
        forall|j: int| 0 <= j < without_peer(peers, id).len() ==> #[trigger] without_peer(peers, id)[j].peer_id != id,
        peers[i].peer_id != id ==> without_peer(peers, id).contains(peers[i]),
{
    let keep = |p: TrackedPeer| p.peer_id != id;
    assert forall|j: int| 0 <= j < without_peer(peers, id).len() implies #[trigger] without_peer(peers, id)[j].peer_id
        != id by {
        peers.lemma_filter_pred(keep, j);
    }
    if peers[i].peer_id != id {
        peers.lemma_filter_contains(keep, i);
    }
}

/// What the daemon does with `req`. Status and configuration are read from
/// `state`; an update replaces the configuration; an emergency stop ends
/// capture; shutdown ends the process; the requests the daemon does not
/// serve yet are answered with an error saying so. `now_ms` is the time
/// since the daemon started.
pub fn handle_request(req: IpcRequest, state: &mut DaemonState, version: &str, now_ms: u64) -> (o: RequestOutcome)
    ensures
        match req {
            IpcRequest::GetStatus => *final(state) == *old(state) && (o matches RequestOutcome::Respond(
                IpcResponse::Status(r),
            ) && reports(r, *old(state), version@, now_ms)),
            IpcRequest::GetConfig => *final(state) == *old(state) && (o matches RequestOutcome::Respond(
                IpcResponse::Config(c),
            ) && c.same(old(state).config)),
            IpcRequest::UpdateConfig { config } => {
                &&& final(state).config == config
                &&& final(state).capturing == old(state).capturing
                &&& final(state).fingerprint == old(state).fingerprint
                &&& final(state).peers == old(state).peers
                &&& final(state).listening == old(state).listening
                &&& final(state).listen_addr == old(state).listen_addr
                &&& final(state).server_running == old(state).server_running
                &&& final(state).can_serve == old(state).can_serve
                &&& o matches RequestOutcome::Respond(IpcResponse::Success)
            },
            IpcRequest::Connect { .. } => *final(state) == *old(state) && (o matches RequestOutcome::Respond(
                IpcResponse::Error { message },
            ) && message@ == msg_no_peer_add()),
            IpcRequest::Disconnect { .. } => *final(state) == *old(state) && (o matches RequestOutcome::Respond(
                IpcResponse::Error { message },
            ) && message@ == msg_no_peer_remove()),
            IpcRequest::EmergencyStop => {
                &&& !final(state).capturing
                &&& final(state).config == old(state).config
                &&& final(state).fingerprint == old(state).fingerprint
                &&& final(state).peers == old(state).peers
                &&& final(state).listening == old(state).listening
                &&& final(state).listen_addr == old(state).listen_addr
                &&& final(state).server_running == old(state).server_running
                &&& final(state).can_serve == old(state).can_serve
                &&& o matches RequestOutcome::Respond(IpcResponse::Success)
            },
            IpcRequest::SubscribeEvents => *final(state) == *old(state) && (o matches RequestOutcome::Respond(
                IpcResponse::Error { message },
            ) && message@ == msg_no_events()),
            IpcRequest::GetLogs { .. } => *final(state) == *old(state) && (o matches RequestOutcome::Respond(
                IpcResponse::Logs { lines },
            ) && lines@.len() == 0),
            IpcRequest::Shutdown => *final(state) == *old(state) && o is Exit,
        },
{
    proof {
        reveal_strlit("runtime peer add not yet implemented");
        reveal_strlit("runtime peer remove not yet implemented");
        reveal_strlit("event streaming not yet implemented");
    }
    match req {
        IpcRequest::GetStatus => RequestOutcome::Respond(IpcResponse::Status(state.status(version, now_ms))),
        IpcRequest::GetConfig => RequestOutcome::Respond(IpcResponse::Config(state.config.clone())),
        IpcRequest::UpdateConfig { config } => {
            state.config = config;
            RequestOutcome::Respond(IpcResponse::Success)
        },
        IpcRequest::Connect { .. } => {
            assert("runtime peer add not yet implemented"@ =~= msg_no_peer_add());
            RequestOutcome::Respond(
                IpcResponse::Error { message: String::from_str("runtime peer add not yet implemented") },
            )
        },
        IpcRequest::Disconnect { .. } => {
            assert("runtime peer remove not yet implemented"@ =~= msg_no_peer_remove());
            RequestOutcome::Respond(
                IpcResponse::Error { message: String::from_str("runtime peer remove not yet implemented") },
            )
        },
        IpcRequest::EmergencyStop => {
            state.capturing = false;
            RequestOutcome::Respond(IpcResponse::Success)
        },
        IpcRequest::SubscribeEvents => {
            assert("event streaming not yet implemented"@ =~= msg_no_events());
            RequestOutcome::Respond(
                IpcResponse::Error { message: String::from_str("event streaming not yet implemented") },
            )
        },
        IpcRequest::GetLogs { .. } => RequestOutcome::Respond(IpcResponse::Logs { lines: Vec::new() }),
        IpcRequest::Shutdown => RequestOutcome::Exit,
    }
}

} // verus!
