//! What the GUI's status pane shows, as text: the daemon's status as
//! label/value rows and one card per connected peer, or why there is no
//! status to show. Drawing it is the GUI toolkit's business.
use crate::ipc::{PeerSummary, StatusReply};
use crate::text::{decimal, humantime, spec_humantime, u64_to_string};
use vstd::prelude::*;

verus! {

/// One connected peer, as its card shows it.
#[derive(Debug)]
pub struct PeerCard {
    pub name: String,
    pub peer_id: String,
    /// "remote: ADDRESS".
    pub remote: String,
    /// "connected: DURATION  •  rtt: N ms".
    pub connection: String,
}

/// What the status pane shows.
#[derive(Debug)]
pub enum StatusPane {
    /// The daemon could not be reached: the error, and how to start it.
    Unreachable { message: String, hint: String },
    /// No status has arrived yet.
    Connecting { message: String },
    /// The daemon's status.
    Ready { rows: Vec<(String, String)>, peers_heading: String, peers: Vec<PeerCard>, empty_note: Option<String> },
}

/// The texts of a list of label/value rows.
pub open spec fn row_texts(rows: Seq<(String, String)>) -> Seq<(Seq<char>, Seq<char>)> {
    rows.map_values(|r: (String, String)| (r.0@, r.1@))
}

/// "yes" or "no".
pub open spec fn yes_no(b: bool) -> Seq<char> {
    if b { seq!['y', 'e', 's'] } else { seq!['n', 'o'] }
}

/// The rows of the status table: version, role, uptime, fingerprint and
/// whether input is captured.
pub open spec fn status_rows(s: StatusReply) -> Seq<(Seq<char>, Seq<char>)> {
    seq![
        (seq!['V', 'e', 'r', 's', 'i', 'o', 'n'], s.version@),
        (seq!['R', 'o', 'l', 'e'], s.role@),
        (seq!['U', 'p', 't', 'i', 'm', 'e'], spec_humantime(s.uptime_secs)),
        (seq!['F', 'i', 'n', 'g', 'e', 'r', 'p', 'r', 'i', 'n', 't'], s.local_fingerprint@),
        (seq!['C', 'a', 'p', 't', 'u', 'r', 'i', 'n', 'g'], yes_no(s.capturing)),
    ]
}

/// The card of peer `p`.
pub open spec fn shows_peer(c: PeerCard, p: PeerSummary) -> bool {
    &&& c.name@ == p.name@
    &&& c.peer_id@ == p.peer_id@
    &&& c.remote@ == seq!['r', 'e', 'm', 'o', 't', 'e', ':', ' '] + p.remote_addr@
    &&& c.connection@ == seq!['c', 'o', 'n', 'n', 'e', 'c', 't', 'e', 'd', ':', ' '] + spec_humantime(p.connected_secs)
        + seq![' ', ' ', '\u{2022}', ' ', ' ', 'r', 't', 't', ':', ' '] + decimal(p.last_rtt_ms as nat) + seq![
        ' ',
        'm',
        's',
    ]
}

/// "Peers (N)".
pub open spec fn peers_heading(n: nat) -> Seq<char> {
    seq!['P', 'e', 'e', 'r', 's', ' ', '('] + decimal(n) + seq![')']
}

/// The text "no peers connected".
pub open spec fn no_peers_note() -> Seq<char> {
    seq!['n', 'o', ' ', 'p', 'e', 'e', 'r', 's', ' ', 'c', 'o', 'n', 'n', 'e', 'c', 't', 'e', 'd']
}

/// The text "daemon unreachable: ERROR".
pub open spec fn msg_unreachable(error: Seq<char>) -> Seq<char> {
    seq!['d', 'a', 'e', 'm', 'o', 'n', ' ', 'u', 'n', 'r', 'e', 'a', 'c', 'h', 'a', 'b', 'l', 'e', ':', ' '] + error
}

/// The card of a peer.
fn peer_card(p: &PeerSummary) -> (c: PeerCard)
    ensures
        shows_peer(c, *p),
{
    proof {
        reveal_strlit("remote: ");
        reveal_strlit("connected: ");
        reveal_strlit("  \u{2022}  rtt: ");
        reveal_strlit(" ms");
    }
    let mut remote = String::from_str("remote: ");
    remote.append(p.remote_addr.as_str());
    let mut connection = String::from_str("connected: ");
    connection.append(humantime(p.connected_secs).as_str());
    connection.append("  \u{2022}  rtt: ");
    connection.append(u64_to_string(p.last_rtt_ms as u64).as_str());
    connection.append(" ms");
    let c = PeerCard { name: p.name.clone(), peer_id: p.peer_id.clone(), remote, connection };
    assert(c.remote@ =~= seq!['r', 'e', 'm', 'o', 't', 'e', ':', ' '] + p.remote_addr@);
    assert(c.connection@ =~= seq!['c', 'o', 'n', 'n', 'e', 'c', 't', 'e', 'd', ':', ' '] + spec_humantime(
        p.connected_secs,
    ) + seq![' ', ' ', '\u{2022}', ' ', ' ', 'r', 't', 't', ':', ' '] + decimal(p.last_rtt_ms as nat) + seq![
        ' ',
        'm',
        's',
    ]);
    c
}

/// What the status pane shows, given the last error polling the daemon
/// (which wins) and the last status it returned.
pub fn status_pane(error: Option<String>, status: Option<&StatusReply>) -> (p: StatusPane)
    ensures
        match error {
            Some(e) => p matches StatusPane::Unreachable { message, hint } && message@ == msg_unreachable(e@),
            None => match status {
                None => p is Connecting,
                Some(s) => p matches StatusPane::Ready { rows, peers_heading: h, peers, empty_note } && row_texts(
                    rows@,
                ) == status_rows(*s) && h@ == peers_heading(s.connected_peers@.len()) && peers@.len()
                    == s.connected_peers@.len() && (forall|i: int|
                    0 <= i < peers@.len() ==> #[trigger] shows_peer(peers@[i], s.connected_peers@[i])) && (
                s.connected_peers@.len() == 0 ==> (empty_note matches Some(n) && n@ == no_peers_note())) && (
                s.connected_peers@.len() > 0 ==> empty_note is None),
            },
        },
{
    proof {
        reveal_strlit("daemon unreachable: ");
        reveal_strlit("Start the daemon with `inputsync-daemon run --role server`.");
        reveal_strlit("Connecting to daemon\u{2026}");
        reveal_strlit("Version");
        reveal_strlit("Role");
        reveal_strlit("Uptime");
        reveal_strlit("Fingerprint");
        reveal_strlit("Capturing");
        reveal_strlit("yes");
        reveal_strlit("no");
        reveal_strlit("Peers (");
        reveal_strlit(")");
        reveal_strlit("no peers connected");
    }
    if let Some(e) = error {
        let mut message = String::from_str("daemon unreachable: ");
        message.append(e.as_str());
        assert(message@ =~= msg_unreachable(e@));
        return StatusPane::Unreachable {
            message,
            hint: String::from_str("Start the daemon with `inputsync-daemon run --role server`."),
        };
    }
    let s = match status {
        None => return StatusPane::Connecting { message: String::from_str("Connecting to daemon\u{2026}") },
        Some(s) => s,
    };
    let mut rows: Vec<(String, String)> = Vec::new();
    rows.push((String::from_str("Version"), s.version.clone()));
    rows.push((String::from_str("Role"), s.role.clone()));
    rows.push((String::from_str("Uptime"), humantime(s.uptime_secs)));
    rows.push((String::from_str("Fingerprint"), s.local_fingerprint.clone()));
    rows.push((String::from_str("Capturing"), String::from_str(if s.capturing { "yes" } else { "no" })));
    assert("Version"@ =~= seq!['V', 'e', 'r', 's', 'i', 'o', 'n']);
    assert("Role"@ =~= seq!['R', 'o', 'l', 'e']);
    assert("Uptime"@ =~= seq!['U', 'p', 't', 'i', 'm', 'e']);
    assert("Fingerprint"@ =~= seq!['F', 'i', 'n', 'g', 'e', 'r', 'p', 'r', 'i', 'n', 't']);
    assert("Capturing"@ =~= seq!['C', 'a', 'p', 't', 'u', 'r', 'i', 'n', 'g']);
    assert("yes"@ =~= yes_no(true));
    assert("no"@ =~= yes_no(false));
    assert(row_texts(rows@) =~= status_rows(*s));
    let mut peers: Vec<PeerCard> = Vec::new();
    let mut i: usize = 0;
    while i < s.connected_peers.len()
        invariant
            i <= s.connected_peers@.len(),
            peers@.len() == i,
            forall|j: int| 0 <= j < i ==> #[trigger] shows_peer(peers@[j], s.connected_peers@[j]),
        decreases s.connected_peers@.len() - i,
    {
        peers.push(peer_card(&s.connected_peers[i]));
        i = i + 1;
    }
    let mut heading = String::from_str("Peers (");
    heading.append(u64_to_string(s.connected_peers.len() as u64).as_str());
    heading.append(")");
    assert(heading@ =~= peers_heading(s.connected_peers@.len()));
    let empty_note = if s.connected_peers.len() == 0 {
        assert("no peers connected"@ =~= no_peers_note());
        Some(String::from_str("no peers connected"))
    } else {
        None
    };
    StatusPane::Ready { rows, peers_heading: heading, peers, empty_note }
}

} // verus!
