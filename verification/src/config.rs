//! Configuration: role, network, clipboard and file transfer settings.
use crate::error::Error;
use crate::pinning::ascii_lower;
use crate::screen::ScreenLayout;
use vstd::prelude::*;

verus! {

/// Whether this machine shares its keyboard and mouse (server) or is
/// controlled (client).
#[derive(Debug, Clone, Copy, PartialEq, Eq, Structural)]
pub enum ServerRole {
    Server,
    Client,
}

/// An IP address.
#[derive(Debug, Clone, Copy)]
pub enum IpAddress {
    V4([u8; 4]),
    V6([u16; 8]),
}

/// An IP address and port.
#[derive(Debug, Clone, Copy)]
pub struct SocketAddress {
    pub ip: IpAddress,
    pub port: u16,
}

/// Network settings.
#[derive(Debug)]
pub struct NetworkConfig {
    pub listen: SocketAddress,
    pub connect: Option<SocketAddress>,
    pub heartbeat_interval_ms: u64,
    pub heartbeat_timeout_ms: u64,
    pub reconnect_initial_ms: u64,
    pub reconnect_max_ms: u64,
    pub trusted_fingerprints: Vec<String>,
}

impl NetworkConfig {
    /// The two hold the same settings.
    pub open spec fn same(self, other: Self) -> bool {
        &&& self.listen == other.listen
        &&& self.connect == other.connect
        &&& self.heartbeat_interval_ms == other.heartbeat_interval_ms
        &&& self.heartbeat_timeout_ms == other.heartbeat_timeout_ms
        &&& self.reconnect_initial_ms == other.reconnect_initial_ms
        &&& self.reconnect_max_ms == other.reconnect_max_ms
        &&& self.trusted_fingerprints@ == other.trusted_fingerprints@
    }
}

impl Clone for NetworkConfig {
    /// A copy with the same settings.
    fn clone(&self) -> (c: Self)
        ensures
            c.same(*self),
    {
        let trusted_fingerprints = self.trusted_fingerprints.clone();
        assert(trusted_fingerprints@ =~= self.trusted_fingerprints@);
        NetworkConfig {
            listen: self.listen,
            connect: self.connect,
            heartbeat_interval_ms: self.heartbeat_interval_ms,
            heartbeat_timeout_ms: self.heartbeat_timeout_ms,
            reconnect_initial_ms: self.reconnect_initial_ms,
            reconnect_max_ms: self.reconnect_max_ms,
            trusted_fingerprints,
        }
    }
}

impl Default for NetworkConfig {
    /// Listen on 0.0.0.0:24800, dial nothing, ping every 2 s, give up after
    /// 6 s, reconnect after 500 ms backing off to 30 s, pin nothing.
    fn default() -> (c: Self)
        ensures
            c.listen == (SocketAddress { ip: IpAddress::V4([0, 0, 0, 0]), port: 24800 }),
            c.connect is None,
            c.heartbeat_interval_ms == 2000,
            c.heartbeat_timeout_ms == 6000,
            c.reconnect_initial_ms == 500,
            c.reconnect_max_ms == 30000,
            c.trusted_fingerprints@.len() == 0,
    {
        NetworkConfig {
            listen: SocketAddress { ip: IpAddress::V4([0, 0, 0, 0]), port: 24800 },
            connect: None,
            heartbeat_interval_ms: 2_000,
            heartbeat_timeout_ms: 6_000,
            reconnect_initial_ms: 500,
            reconnect_max_ms: 30_000,
            trusted_fingerprints: Vec::new(),
        }
    }
}

/// Clipboard settings.
#[derive(Debug, Clone, Copy, PartialEq, Eq, Structural)]
pub struct ClipboardConfig {
    pub enabled: bool,
    pub max_bytes: u64,
    pub sync_images: bool,
    pub sync_files: bool,
}

impl Default for ClipboardConfig {
    /// Enabled, 100 MiB cap, images and files synced.
    fn default() -> (c: Self)
        ensures
            c == (ClipboardConfig { enabled: true, max_bytes: 104857600, sync_images: true, sync_files: true }),
    {
        ClipboardConfig { enabled: true, max_bytes: 100 * 1024 * 1024, sync_images: true, sync_files: true }
    }
}

/// File transfer settings.
#[derive(Debug)]
pub struct FileTransferConfig {
    pub enabled: bool,
    /// Where received files go; the platform's download folder when unset.
    pub drop_dir: Option<String>,
    pub chunk_size: u32,
    pub max_concurrent: u32,
    pub compress: bool,
}

impl Clone for FileTransferConfig {
    /// An equal copy.
    fn clone(&self) -> (c: Self)
        ensures
            c == *self,
    {
        let drop_dir = match &self.drop_dir {
            Some(d) => Some(d.clone()),
            None => None,
        };
        FileTransferConfig {
            enabled: self.enabled,
            drop_dir,
            chunk_size: self.chunk_size,
            max_concurrent: self.max_concurrent,
            compress: self.compress,
        }
    }
}

impl Default for FileTransferConfig {
    /// Enabled, default drop directory, 64 KiB chunks, 4 at a time,
    /// compressed.
    fn default() -> (c: Self)
        ensures
            c.enabled,
            c.drop_dir is None,
            c.chunk_size == 65536,
            c.max_concurrent == 4,
            c.compress,
    {
        FileTransferConfig { enabled: true, drop_dir: None, chunk_size: 64 * 1024, max_concurrent: 4, compress: true }
    }
}

/// The whole configuration.
#[derive(Debug)]
pub struct Config {
    pub role: ServerRole,
    pub peer_name: String,
    pub network: NetworkConfig,
    pub clipboard: ClipboardConfig,
    pub file_transfer: FileTransferConfig,
    pub layout: ScreenLayout,
    pub emergency_hotkey: String,
    pub log_dir: Option<String>,
}

/// `c` is the default configuration for a machine named `name`: server
/// role, default sections, an empty layout, Ctrl+Alt+Shift+Esc as the
/// emergency hotkey, and the default log directory.
pub open spec fn is_default_for(c: Config, name: Seq<char>) -> bool {
    &&& c.role == ServerRole::Server
    &&& c.peer_name@ == name
    &&& c.network.listen == (SocketAddress { ip: IpAddress::V4([0, 0, 0, 0]), port: 24800 })
    &&& c.network.connect is None
    &&& c.network.heartbeat_interval_ms == 2000
    &&& c.network.heartbeat_timeout_ms == 6000
    &&& c.network.reconnect_initial_ms == 500
    &&& c.network.reconnect_max_ms == 30000
    &&& c.network.trusted_fingerprints@.len() == 0
    &&& c.clipboard == (ClipboardConfig { enabled: true, max_bytes: 104857600, sync_images: true, sync_files: true })
    &&& c.file_transfer.enabled && c.file_transfer.drop_dir is None && c.file_transfer.chunk_size == 65536
        && c.file_transfer.max_concurrent == 4 && c.file_transfer.compress
    &&& c.layout.screens@.len() == 0
    &&& c.layout.neighbours@.len() == 0
    &&& c.emergency_hotkey@ == default_hotkey()
    &&& c.log_dir is None
}

impl Config {
    /// The two hold the same settings.
    pub open spec fn same(self, other: Self) -> bool {
        &&& self.role == other.role
        &&& self.peer_name == other.peer_name
        &&& self.network.same(other.network)
        &&& self.clipboard == other.clipboard
        &&& self.file_transfer == other.file_transfer
        &&& self.layout.screens@ == other.layout.screens@
        &&& self.layout.neighbours@ == other.layout.neighbours@
        &&& self.emergency_hotkey == other.emergency_hotkey
        &&& self.log_dir == other.log_dir
    }
}

impl Clone for Config {
    /// A copy with the same settings.
    fn clone(&self) -> (c: Self)
        ensures
            c.same(*self),
    {
        let log_dir = match &self.log_dir {
            Some(d) => Some(d.clone()),
            None => None,
        };
        Config {
            role: self.role,
            peer_name: self.peer_name.clone(),
            network: self.network.clone(),
            clipboard: self.clipboard,
            file_transfer: self.file_transfer.clone(),
            layout: self.layout.clone(),
            emergency_hotkey: self.emergency_hotkey.clone(),
            log_dir,
        }
    }
}

/// The text "Ctrl+Alt+Shift+Esc".
pub open spec fn default_hotkey() -> Seq<char> {
    seq!['C', 't', 'r', 'l', '+', 'A', 'l', 't', '+', 'S', 'h', 'i', 'f', 't', '+', 'E', 's', 'c']
}

/// The text "unknown".
pub open spec fn unknown_name() -> Seq<char> {
    seq!['u', 'n', 'k', 'n', 'o', 'w', 'n']
}

/// The machine's name for peers: the `COMPUTERNAME` variable, else
/// `HOSTNAME`, else "unknown". The caller reads the variables.
pub fn peer_name_from_env(computername: Option<String>, hostname: Option<String>) -> (n: String)
    ensures
        n@ == (match computername {
            Some(c) => c@,
            None => match hostname {
                Some(h) => h@,
                None => unknown_name(),
            },
        }),
{
    proof {
        reveal_strlit("unknown");
    }
    match computername {
        Some(c) => c,
        None => match hostname {
            Some(h) => h,
            None => String::from_str("unknown"),
        },
    }
}

impl Config {
    /// The default configuration for a machine named `peer_name`: server
    /// role, default sections, an empty layout, Ctrl+Alt+Shift+Esc as the
    /// emergency hotkey, and the default log directory.
    pub fn default_for(peer_name: String) -> (c: Self)
        ensures
            is_default_for(c, peer_name@),
    {
        proof {
            reveal_strlit("Ctrl+Alt+Shift+Esc");
        }
        assert("Ctrl+Alt+Shift+Esc"@ =~= default_hotkey());
        let layout = ScreenLayout::default();
        assert(layout.screens@.len() == 0);
        Config {
            role: ServerRole::Server,
            peer_name,
            network: NetworkConfig::default(),
            clipboard: ClipboardConfig::default(),
            file_transfer: FileTransferConfig::default(),
            layout,
            emergency_hotkey: String::from_str("Ctrl+Alt+Shift+Esc"),
            log_dir: None,
        }
    }
}

/// `str::to_ascii_lowercase`: a copy with ASCII letters made lowercase.
#[verifier::external_body]
fn lowercase_ascii(s: &str) -> (r: String)
    ensures
        r@ == s@.map_values(|c: char| ascii_lower(c)),
{
    s.to_ascii_lowercase()
}

/// The text "server".
pub open spec fn server_word() -> Seq<char> {
    seq!['s', 'e', 'r', 'v', 'e', 'r']
}

/// The text "client".
pub open spec fn client_word() -> Seq<char> {
    seq!['c', 'l', 'i', 'e', 'n', 't']
}

/// The text "unknown role 'ROLE'; expected server or client".
pub open spec fn msg_unknown_role(role: Seq<char>) -> Seq<char> {
    seq!['u', 'n', 'k', 'n', 'o', 'w', 'n', ' ', 'r', 'o', 'l', 'e', ' ', '\''] + role + seq![
        '\'', ';', ' ', 'e', 'x', 'p', 'e', 'c', 't', 'e', 'd', ' ', 's', 'e', 'r', 'v', 'e', 'r', ' ',
        'o', 'r', ' ', 'c', 'l', 'i', 'e', 'n', 't',
    ]
}

/// Whether two texts are equal.
fn text_eq(a: &str, b: &str) -> (r: bool)
    ensures
        r == (a@ == b@),
{
    let n = a.unicode_len();
    if n != b.unicode_len() {
        return false;
    }
    let mut i: usize = 0;
    while i < n
        invariant
            n == a@.len(),
            n == b@.len(),
            i <= n,
            forall|j: int| 0 <= j < i ==> a@[j] == b@[j],
        decreases n - i,
    {
        if a.get_char(i) != b.get_char(i) {
            return false;
        }
        i = i + 1;
    }
    assert(a@ =~= b@);
    true
}

/// Parse a role given on the command line, without regard to ASCII case:
/// "server" or "client", or the error naming the (lowercased) role.
pub fn parse_role(role: &str) -> (r: Result<ServerRole, String>)
    ensures
        ({
            let lower = role@.map_values(|c: char| ascii_lower(c));
            &&& lower == server_word() ==> r == Ok::<ServerRole, String>(ServerRole::Server)
            &&& lower == client_word() ==> r == Ok::<ServerRole, String>(ServerRole::Client)
            &&& lower != server_word() && lower != client_word() ==> (r matches Err(m) && m@ == msg_unknown_role(lower))
        }),
{
    proof {
        reveal_strlit("server");
        reveal_strlit("client");
        reveal_strlit("unknown role '");
        reveal_strlit("'; expected server or client");
    }
    let lower = lowercase_ascii(role);
    assert("server"@ =~= server_word());
    assert("client"@ =~= client_word());
    if text_eq(lower.as_str(), "server") {
        Ok(ServerRole::Server)
    } else if text_eq(lower.as_str(), "client") {
        Ok(ServerRole::Client)
    } else {
        let mut m = String::from_str("unknown role '");
        m.append(lower.as_str());
        m.append("'; expected server or client");
        assert(m@ =~= msg_unknown_role(role@.map_values(|c: char| ascii_lower(c))));
        Err(m)
    }
}

/// The text "config already exists at PATH; pass --force to overwrite".
pub open spec fn msg_config_exists(path: Seq<char>) -> Seq<char> {
    seq!['c', 'o', 'n', 'f', 'i', 'g', ' ', 'a', 'l', 'r', 'e', 'a', 'd', 'y', ' ', 'e', 'x', 'i', 's', 't', 's', ' ', 'a', 't', ' ']
        + path + seq![
        ';', ' ', 'p', 'a', 's', 's', ' ', '-', '-', 'f', 'o', 'r', 'c', 'e', ' ', 't', 'o', ' ', 'o', 'v', 'e', 'r', 'w',
        'r', 'i', 't', 'e',
    ]
}

/// Whether a default configuration may be written to `path`: not over an
/// existing file unless forced.
pub fn init_config_check(path: &str, exists: bool, force: bool) -> (r: Result<(), String>)
    ensures
        exists && !force ==> (r matches Err(m) && m@ == msg_config_exists(path@)),
        !(exists && !force) ==> r is Ok,
{
    if exists && !force {
        proof {
            reveal_strlit("config already exists at ");
            reveal_strlit("; pass --force to overwrite");
        }
        let mut m = String::from_str("config already exists at ");
        m.append(path);
        m.append("; pass --force to overwrite");
        assert(m@ =~= msg_config_exists(path@));
        return Err(m);
    }
    Ok(())
}

/// The configuration a daemon runs with, given what loading its file gave:
/// the loaded one; the defaults for a machine named `peer_name` when there
/// is no file; any other error as it is.
pub fn config_or_default(loaded: Result<Config, Error>, peer_name: String) -> (r: Result<Config, Error>)
    ensures
        match loaded {
            Ok(c) => r == Ok::<Config, Error>(c),
            Err(Error::ConfigMissing(_)) => r matches Ok(c) && is_default_for(c, peer_name@),
            Err(e) => r == Err::<Config, Error>(e),
        },
{
    match loaded {
        Ok(c) => Ok(c),
        Err(Error::ConfigMissing(_)) => Ok(Config::default_for(peer_name)),
        Err(e) => Err(e),
    }
}

/// Apply the command-line overrides to a loaded configuration: the role
/// (parsed as [`parse_role`]; on error nothing else is applied), the listen
/// and connect addresses when given, and the pinned fingerprints when any
/// are given.
pub fn apply_overrides(
    config: &mut Config,
    role: Option<String>,
    listen: Option<SocketAddress>,
    connect: Option<SocketAddress>,
    pins: Vec<String>,
) -> (r: Result<(), String>)
    ensures
        match role {
            Some(s) => match parse_role_spec(s@) {
                None => r is Err && final(config).role == old(config).role,
                Some(parsed) => r is Ok && final(config).role == parsed,
            },
            None => r is Ok && final(config).role == old(config).role,
        },
        r is Ok ==> {
            &&& final(config).network.listen == (match listen {
                Some(l) => l,
                None => old(config).network.listen,
            })
            &&& final(config).network.connect == (match connect {
                Some(c) => Some(c),
                None => old(config).network.connect,
            })
            &&& final(config).network.trusted_fingerprints@ == (if pins@.len() == 0 {
                old(config).network.trusted_fingerprints@
            } else {
                pins@
            })
            &&& final(config).peer_name == old(config).peer_name
            &&& final(config).clipboard == old(config).clipboard
            &&& final(config).network.heartbeat_interval_ms == old(config).network.heartbeat_interval_ms
        },
{
    if let Some(s) = role {
        match parse_role(s.as_str()) {
            Ok(parsed) => config.role = parsed,
            Err(e) => return Err(e),
        }
    }
    if let Some(l) = listen {
        config.network.listen = l;
    }
    if let Some(c) = connect {
        config.network.connect = Some(c);
    }
    if pins.len() != 0 {
        config.network.trusted_fingerprints = pins;
    }
    Ok(())
}

/// The role named by `s`, without regard to ASCII case.
pub open spec fn parse_role_spec(s: Seq<char>) -> Option<ServerRole> {
    let lower = s.map_values(|c: char| ascii_lower(c));
    if lower == server_word() {
        Some(ServerRole::Server)
    } else if lower == client_word() {
        Some(ServerRole::Client)
    } else {
        None
    }
}

} // verus!
