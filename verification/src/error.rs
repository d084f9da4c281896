//! The error type shared by the library.
use crate::text::{decimal, u64_to_string};
use vstd::prelude::*;

verus! {

#[verifier::external_type_specification]
#[verifier::external_body]
pub struct ExIoError(std::io::Error);

/// Everything that can go wrong, by kind.
#[derive(Debug)]
pub enum Error {
    Io(std::io::Error),
    Config(String),
    /// No config file at this path.
    ConfigMissing(String),
    /// A TOML parse error, by its message.
    TomlDe(String),
    /// A TOML serialization error, by its message.
    TomlSer(String),
    Protocol(String),
    Network(String),
    Platform(String),
    Ipc(String),
    PeerRejected(String),
    VersionMismatch { local: u16, remote: u16 },
    EmergencyStop,
    Cancelled,
    NotConnected,
    Other(String),
}

/// The text of an I/O error, as the standard library writes it. It depends
/// on the operating system's messages, and nothing is stated of it.
#[verifier::external_body]
fn io_error_text(e: &std::io::Error) -> (s: String) {
    e.to_string()
}

/// The message of each kind of error, as shown to users.
pub open spec fn error_text(e: Error) -> Seq<char> {
    match e {
        Error::Io(_) => seq!['i', 'o', ' ', 'e', 'r', 'r', 'o', 'r', ':', ' '],
        Error::Config(m) => seq!['c', 'o', 'n', 'f', 'i', 'g', ' ', 'e', 'r', 'r', 'o', 'r', ':', ' '] + m@,
        Error::ConfigMissing(p) => seq![
            'c', 'o', 'n', 'f', 'i', 'g', ' ', 'f', 'i', 'l', 'e', ' ', 'n', 'o', 't', ' ', 'f', 'o', 'u', 'n', 'd', ' ',
            'a', 't', ' ',
        ] + p@,
        Error::TomlDe(m) => seq![
            't', 'o', 'm', 'l', ' ', 'p', 'a', 'r', 's', 'e', ' ', 'e', 'r', 'r', 'o', 'r', ':', ' ',
        ] + m@,
        Error::TomlSer(m) => seq![
            't', 'o', 'm', 'l', ' ', 's', 'e', 'r', 'i', 'a', 'l', 'i', 'z', 'e', ' ', 'e', 'r', 'r', 'o', 'r', ':', ' ',
        ] + m@,
        Error::Protocol(m) => seq!['p', 'r', 'o', 't', 'o', 'c', 'o', 'l', ' ', 'e', 'r', 'r', 'o', 'r', ':', ' '] + m@,
        Error::Network(m) => seq!['n', 'e', 't', 'w', 'o', 'r', 'k', ' ', 'e', 'r', 'r', 'o', 'r', ':', ' '] + m@,
        Error::Platform(m) => seq!['p', 'l', 'a', 't', 'f', 'o', 'r', 'm', ' ', 'e', 'r', 'r', 'o', 'r', ':', ' '] + m@,
        Error::Ipc(m) => seq!['i', 'p', 'c', ' ', 'e', 'r', 'r', 'o', 'r', ':', ' '] + m@,
        Error::PeerRejected(m) => seq!['p', 'e', 'e', 'r', ' ', 'r', 'e', 'j', 'e', 'c', 't', 'e', 'd', ':', ' '] + m@,
        Error::VersionMismatch { local, remote } => seq![
            'v', 'e', 'r', 's', 'i', 'o', 'n', ' ', 'm', 'i', 's', 'm', 'a', 't', 'c', 'h', ':', ' ', 'l', 'o', 'c', 'a',
            'l', '=',
        ] + decimal(local as nat) + seq![' ', 'r', 'e', 'm', 'o', 't', 'e', '='] + decimal(remote as nat),
        Error::EmergencyStop => seq![
            'e', 'm', 'e', 'r', 'g', 'e', 'n', 'c', 'y', ' ', 's', 't', 'o', 'p', ' ', 'a', 'c', 't', 'i', 'v', 'a', 't',
            'e', 'd',
        ],
        Error::Cancelled => seq!['o', 'p', 'e', 'r', 'a', 't', 'i', 'o', 'n', ' ', 'c', 'a', 'n', 'c', 'e', 'l', 'l', 'e', 'd'],
        Error::NotConnected => seq!['n', 'o', 't', ' ', 'c', 'o', 'n', 'n', 'e', 'c', 't', 'e', 'd'],
        Error::Other(m) => m@,
    }
}

impl Error {
    /// The error's message, as shown to users. For an I/O error it is
    /// "io error: " followed by the system's description.
    pub fn message(&self) -> (s: String)
        ensures
            self is Io ==> s@.len() >= 10 && s@.subrange(0, 10) == error_text(*self),
            !(self is Io) ==> s@ == error_text(*self),
    {
        proof {
            reveal_strlit("io error: ");
            reveal_strlit("config error: ");
            reveal_strlit("config file not found at ");
            reveal_strlit("toml parse error: ");
            reveal_strlit("toml serialize error: ");
            reveal_strlit("protocol error: ");
            reveal_strlit("network error: ");
            reveal_strlit("platform error: ");
            reveal_strlit("ipc error: ");
            reveal_strlit("peer rejected: ");
            reveal_strlit("version mismatch: local=");
            reveal_strlit(" remote=");
            reveal_strlit("emergency stop activated");
            reveal_strlit("operation cancelled");
            reveal_strlit("not connected");
        }
        let (prefix, rest): (&str, Option<&String>) = match self {
            Error::Io(_) => ("io error: ", None),
            Error::Config(m) => ("config error: ", Some(m)),
            Error::ConfigMissing(p) => ("config file not found at ", Some(p)),
            Error::TomlDe(m) => ("toml parse error: ", Some(m)),
            Error::TomlSer(m) => ("toml serialize error: ", Some(m)),
            Error::Protocol(m) => ("protocol error: ", Some(m)),
            Error::Network(m) => ("network error: ", Some(m)),
            Error::Platform(m) => ("platform error: ", Some(m)),
            Error::Ipc(m) => ("ipc error: ", Some(m)),
            Error::PeerRejected(m) => ("peer rejected: ", Some(m)),
            Error::VersionMismatch { local, remote } => {
                let mut s = String::from_str("version mismatch: local=");
                s.append(u64_to_string(*local as u64).as_str());
                s.append(" remote=");
                s.append(u64_to_string(*remote as u64).as_str());
                assert(s@ =~= error_text(*self));
                return s;
            },
            Error::EmergencyStop => ("emergency stop activated", None),
            Error::Cancelled => ("operation cancelled", None),
            Error::NotConnected => ("not connected", None),
            Error::Other(m) => ("", Some(m)),
        };
        let mut s = String::from_str(prefix);
        match self {
            Error::Io(e) => {
                let text = io_error_text(e);
                s.append(text.as_str());
                assert(s@.subrange(0, 10) =~= error_text(*self));
            },
            _ => {
                proof {
                    reveal_strlit("");
                }
                match rest {
                    Some(m) => s.append(m.as_str()),
                    None => {},
                }
                assert(s@ =~= error_text(*self));
            },
        }
        s
    }

    /// An error of no particular kind, with a message.
    pub fn other(msg: &str) -> (e: Self)
        ensures
            e matches Error::Other(s) && s@ == msg@,
    {
        Error::Other(String::from_str(msg))
    }
}

} // verus!
