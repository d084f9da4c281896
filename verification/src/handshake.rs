//! The connection handshake: the client's Hello, the server's checks and
//! Welcome, and the client's reading of the answer.
use crate::error::Error;
use crate::header::{MessageType, PROTOCOL_VERSION};
use crate::id::{PeerId, ScreenId};
use crate::message::{Capabilities, Hello, Message, Welcome};
use crate::text::{decimal, u64_to_string};
use vstd::prelude::*;

verus! {

/// The name of each message type, as its `Debug` form prints it.
pub open spec fn debug_name(t: MessageType) -> Seq<char> {
    match t {
        MessageType::Hello => seq!['H', 'e', 'l', 'l', 'o'],
        MessageType::Welcome => seq!['W', 'e', 'l', 'c', 'o', 'm', 'e'],
        MessageType::Goodbye => seq!['G', 'o', 'o', 'd', 'b', 'y', 'e'],
        MessageType::MouseMove => seq!['M', 'o', 'u', 's', 'e', 'M', 'o', 'v', 'e'],
        MessageType::MouseButton => seq!['M', 'o', 'u', 's', 'e', 'B', 'u', 't', 't', 'o', 'n'],
        MessageType::MouseScroll => seq!['M', 'o', 'u', 's', 'e', 'S', 'c', 'r', 'o', 'l', 'l'],
        MessageType::KeyEvent => seq!['K', 'e', 'y', 'E', 'v', 'e', 'n', 't'],
        MessageType::ScreenEnter => seq!['S', 'c', 'r', 'e', 'e', 'n', 'E', 'n', 't', 'e', 'r'],
        MessageType::ScreenLeave => seq!['S', 'c', 'r', 'e', 'e', 'n', 'L', 'e', 'a', 'v', 'e'],
        MessageType::ModifierSync => seq!['M', 'o', 'd', 'i', 'f', 'i', 'e', 'r', 'S', 'y', 'n', 'c'],
        MessageType::ClipboardFormats => seq!['C', 'l', 'i', 'p', 'b', 'o', 'a', 'r', 'd', 'F', 'o', 'r', 'm', 'a', 't', 's'],
        MessageType::ClipboardRequest => seq!['C', 'l', 'i', 'p', 'b', 'o', 'a', 'r', 'd', 'R', 'e', 'q', 'u', 'e', 's', 't'],
        MessageType::ClipboardData => seq!['C', 'l', 'i', 'p', 'b', 'o', 'a', 'r', 'd', 'D', 'a', 't', 'a'],
        MessageType::FileOfferStart => seq!['F', 'i', 'l', 'e', 'O', 'f', 'f', 'e', 'r', 'S', 't', 'a', 'r', 't'],
        MessageType::FileChunk => seq!['F', 'i', 'l', 'e', 'C', 'h', 'u', 'n', 'k'],
        MessageType::FileAck => seq!['F', 'i', 'l', 'e', 'A', 'c', 'k'],
        MessageType::FileTransferCancel => seq!['F', 'i', 'l', 'e', 'T', 'r', 'a', 'n', 's', 'f', 'e', 'r', 'C', 'a', 'n', 'c', 'e', 'l'],
        MessageType::Ping => seq!['P', 'i', 'n', 'g'],
        MessageType::Pong => seq!['P', 'o', 'n', 'g'],
        MessageType::Error => seq!['E', 'r', 'r', 'o', 'r'],
    }
}

/// The name of a message type, as its `Debug` form prints it.
pub fn message_type_name(t: MessageType) -> (s: &'static str)
    ensures
        s@ == debug_name(t),
{
    match t {
        MessageType::Hello => {
            proof {
                reveal_strlit("Hello");
            }
            "Hello"
        },
        MessageType::Welcome => {
            proof {
                reveal_strlit("Welcome");
            }
            "Welcome"
        },
        MessageType::Goodbye => {
            proof {
                reveal_strlit("Goodbye");
            }
            "Goodbye"
        },
        MessageType::MouseMove => {
            proof {
                reveal_strlit("MouseMove");
            }
            "MouseMove"
        },
        MessageType::MouseButton => {
            proof {
                reveal_strlit("MouseButton");
            }
            "MouseButton"
        },
        MessageType::MouseScroll => {
            proof {
                reveal_strlit("MouseScroll");
            }
            "MouseScroll"
        },
        MessageType::KeyEvent => {
            proof {
                reveal_strlit("KeyEvent");
            }
            "KeyEvent"
        },
        MessageType::ScreenEnter => {
            proof {
                reveal_strlit("ScreenEnter");
            }
            "ScreenEnter"
        },
        MessageType::ScreenLeave => {
            proof {
                reveal_strlit("ScreenLeave");
            }
            "ScreenLeave"
        },
        MessageType::ModifierSync => {
            proof {
                reveal_strlit("ModifierSync");
            }
            "ModifierSync"
        },
        MessageType::ClipboardFormats => {
            proof {
                reveal_strlit("ClipboardFormats");
            }
            "ClipboardFormats"
        },
        MessageType::ClipboardRequest => {
            proof {
                reveal_strlit("ClipboardRequest");
            }
            "ClipboardRequest"
        },
        MessageType::ClipboardData => {
            proof {
                reveal_strlit("ClipboardData");
            }
            "ClipboardData"
        },
        MessageType::FileOfferStart => {
            proof {
                reveal_strlit("FileOfferStart");
            }
            "FileOfferStart"
        },
        MessageType::FileChunk => {
            proof {
                reveal_strlit("FileChunk");
            }
            "FileChunk"
        },
        MessageType::FileAck => {
            proof {
                reveal_strlit("FileAck");
            }
            "FileAck"
        },
        MessageType::FileTransferCancel => {
            proof {
                reveal_strlit("FileTransferCancel");
            }
            "FileTransferCancel"
        },
        MessageType::Ping => {
            proof {
                reveal_strlit("Ping");
            }
            "Ping"
        },
        MessageType::Pong => {
            proof {
                reveal_strlit("Pong");
            }
            "Pong"
        },
        MessageType::Error => {
            proof {
                reveal_strlit("Error");
            }
            "Error"
        },
    }
}

/// The name of a message's kind: its wire type's name, or
/// "MouseMoveRelative" for relative motion, which has no wire type.
pub open spec fn kind_name(m: Message) -> Seq<char> {
    match m.spec_message_type() {
        Some(t) => debug_name(t),
        None => seq!['M', 'o', 'u', 's', 'e', 'M', 'o', 'v', 'e', 'R', 'e', 'l', 'a', 't', 'i', 'v', 'e'],
    }
}

/// The name of a message's kind, as [`kind_name`] gives it.
pub fn message_kind_name(m: &Message) -> (s: &'static str)
    ensures
        s@ == kind_name(*m),
{
    match m.message_type() {
        Some(t) => message_type_name(t),
        None => {
            proof {
                reveal_strlit("MouseMoveRelative");
            }
            "MouseMoveRelative"
        },
    }
}

/// The text "expected WANTED, got GOT".
pub open spec fn msg_expected(wanted: Seq<char>, got: Seq<char>) -> Seq<char> {
    seq!['e', 'x', 'p', 'e', 'c', 't', 'e', 'd', ' '] + wanted + seq![',', ' ', 'g', 'o', 't', ' '] + got
}

/// The text "version mismatch".
pub open spec fn msg_version_mismatch() -> Seq<char> {
    seq!['v', 'e', 'r', 's', 'i', 'o', 'n', ' ', 'm', 'i', 's', 'm', 'a', 't', 'c', 'h']
}

/// The screen the server assigns to a connecting client.
pub open spec fn first_client_screen() -> ScreenId {
    ScreenId(1)
}

/// The Hello a client sends: its identity, this protocol version, and every
/// optional feature.
pub fn hello_message(local_peer_id: PeerId, local_peer_name: String) -> (m: Message)
    ensures
        m matches Message::Hello(h) && h.peer_id == local_peer_id && h.peer_name@ == local_peer_name@
            && h.protocol_version == PROTOCOL_VERSION && h.capabilities == Capabilities::all(),
{
    Message::Hello(Hello {
        peer_id: local_peer_id,
        peer_name: local_peer_name,
        protocol_version: PROTOCOL_VERSION,
        capabilities: Capabilities::full(),
    })
}

/// The server's decision on a client's first message.
#[derive(Debug)]
pub enum HelloOutcome {
    /// The client is accepted: its Hello, and the Welcome to send back.
    Accept { hello: Hello, welcome: Message },
    /// The client is refused: the message to send back first, if any, and
    /// the error that ends the connection.
    Reject { reply: Option<Message>, error: Error },
}

/// Check a client's first message. It must be a Hello (else a protocol
/// error, with nothing sent back) of this protocol version (else an `Error`
/// message with code 1 goes back and the connection ends with a version
/// mismatch). An accepted client gets a Welcome with the features both sides
/// support and the first client screen.
pub fn answer_hello(msg: Message, local_peer_id: PeerId, local_peer_name: String) -> (o: HelloOutcome)
    ensures
        match msg {
            Message::Hello(h) => if h.protocol_version != PROTOCOL_VERSION {
                o matches HelloOutcome::Reject { reply, error }
                    && (reply matches Some(Message::Error { code, message }) && code == 1 && message@ == msg_version_mismatch())
                    && error == (Error::VersionMismatch { local: PROTOCOL_VERSION, remote: h.protocol_version })
            } else {
                o matches HelloOutcome::Accept { hello, welcome } && hello == h && (welcome matches Message::Welcome(w)
                    && w.peer_id == local_peer_id && w.peer_name@ == local_peer_name@
                    && w.accepted_capabilities == Capabilities::meet(Capabilities::all(), h.capabilities)
                    && w.assigned_screen == first_client_screen())
            },
            _ => o matches HelloOutcome::Reject { reply, error } && reply is None
                && (error matches Error::Protocol(m) && m@ == msg_expected(seq!['H', 'e', 'l', 'l', 'o'], kind_name(msg))),
        },
{
    proof {
        reveal_strlit("expected Hello, got ");
        reveal_strlit("version mismatch");
    }
    match msg {
        Message::Hello(hello) => {
            if hello.protocol_version != PROTOCOL_VERSION {
                let reply = Message::Error { code: 1, message: String::from_str("version mismatch") };
                let remote = hello.protocol_version;
                return HelloOutcome::Reject {
                    reply: Some(reply),
                    error: Error::VersionMismatch { local: PROTOCOL_VERSION, remote },
                };
            }
            let negotiated = Capabilities::full().negotiate(&hello.capabilities);
            let welcome = Message::Welcome(Welcome {
                peer_id: local_peer_id,
                peer_name: local_peer_name,
                accepted_capabilities: negotiated,
                assigned_screen: ScreenId(1),
            });
            HelloOutcome::Accept { hello, welcome }
        },
        other => {
            let name = message_kind_name(&other);
            let mut m = String::from_str("expected Hello, got ");
            m.append(name);
            assert(m@ =~= msg_expected(seq!['H', 'e', 'l', 'l', 'o'], kind_name(other)));
            HelloOutcome::Reject { reply: None, error: Error::Protocol(m) }
        },
    }
}

/// The text "[CODE] MESSAGE".
pub open spec fn msg_rejected(code: u32, message: Seq<char>) -> Seq<char> {
    seq!['['] + decimal(code as nat) + seq![']', ' '] + message
}

/// Read the server's answer to the Hello: a Welcome is accepted; an `Error`
/// message means the server refused the client; anything else is a protocol
/// error.
pub fn accept_welcome(msg: Message) -> (r: Result<Welcome, Error>)
    ensures
        match msg {
            Message::Welcome(w) => r == Ok::<Welcome, Error>(w),
            Message::Error { code, message } => r matches Err(Error::PeerRejected(m)) && m@ == msg_rejected(code, message@),
            _ => r matches Err(Error::Protocol(m)) && m@ == msg_expected(seq!['W', 'e', 'l', 'c', 'o', 'm', 'e'], kind_name(msg)),
        },
{
    proof {
        reveal_strlit("expected Welcome, got ");
        reveal_strlit("[");
        reveal_strlit("] ");
    }
    match msg {
        Message::Welcome(w) => Ok(w),
        Message::Error { code, message } => {
            let mut m = String::from_str("[");
            m.append(u64_to_string(code as u64).as_str());
            m.append("] ");
            m.append(message.as_str());
            assert(m@ =~= msg_rejected(code, message@));
            Err(Error::PeerRejected(m))
        },
        other => {
            let name = message_kind_name(&other);
            let mut m = String::from_str("expected Welcome, got ");
            m.append(name);
            assert(m@ =~= msg_expected(seq!['W', 'e', 'l', 'c', 'o', 'm', 'e'], kind_name(other)));
            Err(Error::Protocol(m))
        },
    }
}

/// Law: a server offering every feature grants a client exactly the features
/// it asked for.
pub proof fn lemma_full_offer_grants_request(h: Hello)
    ensures
        Capabilities::meet(Capabilities::all(), h.capabilities) == h.capabilities,
{
}

} // verus!
