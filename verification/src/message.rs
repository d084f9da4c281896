//! The messages carried on the wire, one per message type.
use crate::event::{InputEvent, KeyEvent, ModifierState, MouseEvent};
use crate::header::MessageType;
use crate::id::{PeerId, ScreenId};
use vstd::prelude::*;

verus! {

/// Optional features; a session uses only those both sides support.
#[derive(Debug, Clone, Copy, PartialEq, Eq, Structural)]
pub struct Capabilities {
    pub clipboard_text: bool,
    pub clipboard_html: bool,
    pub clipboard_image: bool,
    pub clipboard_files: bool,
    pub file_transfer: bool,
    pub zstd_compression: bool,
}

impl Default for Capabilities {
    /// No optional feature.
    fn default() -> (c: Self)
        ensures
            c == Capabilities::none(),
    {
        Capabilities {
            clipboard_text: false,
            clipboard_html: false,
            clipboard_image: false,
            clipboard_files: false,
            file_transfer: false,
            zstd_compression: false,
        }
    }
}

impl Capabilities {
    /// Every optional feature.
    pub open spec fn all() -> Capabilities {
        Capabilities {
            clipboard_text: true,
            clipboard_html: true,
            clipboard_image: true,
            clipboard_files: true,
            file_transfer: true,
            zstd_compression: true,
        }
    }

    /// No optional feature.
    pub open spec fn none() -> Capabilities {
        Capabilities {
            clipboard_text: false,
            clipboard_html: false,
            clipboard_image: false,
            clipboard_files: false,
            file_transfer: false,
            zstd_compression: false,
        }
    }

    /// The features both `a` and `b` support.
    pub open spec fn meet(a: Capabilities, b: Capabilities) -> Capabilities {
        Capabilities {
            clipboard_text: a.clipboard_text && b.clipboard_text,
            clipboard_html: a.clipboard_html && b.clipboard_html,
            clipboard_image: a.clipboard_image && b.clipboard_image,
            clipboard_files: a.clipboard_files && b.clipboard_files,
            file_transfer: a.file_transfer && b.file_transfer,
            zstd_compression: a.zstd_compression && b.zstd_compression,
        }
    }

    /// Every feature of `a` is also a feature of `b`.
    pub open spec fn within(a: Capabilities, b: Capabilities) -> bool {
        &&& a.clipboard_text ==> b.clipboard_text
        &&& a.clipboard_html ==> b.clipboard_html
        &&& a.clipboard_image ==> b.clipboard_image
        &&& a.clipboard_files ==> b.clipboard_files
        &&& a.file_transfer ==> b.file_transfer
        &&& a.zstd_compression ==> b.zstd_compression
    }

    /// Every optional feature.
    pub fn full() -> (c: Self)
        ensures
            c == Capabilities::all(),
    {
        Capabilities {
            clipboard_text: true,
            clipboard_html: true,
            clipboard_image: true,
            clipboard_files: true,
            file_transfer: true,
            zstd_compression: true,
        }
    }

    /// Intersection: only the features both sides support.
    pub fn negotiate(&self, other: &Self) -> (c: Self)
        ensures
            c == Capabilities::meet(*self, *other),
    {
        Capabilities {
            clipboard_text: self.clipboard_text && other.clipboard_text,
            clipboard_html: self.clipboard_html && other.clipboard_html,
            clipboard_image: self.clipboard_image && other.clipboard_image,
            clipboard_files: self.clipboard_files && other.clipboard_files,
            file_transfer: self.file_transfer && other.file_transfer,
            zstd_compression: self.zstd_compression && other.zstd_compression,
        }
    }
}

/// Law: negotiation is symmetric, keeps only features both sides offer, and
/// negotiating again changes nothing.
pub proof fn lemma_negotiate_laws(a: Capabilities, b: Capabilities)
    ensures
        Capabilities::meet(a, b) == Capabilities::meet(b, a),
        Capabilities::within(Capabilities::meet(a, b), a),
        Capabilities::within(Capabilities::meet(a, b), b),
        Capabilities::meet(Capabilities::meet(a, b), b) == Capabilities::meet(a, b),
        Capabilities::meet(a, a) == a,
{
}

/// Law: negotiating with a peer that offers everything yields exactly the
/// other side's features, and with a peer that offers nothing yields none.
pub proof fn lemma_negotiate_identity(a: Capabilities)
    ensures
        Capabilities::meet(Capabilities::all(), a) == a,
        Capabilities::meet(a, Capabilities::none()) == Capabilities::none(),
{
}

/// First message sent by a connecting client.
#[derive(Debug, Clone)]
pub struct Hello {
    pub peer_id: PeerId,
    pub peer_name: String,
    pub protocol_version: u16,
    pub capabilities: Capabilities,
}

/// Server's accept message.
#[derive(Debug, Clone)]
pub struct Welcome {
    pub peer_id: PeerId,
    pub peer_name: String,
    pub accepted_capabilities: Capabilities,
    pub assigned_screen: ScreenId,
}

/// Clean shutdown notification.
#[derive(Debug, Clone)]
pub struct Goodbye {
    pub reason: String,
}

/// A clipboard content format.
#[derive(Debug, Clone, Copy, PartialEq, Eq, Hash, Structural)]
pub enum ClipboardFormat {
    PlainText,
    Html,
    Rtf,
    Png,
    UriList,
}

/// Clipboard content sent to a peer that asked for it.
#[derive(Debug, Clone)]
pub struct ClipboardPayload {
    pub format: ClipboardFormat,
    pub bytes: Vec<u8>,
    pub originator: PeerId,
    pub hash: [u8; 32],
}

/// Announcement of a file transfer.
#[derive(Debug, Clone)]
pub struct FileOffer {
    pub transfer_id: u64,
    pub manifest: FileManifest,
    pub compressed: bool,
}

/// The files of a transfer and their total size.
#[derive(Debug, Clone)]
pub struct FileManifest {
    pub files: Vec<FileEntry>,
    pub total_bytes: u64,
}

/// One file of a transfer.
#[derive(Debug, Clone)]
pub struct FileEntry {
    pub relative_path: String,
    pub size: u64,
    pub blake3: [u8; 32],
}

/// A piece of one file of a transfer.
#[derive(Debug, Clone)]
pub struct FileChunk {
    pub transfer_id: u64,
    pub file_index: u32,
    pub offset: u64,
    pub data: Vec<u8>,
    pub is_last: bool,
}

/// Every payload that can be carried on the wire. Each variant maps 1:1 to a
/// [`MessageType`].
#[derive(Debug, Clone)]
pub enum Message {
    Hello(Hello),
    Welcome(Welcome),
    Goodbye(Goodbye),
    MouseMove { x: i32, y: i32 },
    /// Relative mouse movement (used while the server's cursor is pinned at a
    /// screen edge after a crossing; the client applies dx/dy).
    MouseMoveRelative { dx: i32, dy: i32 },
    MouseButton(MouseEvent),
    MouseScroll(MouseEvent),
    KeyEvent(KeyEvent),
    ScreenEnter { x: i32, y: i32, modifiers: ModifierState },
    ScreenLeave { peer_screen: u32 },
    ModifierSync(ModifierState),
    ClipboardFormats { formats: Vec<ClipboardFormat>, hash: [u8; 32] },
    ClipboardRequest { format: ClipboardFormat },
    ClipboardData(ClipboardPayload),
    FileOfferStart(FileOffer),
    FileChunk(FileChunk),
    FileAck { transfer_id: u64, received_through: u64 },
    FileTransferCancel { transfer_id: u64, reason: String },
    Ping { nonce: u64, timestamp_ms: u64 },
    Pong { nonce: u64, timestamp_ms: u64 },
    Error { code: u32, message: String },
}

impl Message {
    /// The wire message type of each variant. Relative mouse motion has no
    /// identifier in the protocol's type table, so it has none here.
    pub open spec fn spec_message_type(&self) -> Option<MessageType> {
        match self {
            Message::Hello(_) => Some(MessageType::Hello),
            Message::Welcome(_) => Some(MessageType::Welcome),
            Message::Goodbye(_) => Some(MessageType::Goodbye),
            Message::MouseMove { .. } => Some(MessageType::MouseMove),
            Message::MouseMoveRelative { .. } => None,
            Message::MouseButton(_) => Some(MessageType::MouseButton),
            Message::MouseScroll(_) => Some(MessageType::MouseScroll),
            Message::KeyEvent(_) => Some(MessageType::KeyEvent),
            Message::ScreenEnter { .. } => Some(MessageType::ScreenEnter),
            Message::ScreenLeave { .. } => Some(MessageType::ScreenLeave),
            Message::ModifierSync(_) => Some(MessageType::ModifierSync),
            Message::ClipboardFormats { .. } => Some(MessageType::ClipboardFormats),
            Message::ClipboardRequest { .. } => Some(MessageType::ClipboardRequest),
            Message::ClipboardData(_) => Some(MessageType::ClipboardData),
            Message::FileOfferStart(_) => Some(MessageType::FileOfferStart),
            Message::FileChunk(_) => Some(MessageType::FileChunk),
            Message::FileAck { .. } => Some(MessageType::FileAck),
            Message::FileTransferCancel { .. } => Some(MessageType::FileTransferCancel),
            Message::Ping { .. } => Some(MessageType::Ping),
            Message::Pong { .. } => Some(MessageType::Pong),
            Message::Error { .. } => Some(MessageType::Error),
        }
    }

    /// The wire message type of this message, or `None` for relative mouse
    /// motion, which the protocol's type table does not list.
    pub fn message_type(&self) -> (t: Option<MessageType>)
        ensures
            t == self.spec_message_type(),
    {
        match self {
            Message::Hello(_) => Some(MessageType::Hello),
            Message::Welcome(_) => Some(MessageType::Welcome),
            Message::Goodbye(_) => Some(MessageType::Goodbye),
            Message::MouseMove { .. } => Some(MessageType::MouseMove),
            Message::MouseMoveRelative { .. } => None,
            Message::MouseButton(_) => Some(MessageType::MouseButton),
            Message::MouseScroll(_) => Some(MessageType::MouseScroll),
            Message::KeyEvent(_) => Some(MessageType::KeyEvent),
            Message::ScreenEnter { .. } => Some(MessageType::ScreenEnter),
            Message::ScreenLeave { .. } => Some(MessageType::ScreenLeave),
            Message::ModifierSync(_) => Some(MessageType::ModifierSync),
            Message::ClipboardFormats { .. } => Some(MessageType::ClipboardFormats),
            Message::ClipboardRequest { .. } => Some(MessageType::ClipboardRequest),
            Message::ClipboardData(_) => Some(MessageType::ClipboardData),
            Message::FileOfferStart(_) => Some(MessageType::FileOfferStart),
            Message::FileChunk(_) => Some(MessageType::FileChunk),
            Message::FileAck { .. } => Some(MessageType::FileAck),
            Message::FileTransferCancel { .. } => Some(MessageType::FileTransferCancel),
            Message::Ping { .. } => Some(MessageType::Ping),
            Message::Pong { .. } => Some(MessageType::Pong),
            Message::Error { .. } => Some(MessageType::Error),
        }
    }

    /// The wire message for each input event.
    pub open spec fn spec_from_input(ev: InputEvent) -> Message {
        match ev {
            InputEvent::Mouse(MouseEvent::Move { x, y }) => Message::MouseMove { x, y },
            InputEvent::Mouse(MouseEvent::MoveRelative { dx, dy }) => Message::MouseMoveRelative {
                dx,
                dy,
            },
            InputEvent::Mouse(MouseEvent::Button { button, state }) => Message::MouseButton(
                MouseEvent::Button { button, state },
            ),
            InputEvent::Mouse(MouseEvent::Scroll(d)) => Message::MouseScroll(MouseEvent::Scroll(d)),
            InputEvent::Key(k) => Message::KeyEvent(k),
            InputEvent::ScreenEnter { x, y, modifiers } => Message::ScreenEnter { x, y, modifiers },
            InputEvent::ScreenLeave { peer_screen } => Message::ScreenLeave { peer_screen },
            InputEvent::ModifierSync(m) => Message::ModifierSync(m),
        }
    }

    /// Translate a high-level input event to its wire message.
    pub fn from_input(ev: InputEvent) -> (m: Self)
        ensures
            m == Message::spec_from_input(ev),
    {
        match ev {
            InputEvent::Mouse(MouseEvent::Move { x, y }) => Message::MouseMove { x, y },
            InputEvent::Mouse(MouseEvent::MoveRelative { dx, dy }) => Message::MouseMoveRelative {
                dx,
                dy,
            },
            InputEvent::Mouse(MouseEvent::Button { button, state }) => Message::MouseButton(
                MouseEvent::Button { button, state },
            ),
            InputEvent::Mouse(MouseEvent::Scroll(d)) => Message::MouseScroll(MouseEvent::Scroll(d)),
            InputEvent::Key(k) => Message::KeyEvent(k),
            InputEvent::ScreenEnter { x, y, modifiers } => Message::ScreenEnter { x, y, modifiers },
            InputEvent::ScreenLeave { peer_screen } => Message::ScreenLeave { peer_screen },
            InputEvent::ModifierSync(m) => Message::ModifierSync(m),
        }
    }
}

} // verus!
