//! The fixed 12-byte frame header and the message type identifiers.
use vstd::prelude::*;

verus! {

/// "ISYN": the magic bytes at the start of every frame.
pub const MAGIC: [u8; 4] = [0x49, 0x53, 0x59, 0x4E];

/// Wire protocol version. Bumped on incompatible changes.
pub const PROTOCOL_VERSION: u16 = 1;

/// The magic bytes as a sequence.
pub open spec fn magic_seq() -> Seq<u8> {
    seq![0x49u8, 0x53u8, 0x59u8, 0x4Eu8]
}

/// Big-endian encoding of a 16-bit value.
pub open spec fn be16(v: u16) -> Seq<u8> {
    seq![((v >> 8u16) & 0xffu16) as u8, (v & 0xffu16) as u8]
}

/// Big-endian encoding of a 32-bit value.
pub open spec fn be32(v: u32) -> Seq<u8> {
    seq![
        ((v >> 24u32) & 0xffu32) as u8,
        ((v >> 16u32) & 0xffu32) as u8,
        ((v >> 8u32) & 0xffu32) as u8,
        (v & 0xffu32) as u8,
    ]
}

/// The 16-bit value whose big-endian encoding is `hi, lo`.
pub open spec fn from_be16(hi: u8, lo: u8) -> u16 {
    ((hi as u16) << 8u16) | (lo as u16)
}

/// The 32-bit value whose big-endian encoding is `b0, b1, b2, b3`.
pub open spec fn from_be32(b0: u8, b1: u8, b2: u8, b3: u8) -> u32 {
    ((b0 as u32) << 24u32) | ((b1 as u32) << 16u32) | ((b2 as u32) << 8u32) | (b3 as u32)
}

/// Fixed 12-byte frame header.
#[derive(Debug, Clone, Copy, PartialEq, Eq)]
pub struct Header {
    pub magic: [u8; 4],
    pub version: u16,
    pub message_type: u16,
    pub length: u32,
}

/// The bytes of a header with the given fields: magic, then version, type
/// and length, all big-endian.
pub open spec fn header_bytes(magic: Seq<u8>, version: u16, message_type: u16, length: u32) -> Seq<u8> {
    magic + be16(version) + be16(message_type) + be32(length)
}

impl Header {
    pub const SIZE: usize = 12;

    /// The wire bytes of this header.
    pub open spec fn spec_bytes(&self) -> Seq<u8> {
        header_bytes(self.magic@, self.version, self.message_type, self.length)
    }

    /// The header read from 12 bytes.
    pub open spec fn parsed_from(&self, b: Seq<u8>) -> bool {
        &&& self.magic@ == b.subrange(0, 4)
        &&& self.version == from_be16(b[4], b[5])
        &&& self.message_type == from_be16(b[6], b[7])
        &&& self.length == from_be32(b[8], b[9], b[10], b[11])
    }

    /// A header for the current protocol version.
    pub fn new(message_type: MessageType, length: u32) -> (h: Self)
        ensures
            h.magic@ == magic_seq(),
            h.version == PROTOCOL_VERSION,
            h.message_type == message_type.spec_to_u16(),
            h.length == length,
    {
        Header { magic: MAGIC, version: PROTOCOL_VERSION, message_type: message_type.to_u16(), length }
    }

    /// Serialize to the 12 wire bytes.
    pub fn encode(&self) -> (out: [u8; 12])
        ensures
            out@ == self.spec_bytes(),
    {
        let out: [u8; 12] = [
            self.magic[0],
            self.magic[1],
            self.magic[2],
            self.magic[3],
            ((self.version >> 8u16) & 0xffu16) as u8,
            (self.version & 0xffu16) as u8,
            ((self.message_type >> 8u16) & 0xffu16) as u8,
            (self.message_type & 0xffu16) as u8,
            ((self.length >> 24u32) & 0xffu32) as u8,
            ((self.length >> 16u32) & 0xffu32) as u8,
            ((self.length >> 8u32) & 0xffu32) as u8,
            (self.length & 0xffu32) as u8,
        ];
        assert(out@ =~= self.spec_bytes());
        out
    }

    /// Parse the 12 wire bytes. Every byte string is a header; whether its
    /// fields are acceptable is decided by the frame decoder.
    pub fn decode(bytes: &[u8; 12]) -> (h: Self)
        ensures
            h.parsed_from(bytes@),
    {
        let magic: [u8; 4] = [bytes[0], bytes[1], bytes[2], bytes[3]];
        assert(magic@ =~= bytes@.subrange(0, 4));
        Header {
            magic,
            version: ((bytes[4] as u16) << 8u16) | (bytes[5] as u16),
            message_type: ((bytes[6] as u16) << 8u16) | (bytes[7] as u16),
            length: ((bytes[8] as u32) << 24u32) | ((bytes[9] as u32) << 16u32) | ((bytes[10] as u32)
                << 8u32) | (bytes[11] as u32),
        }
    }
}

/// Encoding a 16-bit value and reading it back gives the value.
pub proof fn lemma_be16_roundtrip(v: u16)
    ensures
        from_be16(be16(v)[0], be16(v)[1]) == v,
{
    let hi = ((v >> 8u16) & 0xffu16) as u8;
    let lo = (v & 0xffu16) as u8;
    assert(((((v >> 8u16) & 0xffu16) as u8) as u16) << 8u16 | (((v & 0xffu16) as u8) as u16) == v)
        by (bit_vector);
}

/// Reading two bytes as a 16-bit value and encoding it gives the bytes.
pub proof fn lemma_be16_bytes_roundtrip(hi: u8, lo: u8)
    ensures
        be16(from_be16(hi, lo)) == seq![hi, lo],
{
    assert(((((hi as u16) << 8u16 | (lo as u16)) >> 8u16) & 0xffu16) as u8 == hi) by (bit_vector);
    assert(((((hi as u16) << 8u16 | (lo as u16))) & 0xffu16) as u8 == lo) by (bit_vector);
    assert(be16(from_be16(hi, lo)) =~= seq![hi, lo]);
}

/// Encoding a 32-bit value and reading it back gives the value.
pub proof fn lemma_be32_roundtrip(v: u32)
    ensures
        from_be32(be32(v)[0], be32(v)[1], be32(v)[2], be32(v)[3]) == v,
{
    assert(((((v >> 24u32) & 0xffu32) as u8) as u32) << 24u32 | ((((v >> 16u32) & 0xffu32) as u8)
        as u32) << 16u32 | ((((v >> 8u32) & 0xffu32) as u8) as u32) << 8u32 | (((v & 0xffu32) as u8)
        as u32) == v) by (bit_vector);
}

/// Reading four bytes as a 32-bit value and encoding it gives the bytes.
pub proof fn lemma_be32_bytes_roundtrip(b0: u8, b1: u8, b2: u8, b3: u8)
    ensures
        be32(from_be32(b0, b1, b2, b3)) == seq![b0, b1, b2, b3],
{
    let v = from_be32(b0, b1, b2, b3);
    assert((((((b0 as u32) << 24u32) | ((b1 as u32) << 16u32) | ((b2 as u32) << 8u32) | (b3 as u32))
        >> 24u32) & 0xffu32) as u8 == b0) by (bit_vector);
    assert((((((b0 as u32) << 24u32) | ((b1 as u32) << 16u32) | ((b2 as u32) << 8u32) | (b3 as u32))
        >> 16u32) & 0xffu32) as u8 == b1) by (bit_vector);
    assert((((((b0 as u32) << 24u32) | ((b1 as u32) << 16u32) | ((b2 as u32) << 8u32) | (b3 as u32))
        >> 8u32) & 0xffu32) as u8 == b2) by (bit_vector);
    assert(((((b0 as u32) << 24u32) | ((b1 as u32) << 16u32) | ((b2 as u32) << 8u32) | (b3 as u32))
        & 0xffu32) as u8 == b3) by (bit_vector);
    assert(be32(v) =~= seq![b0, b1, b2, b3]);
}

/// Law: decoding the bytes of an encoded header gives back the header.
pub proof fn lemma_header_roundtrip(h: Header)
    ensures
        h.spec_bytes().len() == Header::SIZE,
        h.parsed_from(h.spec_bytes()),
{
    let b = h.spec_bytes();
    lemma_be16_roundtrip(h.version);
    lemma_be16_roundtrip(h.message_type);
    lemma_be32_roundtrip(h.length);
    assert(b.subrange(0, 4) =~= h.magic@);
}

/// Law: encoding the header read from any 12 bytes gives back those bytes.
pub proof fn lemma_header_bytes_roundtrip(b: Seq<u8>, h: Header)
    requires
        b.len() == Header::SIZE,
        h.parsed_from(b),
    ensures
        h.spec_bytes() == b,
{
    lemma_be16_bytes_roundtrip(b[4], b[5]);
    lemma_be16_bytes_roundtrip(b[6], b[7]);
    lemma_be32_bytes_roundtrip(b[8], b[9], b[10], b[11]);
    assert(h.spec_bytes() =~= b);
}

/// Message type identifiers. IDs are reserved even where the feature behind
/// them is not implemented yet.
#[derive(Debug, Clone, Copy, PartialEq, Eq, Structural)]
pub enum MessageType {
    Hello,
    Welcome,
    Goodbye,
    MouseMove,
    MouseButton,
    MouseScroll,
    KeyEvent,
    ScreenEnter,
    ScreenLeave,
    ModifierSync,
    ClipboardFormats,
    ClipboardRequest,
    ClipboardData,
    FileOfferStart,
    FileChunk,
    FileAck,
    FileTransferCancel,
    Ping,
    Pong,
    Error,
}

/// The wire identifier of each message type, or `None` for an unassigned
/// identifier.
pub open spec fn spec_from_u16(v: u16) -> Option<MessageType> {
    if v == 0x0001 {
        Some(MessageType::Hello)
    } else if v == 0x0002 {
        Some(MessageType::Welcome)
    } else if v == 0x0003 {
        Some(MessageType::Goodbye)
    } else if v == 0x0100 {
        Some(MessageType::MouseMove)
    } else if v == 0x0101 {
        Some(MessageType::MouseButton)
    } else if v == 0x0102 {
        Some(MessageType::MouseScroll)
    } else if v == 0x0103 {
        Some(MessageType::KeyEvent)
    } else if v == 0x0110 {
        Some(MessageType::ScreenEnter)
    } else if v == 0x0111 {
        Some(MessageType::ScreenLeave)
    } else if v == 0x0112 {
        Some(MessageType::ModifierSync)
    } else if v == 0x0200 {
        Some(MessageType::ClipboardFormats)
    } else if v == 0x0201 {
        Some(MessageType::ClipboardRequest)
    } else if v == 0x0202 {
        Some(MessageType::ClipboardData)
    } else if v == 0x0300 {
        Some(MessageType::FileOfferStart)
    } else if v == 0x0301 {
        Some(MessageType::FileChunk)
    } else if v == 0x0302 {
        Some(MessageType::FileAck)
    } else if v == 0x0303 {
        Some(MessageType::FileTransferCancel)
    } else if v == 0x0F00 {
        Some(MessageType::Ping)
    } else if v == 0x0F01 {
        Some(MessageType::Pong)
    } else if v == 0x0F02 {
        Some(MessageType::Error)
    } else {
        None
    }
}

impl MessageType {
    /// The wire identifier of this message type.
    pub open spec fn spec_to_u16(self) -> u16 {
        match self {
            MessageType::Hello => 0x0001,
            MessageType::Welcome => 0x0002,
            MessageType::Goodbye => 0x0003,
            MessageType::MouseMove => 0x0100,
            MessageType::MouseButton => 0x0101,
            MessageType::MouseScroll => 0x0102,
            MessageType::KeyEvent => 0x0103,
            MessageType::ScreenEnter => 0x0110,
            MessageType::ScreenLeave => 0x0111,
            MessageType::ModifierSync => 0x0112,
            MessageType::ClipboardFormats => 0x0200,
            MessageType::ClipboardRequest => 0x0201,
            MessageType::ClipboardData => 0x0202,
            MessageType::FileOfferStart => 0x0300,
            MessageType::FileChunk => 0x0301,
            MessageType::FileAck => 0x0302,
            MessageType::FileTransferCancel => 0x0303,
            MessageType::Ping => 0x0F00,
            MessageType::Pong => 0x0F01,
            MessageType::Error => 0x0F02,
        }
    }

    /// The wire identifier of this message type, as the protocol's type
    /// table assigns it.
    pub fn to_u16(self) -> (v: u16)
        ensures
            v == self.spec_to_u16(),
            self == MessageType::Hello ==> v == 0x0001,
            self == MessageType::Welcome ==> v == 0x0002,
            self == MessageType::Goodbye ==> v == 0x0003,
            self == MessageType::MouseMove ==> v == 0x0100,
            self == MessageType::MouseButton ==> v == 0x0101,
            self == MessageType::MouseScroll ==> v == 0x0102,
            self == MessageType::KeyEvent ==> v == 0x0103,
            self == MessageType::ScreenEnter ==> v == 0x0110,
            self == MessageType::ScreenLeave ==> v == 0x0111,
            self == MessageType::ModifierSync ==> v == 0x0112,
            self == MessageType::ClipboardFormats ==> v == 0x0200,
            self == MessageType::ClipboardRequest ==> v == 0x0201,
            self == MessageType::ClipboardData ==> v == 0x0202,
            self == MessageType::FileOfferStart ==> v == 0x0300,
            self == MessageType::FileChunk ==> v == 0x0301,
            self == MessageType::FileAck ==> v == 0x0302,
            self == MessageType::FileTransferCancel ==> v == 0x0303,
            self == MessageType::Ping ==> v == 0x0F00,
            self == MessageType::Pong ==> v == 0x0F01,
            self == MessageType::Error ==> v == 0x0F02,
    {
        match self {
            MessageType::Hello => 0x0001,
            MessageType::Welcome => 0x0002,
            MessageType::Goodbye => 0x0003,
            MessageType::MouseMove => 0x0100,
            MessageType::MouseButton => 0x0101,
            MessageType::MouseScroll => 0x0102,
            MessageType::KeyEvent => 0x0103,
            MessageType::ScreenEnter => 0x0110,
            MessageType::ScreenLeave => 0x0111,
            MessageType::ModifierSync => 0x0112,
            MessageType::ClipboardFormats => 0x0200,
            MessageType::ClipboardRequest => 0x0201,
            MessageType::ClipboardData => 0x0202,
            MessageType::FileOfferStart => 0x0300,
            MessageType::FileChunk => 0x0301,
            MessageType::FileAck => 0x0302,
            MessageType::FileTransferCancel => 0x0303,
            MessageType::Ping => 0x0F00,
            MessageType::Pong => 0x0F01,
            MessageType::Error => 0x0F02,
        }
    }

    /// The message type with the given wire identifier, if one is assigned.
    pub fn from_u16(v: u16) -> (t: Option<Self>)
        ensures
            t == spec_from_u16(v),
            v == 0x0001 ==> t == Some(MessageType::Hello),
            v == 0x0002 ==> t == Some(MessageType::Welcome),
            v == 0x0003 ==> t == Some(MessageType::Goodbye),
            v == 0x0100 ==> t == Some(MessageType::MouseMove),
            v == 0x0101 ==> t == Some(MessageType::MouseButton),
            v == 0x0102 ==> t == Some(MessageType::MouseScroll),
            v == 0x0103 ==> t == Some(MessageType::KeyEvent),
            v == 0x0110 ==> t == Some(MessageType::ScreenEnter),
            v == 0x0111 ==> t == Some(MessageType::ScreenLeave),
            v == 0x0112 ==> t == Some(MessageType::ModifierSync),
            v == 0x0200 ==> t == Some(MessageType::ClipboardFormats),
            v == 0x0201 ==> t == Some(MessageType::ClipboardRequest),
            v == 0x0202 ==> t == Some(MessageType::ClipboardData),
            v == 0x0300 ==> t == Some(MessageType::FileOfferStart),
            v == 0x0301 ==> t == Some(MessageType::FileChunk),
            v == 0x0302 ==> t == Some(MessageType::FileAck),
            v == 0x0303 ==> t == Some(MessageType::FileTransferCancel),
            v == 0x0F00 ==> t == Some(MessageType::Ping),
            v == 0x0F01 ==> t == Some(MessageType::Pong),
            v == 0x0F02 ==> t == Some(MessageType::Error),
    {
        match v {
            0x0001 => Some(MessageType::Hello),
            0x0002 => Some(MessageType::Welcome),
            0x0003 => Some(MessageType::Goodbye),
            0x0100 => Some(MessageType::MouseMove),
            0x0101 => Some(MessageType::MouseButton),
            0x0102 => Some(MessageType::MouseScroll),
            0x0103 => Some(MessageType::KeyEvent),
            0x0110 => Some(MessageType::ScreenEnter),
            0x0111 => Some(MessageType::ScreenLeave),
            0x0112 => Some(MessageType::ModifierSync),
            0x0200 => Some(MessageType::ClipboardFormats),
            0x0201 => Some(MessageType::ClipboardRequest),
            0x0202 => Some(MessageType::ClipboardData),
            0x0300 => Some(MessageType::FileOfferStart),
            0x0301 => Some(MessageType::FileChunk),
            0x0302 => Some(MessageType::FileAck),
            0x0303 => Some(MessageType::FileTransferCancel),
            0x0F00 => Some(MessageType::Ping),
            0x0F01 => Some(MessageType::Pong),
            0x0F02 => Some(MessageType::Error),
            _ => None,
        }
    }
}

/// Law: each message type goes on the wire with the id the protocol's type
/// table assigns it.
pub proof fn lemma_type_ids_follow_protocol_table(t: MessageType)
    ensures
        t == MessageType::Hello ==> t.spec_to_u16() == 0x0001,
        t == MessageType::Welcome ==> t.spec_to_u16() == 0x0002,
        t == MessageType::Goodbye ==> t.spec_to_u16() == 0x0003,
        t == MessageType::MouseMove ==> t.spec_to_u16() == 0x0100,
        t == MessageType::MouseButton ==> t.spec_to_u16() == 0x0101,
        t == MessageType::MouseScroll ==> t.spec_to_u16() == 0x0102,
        t == MessageType::KeyEvent ==> t.spec_to_u16() == 0x0103,
        t == MessageType::ScreenEnter ==> t.spec_to_u16() == 0x0110,
        t == MessageType::ScreenLeave ==> t.spec_to_u16() == 0x0111,
        t == MessageType::ModifierSync ==> t.spec_to_u16() == 0x0112,
        t == MessageType::ClipboardFormats ==> t.spec_to_u16() == 0x0200,
        t == MessageType::ClipboardRequest ==> t.spec_to_u16() == 0x0201,
        t == MessageType::ClipboardData ==> t.spec_to_u16() == 0x0202,
        t == MessageType::FileOfferStart ==> t.spec_to_u16() == 0x0300,
        t == MessageType::FileChunk ==> t.spec_to_u16() == 0x0301,
        t == MessageType::FileAck ==> t.spec_to_u16() == 0x0302,
        t == MessageType::FileTransferCancel ==> t.spec_to_u16() == 0x0303,
        t == MessageType::Ping ==> t.spec_to_u16() == 0x0F00,
        t == MessageType::Pong ==> t.spec_to_u16() == 0x0F01,
        t == MessageType::Error ==> t.spec_to_u16() == 0x0F02,
{
}

/// Law: exactly the ids of the protocol's type table name a message type;
/// every other id is unknown.
pub proof fn lemma_known_ids_are_the_protocol_table(v: u16)
    ensures
        spec_from_u16(v) is Some <==> (v == 0x0001 || v == 0x0002 || v == 0x0003 || v == 0x0100 || v == 0x0101 || v == 0x0102 || v == 0x0103 || v == 0x0110 || v == 0x0111 || v == 0x0112 || v == 0x0200 || v == 0x0201 || v == 0x0202 || v == 0x0300 || v == 0x0301 || v == 0x0302 || v == 0x0303 || v == 0x0F00 || v == 0x0F01 || v == 0x0F02),
{
}

/// Law: every message type's identifier maps back to that message type.
pub proof fn lemma_message_type_roundtrip(t: MessageType)
    ensures
        spec_from_u16(t.spec_to_u16()) == Some(t),
{
}

/// Law: an identifier that maps to a message type is that type's identifier,
/// so no two identifiers name the same message type.
pub proof fn lemma_message_type_ids_unique(v: u16)
    ensures
        spec_from_u16(v) matches Some(t) ==> t.spec_to_u16() == v,
{
}

} // verus!
