//! Frame encoding and decoding: a 12-byte header followed by `length`
//! payload bytes. The payload is the serialized message; this module frames
//! and checks bytes and leaves the payload's serialization to its callers.
use crate::header::{
    be16, be32, from_be16, from_be32, header_bytes, lemma_header_roundtrip, lemma_message_type_roundtrip,
    magic_seq, spec_from_u16, Header, MessageType, MAGIC, PROTOCOL_VERSION,
};
use crate::error::Error;
use crate::pinning::{hex_encode, hex_lower};
use crate::text::{decimal, u64_to_string};
use vstd::prelude::*;

verus! {

/// Hard cap on a single frame payload: 64 MiB. Bulk file transfers chunk
/// into 64 KiB and never approach this limit; the cap bounds per-message
/// allocations.
pub const MAX_PAYLOAD_SIZE: u32 = 64 * 1024 * 1024;

/// Why a frame could not be encoded or decoded.
#[derive(Debug, Clone)]
pub enum FrameError {
    Incomplete { needed: usize },
    BadMagic([u8; 4]),
    UnsupportedVersion { local: u16, remote: u16 },
    UnknownMessageType(u16),
    PayloadTooLarge(u32),
}

/// A decoded frame: its message type and its payload bytes.
#[derive(Debug, Clone)]
pub struct Frame {
    pub message_type: MessageType,
    pub payload: Vec<u8>,
}

/// The wire bytes of a frame carrying `payload` as a message of type `t`.
pub open spec fn frame_bytes(t: MessageType, payload: Seq<u8>) -> Seq<u8> {
    header_bytes(magic_seq(), PROTOCOL_VERSION, t.spec_to_u16(), payload.len() as u32) + payload
}

/// The length field of the header at the start of `buf`.
pub open spec fn length_field(buf: Seq<u8>) -> u32 {
    from_be32(buf[8], buf[9], buf[10], buf[11])
}

/// The message type field of the header at the start of `buf`.
pub open spec fn type_field(buf: Seq<u8>) -> u16 {
    from_be16(buf[6], buf[7])
}

/// The version field of the header at the start of `buf`.
pub open spec fn version_field(buf: Seq<u8>) -> u16 {
    from_be16(buf[4], buf[5])
}

/// What decoding the head of `buf` yields, checked in this order: too short
/// for a header (`Ok(None)`), wrong magic, wrong version, oversized payload,
/// too short for the payload (`Ok(None)`), unknown message type, and
/// otherwise the frame and the number of bytes it occupies.
pub open spec fn decodes_to(buf: Seq<u8>, res: Result<Option<(Frame, usize)>, FrameError>) -> bool {
    if buf.len() < Header::SIZE {
        res is Ok && res->Ok_0 is None
    } else if buf.subrange(0, 4) != magic_seq() {
        res matches Err(FrameError::BadMagic(m)) && m@ == buf.subrange(0, 4)
    } else if version_field(buf) != PROTOCOL_VERSION {
        res == Err::<Option<(Frame, usize)>, FrameError>(
            FrameError::UnsupportedVersion { local: PROTOCOL_VERSION, remote: version_field(buf) },
        )
    } else if length_field(buf) > MAX_PAYLOAD_SIZE {
        res == Err::<Option<(Frame, usize)>, FrameError>(
            FrameError::PayloadTooLarge(length_field(buf)),
        )
    } else if buf.len() < Header::SIZE + length_field(buf) {
        res is Ok && res->Ok_0 is None
    } else {
        match spec_from_u16(type_field(buf)) {
            None => res == Err::<Option<(Frame, usize)>, FrameError>(
                FrameError::UnknownMessageType(type_field(buf)),
            ),
            Some(t) => res matches Ok(Some((f, n))) && f.message_type == t && f.payload@
                == buf.subrange(12, 12 + length_field(buf)) && n == 12 + length_field(buf),
        }
    }
}

/// Append the bytes of `s` to `out`.
pub(crate) fn append_bytes(out: &mut Vec<u8>, s: &[u8])
    requires
        old(out)@.len() + s@.len() <= usize::MAX,
    ensures
        final(out)@ == old(out)@ + s@,
{
    let mut i: usize = 0;
    while i < s.len()
        invariant
            i <= s@.len(),
            out@ == old(out)@ + s@.subrange(0, i as int),
        decreases s@.len() - i,
    {
        out.push(s[i]);
        i = i + 1;
        assert(out@ =~= old(out)@ + s@.subrange(0, i as int));
    }
    assert(s@.subrange(0, s@.len() as int) =~= s@);
}

/// Frame `payload` as a message of type `message_type`, header included.
/// Fails exactly when the payload exceeds [`MAX_PAYLOAD_SIZE`], with the
/// payload length truncated to 32 bits in the error.
pub fn encode_frame(message_type: MessageType, payload: &[u8]) -> (res: Result<Vec<u8>, FrameError>)
    ensures
        payload@.len() <= MAX_PAYLOAD_SIZE ==> (res matches Ok(v) && v@ == frame_bytes(
            message_type,
            payload@,
        )),
        payload@.len() > MAX_PAYLOAD_SIZE ==> res == Err::<Vec<u8>, FrameError>(
            FrameError::PayloadTooLarge(payload@.len() as u32),
        ),
{
    if payload.len() > MAX_PAYLOAD_SIZE as usize {
        return Err(FrameError::PayloadTooLarge(payload.len() as u32));
    }
    let header = Header::new(message_type, payload.len() as u32);
    let head = header.encode();
    let mut out: Vec<u8> = Vec::with_capacity(Header::SIZE + payload.len());
    append_bytes(&mut out, &head);
    append_bytes(&mut out, payload);
    Ok(out)
}

#[verifier::external_type_specification]
#[verifier::external_body]
pub struct ExBytesMut(bytes::BytesMut);

/// The bytes that a `BytesMut` buffer holds, in order.
pub uninterp spec fn bytes_mut_contents(b: bytes::BytesMut) -> Seq<u8>;

/// `BytesMut::reserve`: makes room for `additional` more bytes and leaves the
/// contents as they were. It panics only when the new capacity overflows, so
/// the total stays within `isize::MAX`, the allocation bound.
#[verifier::external_body]
fn bytes_mut_reserve(buf: &mut bytes::BytesMut, additional: usize)
    requires
        bytes_mut_contents(*old(buf)).len() + additional <= isize::MAX,
    ensures
        bytes_mut_contents(*final(buf)) == bytes_mut_contents(*old(buf)),
{
    buf.reserve(additional)
}

/// `BytesMut::len`: the number of bytes the buffer holds.
#[verifier::external_body]
fn bytes_mut_len(buf: &bytes::BytesMut) -> (n: usize)
    ensures
        n == bytes_mut_contents(*buf).len(),
{
    buf.len()
}

/// `BufMut::put_slice` on a `BytesMut`: appends the bytes of `src`.
#[verifier::external_body]
fn bytes_mut_put_slice(buf: &mut bytes::BytesMut, src: &[u8])
    requires
        bytes_mut_contents(*old(buf)).len() + src@.len() <= isize::MAX,
    ensures
        bytes_mut_contents(*final(buf)) == bytes_mut_contents(*old(buf)) + src@,
{
    bytes::BufMut::put_slice(buf, src)
}

/// Append an encoded frame to `buf` without building an intermediate vector.
/// On error nothing is written.
pub fn write_frame(buf: &mut bytes::BytesMut, message_type: MessageType, payload: &[u8]) -> (res:
    Result<(), FrameError>)
    requires
        bytes_mut_contents(*old(buf)).len() + Header::SIZE + payload@.len() <= isize::MAX,
    ensures
        payload@.len() <= MAX_PAYLOAD_SIZE ==> res is Ok && bytes_mut_contents(*final(buf))
            == bytes_mut_contents(*old(buf)) + frame_bytes(message_type, payload@),
        payload@.len() > MAX_PAYLOAD_SIZE ==> res == Err::<(), FrameError>(
            FrameError::PayloadTooLarge(payload@.len() as u32),
        ) && bytes_mut_contents(*final(buf)) == bytes_mut_contents(*old(buf)),
{
    if payload.len() > MAX_PAYLOAD_SIZE as usize {
        return Err(FrameError::PayloadTooLarge(payload.len() as u32));
    }
    let header = Header::new(message_type, payload.len() as u32);
    let head = header.encode();
    bytes_mut_reserve(buf, Header::SIZE + payload.len());
    bytes_mut_put_slice(buf, &head);
    bytes_mut_put_slice(buf, payload);
    assert(bytes_mut_contents(*buf) =~= bytes_mut_contents(*old(buf)) + frame_bytes(message_type, payload@));
    Ok(())
}

/// [`write_frame`] where the buffer can grow by the frame: `None`, with
/// `buf` untouched, when the buffer and the frame together would pass
/// `isize::MAX` bytes, the most a buffer can hold.
pub fn try_write_frame(buf: &mut bytes::BytesMut, message_type: MessageType, payload: &[u8]) -> (res:
    Option<Result<(), FrameError>>)
    ensures
        bytes_mut_contents(*old(buf)).len() + Header::SIZE + payload@.len() > isize::MAX ==> res is None
            && bytes_mut_contents(*final(buf)) == bytes_mut_contents(*old(buf)),
        bytes_mut_contents(*old(buf)).len() + Header::SIZE + payload@.len() <= isize::MAX ==> {
            &&& payload@.len() <= MAX_PAYLOAD_SIZE ==> res == Some(Ok::<(), FrameError>(()))
                && bytes_mut_contents(*final(buf)) == bytes_mut_contents(*old(buf)) + frame_bytes(
                message_type,
                payload@,
            )
            &&& payload@.len() > MAX_PAYLOAD_SIZE ==> res == Some(
                Err::<(), FrameError>(FrameError::PayloadTooLarge(payload@.len() as u32)),
            ) && bytes_mut_contents(*final(buf)) == bytes_mut_contents(*old(buf))
        },
{
    let n = bytes_mut_len(buf);
    if n > isize::MAX as usize || isize::MAX as usize - n < Header::SIZE || isize::MAX as usize - n
        - Header::SIZE < payload.len() {
        return None;
    }
    let r = write_frame(buf, message_type, payload);
    match r {
        Ok(()) => Some(Ok(())),
        Err(e) => Some(Err(e)),
    }
}

/// Try to read one frame from the head of `buf`.
///
/// `Ok(Some((frame, consumed)))` means the first `consumed` bytes held a
/// complete frame; the caller advances past them. `Ok(None)` means the
/// buffer holds an incomplete frame: read more bytes and retry.
pub fn decode_frame(buf: &[u8]) -> (res: Result<Option<(Frame, usize)>, FrameError>)
    ensures
        decodes_to(buf@, res),
{
    if buf.len() < Header::SIZE {
        return Ok(None);
    }
    let header_bytes: [u8; 12] = [
        buf[0],
        buf[1],
        buf[2],
        buf[3],
        buf[4],
        buf[5],
        buf[6],
        buf[7],
        buf[8],
        buf[9],
        buf[10],
        buf[11],
    ];
    assert(header_bytes@ =~= buf@.subrange(0, 12));
    let header = Header::decode(&header_bytes);
    assert(header.magic@ =~= buf@.subrange(0, 4));
    if header.magic[0] != MAGIC[0] || header.magic[1] != MAGIC[1] || header.magic[2] != MAGIC[2]
        || header.magic[3] != MAGIC[3] {
        assert(buf@.subrange(0, 4) != magic_seq()) by {
            if buf@.subrange(0, 4) == magic_seq() {
                assert(header.magic@[0] == buf@.subrange(0, 4)[0]);
                assert(header.magic@[1] == buf@.subrange(0, 4)[1]);
                assert(header.magic@[2] == buf@.subrange(0, 4)[2]);
                assert(header.magic@[3] == buf@.subrange(0, 4)[3]);
            }
        }
        return Err(FrameError::BadMagic(header.magic));
    }
    assert(buf@.subrange(0, 4) =~= magic_seq());
    if header.version != PROTOCOL_VERSION {
        return Err(FrameError::UnsupportedVersion { local: PROTOCOL_VERSION, remote: header.version });
    }
    if header.length > MAX_PAYLOAD_SIZE {
        return Err(FrameError::PayloadTooLarge(header.length));
    }
    let total: usize = Header::SIZE + header.length as usize;
    if buf.len() < total {
        return Ok(None);
    }
    match MessageType::from_u16(header.message_type) {
        None => Err(FrameError::UnknownMessageType(header.message_type)),
        Some(t) => {
            let payload_slice = vstd::slice::slice_subrange(buf, Header::SIZE, total);
            let mut payload: Vec<u8> = Vec::new();
            append_bytes(&mut payload, payload_slice);
            assert(payload@ =~= buf@.subrange(12, 12 + length_field(buf@)));
            Ok(Some((Frame { message_type: t, payload }, total)))
        },
    }
}

/// The header fields of a frame's bytes are those it was encoded with.
proof fn lemma_frame_fields(t: MessageType, payload: Seq<u8>, rest: Seq<u8>)
    requires
        payload.len() <= MAX_PAYLOAD_SIZE,
    ensures
        ({
            let buf = frame_bytes(t, payload) + rest;
            &&& buf.len() == Header::SIZE + payload.len() + rest.len()
            &&& buf.subrange(0, 4) == magic_seq()
            &&& version_field(buf) == PROTOCOL_VERSION
            &&& type_field(buf) == t.spec_to_u16()
            &&& length_field(buf) == payload.len()
            &&& buf.subrange(12, 12 + payload.len() as int) == payload
        }),
{
    let h = Header {
        magic: MAGIC,
        version: PROTOCOL_VERSION,
        message_type: t.spec_to_u16(),
        length: payload.len() as u32,
    };
    assert(MAGIC@ =~= magic_seq());
    lemma_header_roundtrip(h);
    let hb = h.spec_bytes();
    let buf = frame_bytes(t, payload) + rest;
    assert(frame_bytes(t, payload) == hb + payload);
    assert(buf =~= hb + (payload + rest));
    assert(buf.subrange(0, 12) =~= hb);
    assert(buf.subrange(0, 4) =~= hb.subrange(0, 4));
    assert(buf[4] == hb[4] && buf[5] == hb[5] && buf[6] == hb[6] && buf[7] == hb[7]);
    assert(buf[8] == hb[8] && buf[9] == hb[9] && buf[10] == hb[10] && buf[11] == hb[11]);
    assert(buf.subrange(12, 12 + payload.len() as int) =~= payload);
}

/// The message of a frame error, as shown to users.
pub open spec fn frame_error_text(e: FrameError) -> Seq<char> {
    match e {
        FrameError::Incomplete { needed } => seq![
            'i', 'n', 'c', 'o', 'm', 'p', 'l', 'e', 't', 'e', ' ', 'f', 'r', 'a', 'm', 'e', ':', ' ', 'n', 'e', 'e', 'd',
            ' ',
        ] + decimal(needed as nat) + seq![' ', 'm', 'o', 'r', 'e', ' ', 'b', 'y', 't', 'e', 's'],
        FrameError::BadMagic(m) => seq![
            'b', 'a', 'd', ' ', 'm', 'a', 'g', 'i', 'c', ' ', 'b', 'y', 't', 'e', 's', ':', ' ', '[',
        ] + decimal(m@[0] as nat) + seq![',', ' '] + decimal(m@[1] as nat) + seq![',', ' '] + decimal(m@[2] as nat)
            + seq![',', ' '] + decimal(m@[3] as nat) + seq![']'],
        FrameError::UnsupportedVersion { local, remote } => seq![
            'u', 'n', 's', 'u', 'p', 'p', 'o', 'r', 't', 'e', 'd', ' ', 'p', 'r', 'o', 't', 'o', 'c', 'o', 'l', ' ', 'v',
            'e', 'r', 's', 'i', 'o', 'n', ':', ' ', 'l', 'o', 'c', 'a', 'l', '=',
        ] + decimal(local as nat) + seq![' ', 'r', 'e', 'm', 'o', 't', 'e', '='] + decimal(remote as nat),
        FrameError::UnknownMessageType(t) => seq![
            'u', 'n', 'k', 'n', 'o', 'w', 'n', ' ', 'm', 'e', 's', 's', 'a', 'g', 'e', ' ', 't', 'y', 'p', 'e', ' ', 'i',
            'd', ' ', '0', 'x',
        ] + hex_lower(seq![(t / 256) as u8, (t % 256) as u8]),
        FrameError::PayloadTooLarge(n) => seq![
            'p', 'a', 'y', 'l', 'o', 'a', 'd', ' ', 't', 'o', 'o', ' ', 'l', 'a', 'r', 'g', 'e', ':', ' ',
        ] + decimal(n as nat) + seq![' ', '>', ' '] + decimal(MAX_PAYLOAD_SIZE as nat),
    }
}

impl FrameError {
    /// The error's message, as shown to users.
    pub fn message(&self) -> (s: String)
        ensures
            s@ == frame_error_text(*self),
    {
        proof {
            reveal_strlit("incomplete frame: need ");
            reveal_strlit(" more bytes");
            reveal_strlit("bad magic bytes: [");
            reveal_strlit(", ");
            reveal_strlit("]");
            reveal_strlit("unsupported protocol version: local=");
            reveal_strlit(" remote=");
            reveal_strlit("unknown message type id 0x");
            reveal_strlit("payload too large: ");
            reveal_strlit(" > ");
        }
        match self {
            FrameError::Incomplete { needed } => {
                let mut s = String::from_str("incomplete frame: need ");
                s.append(u64_to_string(*needed as u64).as_str());
                s.append(" more bytes");
                assert(s@ =~= frame_error_text(*self));
                s
            },
            FrameError::BadMagic(m) => {
                let mut s = String::from_str("bad magic bytes: [");
                s.append(u64_to_string(m[0] as u64).as_str());
                s.append(", ");
                s.append(u64_to_string(m[1] as u64).as_str());
                s.append(", ");
                s.append(u64_to_string(m[2] as u64).as_str());
                s.append(", ");
                s.append(u64_to_string(m[3] as u64).as_str());
                s.append("]");
                assert(s@ =~= frame_error_text(*self));
                s
            },
            FrameError::UnsupportedVersion { local, remote } => {
                let mut s = String::from_str("unsupported protocol version: local=");
                s.append(u64_to_string(*local as u64).as_str());
                s.append(" remote=");
                s.append(u64_to_string(*remote as u64).as_str());
                assert(s@ =~= frame_error_text(*self));
                s
            },
            FrameError::UnknownMessageType(t) => {
                let bytes: [u8; 2] = [(*t / 256) as u8, (*t % 256) as u8];
                let mut s = String::from_str("unknown message type id 0x");
                s.append(hex_encode(&bytes).as_str());
                assert(bytes@ =~= seq![(*t / 256) as u8, (*t % 256) as u8]);
                assert(s@ =~= frame_error_text(*self));
                s
            },
            FrameError::PayloadTooLarge(n) => {
                let mut s = String::from_str("payload too large: ");
                s.append(u64_to_string(*n as u64).as_str());
                s.append(" > ");
                s.append(u64_to_string(MAX_PAYLOAD_SIZE as u64).as_str());
                assert(s@ =~= frame_error_text(*self));
                s
            },
        }
    }
}

/// The text "decode: ".
pub open spec fn decode_prefix() -> Seq<char> {
    seq!['d', 'e', 'c', 'o', 'd', 'e', ':', ' ']
}

/// The text "decode produced no message".
pub open spec fn msg_no_message() -> Seq<char> {
    seq![
        'd', 'e', 'c', 'o', 'd', 'e', ' ', 'p', 'r', 'o', 'd', 'u', 'c', 'e', 'd', ' ', 'n', 'o', ' ', 'm', 'e', 's',
        's', 'a', 'g', 'e',
    ]
}

/// What a stream reader makes of a decoding result: the frame, or a
/// protocol error naming what went wrong.
pub open spec fn received_outcome(res: Result<Option<(Frame, usize)>, FrameError>, r: Result<Frame, Error>) -> bool {
    match res {
        Ok(Some((f, _))) => r matches Ok(g) && g.message_type == f.message_type && g.payload@ == f.payload@,
        Ok(None) => r matches Err(Error::Protocol(m)) && m@ == msg_no_message(),
        Err(e) => r matches Err(Error::Protocol(m)) && m@ == decode_prefix() + frame_error_text(e),
    }
}

/// The frame made of a header and the payload read after it, as a stream
/// reader checks it. Errors are protocol errors.
pub fn decode_received(header: &[u8; 12], payload: &[u8]) -> (r: Result<Frame, Error>)
    requires
        payload@.len() + 12 <= usize::MAX,
    ensures
        exists|res: Result<Option<(Frame, usize)>, FrameError>|
            decodes_to(header@ + payload@, res) && #[trigger] received_outcome(res, r),
{
    let mut framed: Vec<u8> = Vec::new();
    append_bytes(&mut framed, header);
    append_bytes(&mut framed, payload);
    let res = decode_frame(&framed);
    proof {
        assert(framed@ =~= header@ + payload@);
        reveal_strlit("decode: ");
        reveal_strlit("decode produced no message");
    }
    let r = match res {
        Ok(Some((f, n))) => Ok(f),
        Ok(None) => {
            assert("decode produced no message"@ =~= msg_no_message());
            Err(Error::Protocol(String::from_str("decode produced no message")))
        },
        Err(e) => {
            let mut m = String::from_str("decode: ");
            m.append(e.message().as_str());
            assert(m@ =~= decode_prefix() + frame_error_text(e));
            Err(Error::Protocol(m))
        },
    };
    assert(received_outcome(res, r));
    r
}

/// Law: a frame produced by the encoder decodes to the same message type and
/// payload and consumes exactly its own bytes, whatever bytes follow it.
pub proof fn lemma_frame_roundtrip(
    t: MessageType,
    payload: Seq<u8>,
    rest: Seq<u8>,
    res: Result<Option<(Frame, usize)>, FrameError>,
)
    requires
        payload.len() <= MAX_PAYLOAD_SIZE,
        decodes_to(frame_bytes(t, payload) + rest, res),
    ensures
        res matches Ok(Some((f, n))) && f.message_type == t && f.payload@ == payload && n
            == frame_bytes(t, payload).len(),
{
    lemma_frame_fields(t, payload, rest);
    lemma_message_type_roundtrip(t);
}

/// Law: every strict prefix of an encoded frame decodes to "incomplete"
/// (`Ok(None)`), never to an error or a frame.
pub proof fn lemma_frame_prefix_incomplete(
    t: MessageType,
    payload: Seq<u8>,
    k: int,
    res: Result<Option<(Frame, usize)>, FrameError>,
)
    requires
        payload.len() <= MAX_PAYLOAD_SIZE,
        0 <= k < frame_bytes(t, payload).len(),
        decodes_to(frame_bytes(t, payload).subrange(0, k), res),
    ensures
        res is Ok && res->Ok_0 is None,
{
    let full = frame_bytes(t, payload);
    let buf = full.subrange(0, k);
    lemma_frame_fields(t, payload, Seq::empty());
    assert(full + Seq::<u8>::empty() =~= full);
    if k >= 12 {
        assert(buf.subrange(0, 4) =~= full.subrange(0, 4));
        assert(buf[4] == full[4] && buf[5] == full[5] && buf[6] == full[6] && buf[7] == full[7]);
        assert(buf[8] == full[8] && buf[9] == full[9] && buf[10] == full[10] && buf[11] == full[11]);
    }
}

/// Law: a buffer of at least a header's length whose first four bytes are
/// not "ISYN" is rejected as bad magic, carrying those four bytes.
pub proof fn lemma_bad_magic_rejected(buf: Seq<u8>, res: Result<Option<(Frame, usize)>, FrameError>)
    requires
        buf.len() >= Header::SIZE,
        buf.subrange(0, 4) != magic_seq(),
        decodes_to(buf, res),
    ensures
        res matches Err(FrameError::BadMagic(m)) && m@ == buf.subrange(0, 4),
{
}

} // verus!
