//! Clipboard sync with the lazy model: a change is announced by its formats
//! and content hash, and the bytes travel only when a peer asks for them.
//! Content hashes and originator tracking keep clipboards from echoing
//! between machines.
use crate::codec::append_bytes;
use crate::id::PeerId;
use crate::error::Error;
use crate::message::{ClipboardFormat, ClipboardPayload, Message};
use vstd::utf8::{decode_utf8, valid_utf8};
use vstd::prelude::*;

verus! {

/// The BLAKE3 digest of `data` (32 bytes).
pub uninterp spec fn blake3_digest(data: Seq<u8>) -> Seq<u8>;

/// `blake3::hash`: the 32-byte BLAKE3 digest of the input, a function of the
/// input bytes alone.
#[verifier::external_body]
fn blake3_hash(bytes: &[u8]) -> (h: [u8; 32])
    ensures
        h@ == blake3_digest(bytes@),
{
    *blake3::hash(bytes).as_bytes()
}

/// The content hash used to recognise clipboard contents.
pub fn hash_content(bytes: &[u8]) -> (h: [u8; 32])
    ensures
        h@ == blake3_digest(bytes@),
{
    blake3_hash(bytes)
}

/// Whether two 32-byte values are equal.
pub fn bytes32_eq(a: &[u8; 32], b: &[u8; 32]) -> (r: bool)
    ensures
        r == (a@ == b@),
{
    let mut i: usize = 0;
    while i < 32
        invariant
            i <= 32,
            a@.len() == 32,
            b@.len() == 32,
            forall|j: int| 0 <= j < i ==> a@[j] == b@[j],
        decreases 32 - i,
    {
        if a[i] != b[i] {
            return false;
        }
        i = i + 1;
    }
    assert(a@ =~= b@);
    true
}

/// Which peer a clipboard content (by hash) came from.
pub struct OriginatorRegistry {
    seen: Vec<([u8; 32], PeerId)>,
}

impl OriginatorRegistry {
    #[verifier::type_invariant]
    spec fn inv(self) -> bool {
        forall|i: int, j: int|
            0 <= i < j < self.seen@.len() ==> #[trigger] self.seen@[i].0@ != #[trigger] self.seen@[j].0@
    }

    /// The recorded originator of each content hash.
    pub closed spec fn view(&self) -> Map<Seq<u8>, PeerId> {
        Map::new(
            |h: Seq<u8>| exists|i: int| 0 <= i < self.seen@.len() && self.seen@[i].0@ == h,
            |h: Seq<u8>| self.seen@[choose|i: int| 0 <= i < self.seen@.len() && self.seen@[i].0@ == h].1,
        )
    }

    /// An empty registry.
    pub fn new() -> (r: Self)
        ensures
            r.view() == Map::<Seq<u8>, PeerId>::empty(),
    {
        let r = OriginatorRegistry { seen: Vec::new() };
        assert(r.view() =~= Map::<Seq<u8>, PeerId>::empty());
        r
    }

    fn find(&self, hash: &[u8; 32]) -> (r: Option<usize>)
        ensures
            r matches Some(i) ==> i < self.seen@.len() && self.seen@[i as int].0@ == hash@,
            r is None ==> forall|i: int| 0 <= i < self.seen@.len() ==> self.seen@[i].0@ != hash@,
    {
        let mut i: usize = 0;
        while i < self.seen.len()
            invariant
                i <= self.seen@.len(),
                forall|j: int| 0 <= j < i ==> self.seen@[j].0@ != hash@,
            decreases self.seen@.len() - i,
        {
            if bytes32_eq(&self.seen[i].0, hash) {
                return Some(i);
            }
            i = i + 1;
        }
        None
    }

    /// Record that the content with `hash` came from `originator`, replacing
    /// any earlier record for that hash.
    pub fn record(&mut self, hash: [u8; 32], originator: PeerId)
        ensures
            final(self).view() == old(self).view().insert(hash@, originator),
    {
        proof {
            use_type_invariant(&*self);
        }
        match self.find(&hash) {
            Some(i) => {
                let ghost old_seen = self.seen@;
                let mut seen: Vec<([u8; 32], PeerId)> = Vec::new();
                std::mem::swap(&mut seen, &mut self.seen);
                seen.set(i, (hash, originator));
                self.seen = seen;
                assert forall|k: int, j: int| 0 <= k < j < self.seen@.len() implies #[trigger] self.seen@[k].0@
                    != #[trigger] self.seen@[j].0@ by {
                    assert(old_seen[k].0@ != old_seen[j].0@);
                }
                assert(self.view() =~= old(self).view().insert(hash@, originator)) by {
                    assert forall|h: Seq<u8>| #[trigger] self.view().contains_key(h) == old(self).view().insert(hash@, originator).contains_key(h) by {
                        if self.view().contains_key(h) {
                            let w = choose|w: int| 0 <= w < self.seen@.len() && self.seen@[w].0@ == h;
                            if w != i {
                                assert(old_seen[w].0@ == h);
                            }
                        }
                        if old(self).view().contains_key(h) {
                            let w = choose|w: int| 0 <= w < old_seen.len() && old_seen[w].0@ == h;
                            if w != i {
                                assert(self.seen@[w].0@ == h);
                            } else {
                                assert(self.seen@[i as int].0@ == h);
                            }
                        }
                        if h == hash@ {
                            assert(self.seen@[i as int].0@ == h);
                        }
                    }
                    assert forall|h: Seq<u8>| #[trigger] self.view().contains_key(h) implies self.view()[h] == old(self).view().insert(hash@, originator)[h] by {
                        let w = choose|w: int| 0 <= w < self.seen@.len() && self.seen@[w].0@ == h;
                        if h == hash@ {
                            assert(self.seen@[i as int].0@ == h);
                            if w != i {
                                assert(self.seen@[w].0@ == self.seen@[i as int].0@);
                            }
                        } else {
                            assert(w != i);
                            assert(old_seen[w].0@ == h);
                            let w2 = choose|w2: int| 0 <= w2 < old_seen.len() && old_seen[w2].0@ == h;
                            if w2 != w {
                                assert(old_seen[w2].0@ == old_seen[w].0@);
                            }
                        }
                    }
                }
            },
            None => {
                let ghost old_seen = self.seen@;
                let mut seen: Vec<([u8; 32], PeerId)> = Vec::new();
                std::mem::swap(&mut seen, &mut self.seen);
                seen.push((hash, originator));
                self.seen = seen;
                assert forall|k: int, j: int| 0 <= k < j < self.seen@.len() implies #[trigger] self.seen@[k].0@
                    != #[trigger] self.seen@[j].0@ by {
                    if j < old_seen.len() {
                        assert(old_seen[k].0@ != old_seen[j].0@);
                    } else {
                        assert(old_seen[k].0@ != hash@);
                    }
                }
                let ghost n = old_seen.len() as int;
                assert(self.view() =~= old(self).view().insert(hash@, originator)) by {
                    assert forall|h: Seq<u8>| #[trigger] self.view().contains_key(h) == old(self).view().insert(hash@, originator).contains_key(h) by {
                        if self.view().contains_key(h) {
                            let w = choose|w: int| 0 <= w < self.seen@.len() && self.seen@[w].0@ == h;
                            if w != n {
                                assert(old_seen[w].0@ == h);
                            }
                        }
                        if old(self).view().contains_key(h) {
                            let w = choose|w: int| 0 <= w < old_seen.len() && old_seen[w].0@ == h;
                            assert(self.seen@[w].0@ == h);
                        }
                        if h == hash@ {
                            assert(self.seen@[n].0@ == h);
                        }
                    }
                    assert forall|h: Seq<u8>| #[trigger] self.view().contains_key(h) implies self.view()[h] == old(self).view().insert(hash@, originator)[h] by {
                        let w = choose|w: int| 0 <= w < self.seen@.len() && self.seen@[w].0@ == h;
                        if h == hash@ {
                            assert(self.seen@[n].0@ == h);
                            if w != n {
                                assert(self.seen@[w].0@ == self.seen@[n].0@);
                            }
                        } else {
                            assert(w != n);
                            assert(old_seen[w].0@ == h);
                            let w2 = choose|w2: int| 0 <= w2 < old_seen.len() && old_seen[w2].0@ == h;
                            if w2 != w {
                                assert(old_seen[w2].0@ == old_seen[w].0@);
                            }
                        }
                    }
                }
            },
        }
    }

    /// The recorded originator of the content with `hash`, if any.
    pub fn originator(&self, hash: &[u8; 32]) -> (r: Option<PeerId>)
        ensures
            r == (if self.view().contains_key(hash@) {
                Some(self.view()[hash@])
            } else {
                None::<PeerId>
            }),
    {
        proof {
            use_type_invariant(self);
        }
        match self.find(hash) {
            Some(i) => {
                proof {
                    let w = choose|w: int| 0 <= w < self.seen@.len() && self.seen@[w].0@ == hash@;
                    if w != i {
                        assert(self.seen@[w].0@ == self.seen@[i as int].0@);
                    }
                }
                Some(self.seen[i].1)
            },
            None => None,
        }
    }
}

/// The clipboard manager's state, as plain values: the originator of each
/// known content hash, the hash last seen on the local clipboard, and the
/// local peer.
pub struct ClipboardView {
    pub originators: Map<Seq<u8>, PeerId>,
    pub last_hash: Option<Seq<u8>>,
    pub local: PeerId,
}

/// Polling the local clipboard found content with hash `h`: the next state
/// and whether the change is announced to peers. Content already seen last
/// time, content this machine announced before, and content that came from a
/// peer are not announced (the last is remembered as seen).
pub open spec fn poll_outcome(v: ClipboardView, h: Seq<u8>) -> (ClipboardView, bool) {
    if v.last_hash == Some(h) {
        (v, false)
    } else if v.originators.contains_key(h) && v.originators[h] == v.local {
        (v, false)
    } else if v.originators.contains_key(h) {
        (ClipboardView { last_hash: Some(h), ..v }, false)
    } else {
        (ClipboardView { last_hash: Some(h), originators: v.originators.insert(h, v.local), ..v }, true)
    }
}

/// A peer announced clipboard content with hash `h` offering plain text:
/// remember it as that peer's.
pub open spec fn announce_outcome(v: ClipboardView, h: Seq<u8>, peer: PeerId) -> ClipboardView {
    ClipboardView { originators: v.originators.insert(h, peer), ..v }
}

/// Clipboard data with hash `h` from `originator` arrived: remember its
/// originator and treat it as the content last seen.
pub open spec fn data_outcome(v: ClipboardView, h: Seq<u8>, originator: PeerId) -> ClipboardView {
    ClipboardView { originators: v.originators.insert(h, originator), last_hash: Some(h), ..v }
}

/// What the orchestrator does after an inbound clipboard message.
#[derive(Debug, Clone)]
pub enum ClipboardAction {
    /// Send this message to the peer that sent the inbound one.
    Send(Message),
    /// Read the local clipboard in this format and answer with
    /// [`ClipboardManager::data_reply`].
    ReadAndReply(ClipboardFormat),
    /// Write this content to the local clipboard.
    Write(ClipboardPayload),
    /// Nothing to do.
    Nothing,
}

/// The decision side of the clipboard manager: which local changes to
/// announce and how to answer peers. Content larger than `max_bytes`, and
/// content the system marks confidential (a password manager's), is never
/// synced.
pub struct ClipboardManager {
    pub originators: OriginatorRegistry,
    pub last_hash: Option<[u8; 32]>,
    pub local_peer_id: PeerId,
    pub max_bytes: u64,
}

/// Content of `len` bytes may cross to a peer: it is not marked confidential
/// and fits the size cap.
pub open spec fn sync_allowed(len: nat, confidential: bool, max_bytes: u64) -> bool {
    !confidential && len <= max_bytes
}

/// Whether `formats` offers plain text.
pub fn offers_plain_text(formats: &Vec<ClipboardFormat>) -> (b: bool)
    ensures
        b == formats@.contains(ClipboardFormat::PlainText),
{
    let mut i: usize = 0;
    while i < formats.len()
        invariant
            i <= formats@.len(),
            forall|j: int| 0 <= j < i ==> formats@[j] != ClipboardFormat::PlainText,
        decreases formats@.len() - i,
    {
        if formats[i] == ClipboardFormat::PlainText {
            assert(formats@[i as int] == ClipboardFormat::PlainText);
            return true;
        }
        i = i + 1;
    }
    false
}

impl ClipboardManager {
    /// The state, as plain values.
    pub open spec fn view(&self) -> ClipboardView {
        ClipboardView {
            originators: self.originators.view(),
            last_hash: match self.last_hash {
                Some(h) => Some(h@),
                None => None,
            },
            local: self.local_peer_id,
        }
    }

    /// A manager that has seen nothing yet, syncing content of at most
    /// `max_bytes` bytes.
    pub fn new(local_peer_id: PeerId, max_bytes: u64) -> (c: Self)
        ensures
            c.view() == (ClipboardView {
                originators: Map::empty(),
                last_hash: None,
                local: local_peer_id,
            }),
            c.max_bytes == max_bytes,
    {
        ClipboardManager { originators: OriginatorRegistry::new(), last_hash: None, local_peer_id, max_bytes }
    }

    /// The local clipboard holds content with this hash: the announcement
    /// to broadcast to every peer, if the change is to be announced.
    pub fn on_local_hash(&mut self, hash: [u8; 32]) -> (m: Option<Message>)
        ensures
            final(self).max_bytes == old(self).max_bytes,
            final(self).view() == poll_outcome(old(self).view(), hash@).0,
            poll_outcome(old(self).view(), hash@).1 ==> (m matches Some(Message::ClipboardFormats { formats, hash: h })
                && formats@ == seq![ClipboardFormat::PlainText] && h == hash),
            !poll_outcome(old(self).view(), hash@).1 ==> m is None,
    {
        if let Some(last) = &self.last_hash {
            if bytes32_eq(last, &hash) {
                return None;
            }
        }
        match self.originators.originator(&hash) {
            Some(o) => {
                if o == self.local_peer_id {
                    return None;
                }
                self.last_hash = Some(hash);
                None
            },
            None => {
                self.last_hash = Some(hash);
                self.originators.record(hash, self.local_peer_id);
                let mut formats: Vec<ClipboardFormat> = Vec::new();
                formats.push(ClipboardFormat::PlainText);
                assert(formats@ =~= seq![ClipboardFormat::PlainText]);
                Some(Message::ClipboardFormats { formats, hash })
            },
        }
    }

    /// The local clipboard's plain text was read as `bytes`, and the system
    /// marks it `confidential` or not: the announcement to broadcast, if any.
    /// Empty content, confidential content and content over the size cap are
    /// ignored.
    pub fn on_local_content(&mut self, bytes: &[u8], confidential: bool) -> (m: Option<Message>)
        ensures
            final(self).max_bytes == old(self).max_bytes,
            bytes@.len() == 0 || !sync_allowed(bytes@.len(), confidential, old(self).max_bytes) ==> m is None
                && final(self).view() == old(self).view(),
            bytes@.len() > 0 && sync_allowed(bytes@.len(), confidential, old(self).max_bytes) ==> {
                let o = poll_outcome(old(self).view(), blake3_digest(bytes@));
                &&& final(self).view() == o.0
                &&& o.1 ==> (m matches Some(Message::ClipboardFormats { formats, hash: h })
                    && formats@ == seq![ClipboardFormat::PlainText] && h@ == blake3_digest(bytes@))
                &&& !o.1 ==> m is None
            },
    {
        if bytes.len() == 0 || confidential || bytes.len() as u64 > self.max_bytes {
            return None;
        }
        let hash = hash_content(bytes);
        self.on_local_hash(hash)
    }

    /// Decide what to do with a clipboard message from `peer`. A format
    /// announcement offering plain text is remembered as the peer's and
    /// answered with a request for the text; a request is answered by reading
    /// the local clipboard; data within the size cap is remembered as its
    /// originator's, marked as the content last seen, and written locally,
    /// and larger data is dropped.
    pub fn handle_inbound(&mut self, peer: PeerId, msg: Message) -> (a: ClipboardAction)
        ensures
            final(self).max_bytes == old(self).max_bytes,
            match msg {
                Message::ClipboardFormats { formats, hash } => if formats@.contains(ClipboardFormat::PlainText) {
                    &&& final(self).view() == announce_outcome(old(self).view(), hash@, peer)
                    &&& a == ClipboardAction::Send(Message::ClipboardRequest { format: ClipboardFormat::PlainText })
                } else {
                    final(self).view() == old(self).view() && a == ClipboardAction::Nothing
                },
                Message::ClipboardRequest { format } => final(self).view() == old(self).view()
                    && a == ClipboardAction::ReadAndReply(format),
                Message::ClipboardData(p) => if p.bytes@.len() <= old(self).max_bytes {
                    final(self).view() == data_outcome(old(self).view(), p.hash@, p.originator)
                        && a == ClipboardAction::Write(p)
                } else {
                    final(self).view() == old(self).view() && a == ClipboardAction::Nothing
                },
                _ => final(self).view() == old(self).view() && a == ClipboardAction::Nothing,
            },
    {
        match msg {
            Message::ClipboardFormats { formats, hash } => {
                if offers_plain_text(&formats) {
                    self.originators.record(hash, peer);
                    ClipboardAction::Send(Message::ClipboardRequest { format: ClipboardFormat::PlainText })
                } else {
                    ClipboardAction::Nothing
                }
            },
            Message::ClipboardRequest { format } => ClipboardAction::ReadAndReply(format),
            Message::ClipboardData(payload) => {
                if payload.bytes.len() as u64 > self.max_bytes {
                    return ClipboardAction::Nothing;
                }
                self.originators.record(payload.hash, payload.originator);
                self.last_hash = Some(payload.hash);
                ClipboardAction::Write(payload)
            },
            _ => ClipboardAction::Nothing,
        }
    }

    /// The answer to a peer's request: the content read locally, hashed and
    /// marked as coming from this machine; nothing when the content is marked
    /// `confidential` or is over the size cap.
    pub fn data_reply(&self, format: ClipboardFormat, bytes: Vec<u8>, confidential: bool) -> (m: Option<Message>)
        ensures
            !sync_allowed(bytes@.len(), confidential, self.max_bytes) ==> m is None,
            sync_allowed(bytes@.len(), confidential, self.max_bytes) ==> (m matches Some(Message::ClipboardData(p))
                && p.format == format && p.bytes@ == bytes@ && p.originator == self.local_peer_id && p.hash@
                == blake3_digest(bytes@)),
    {
        if confidential || bytes.len() as u64 > self.max_bytes {
            return None;
        }
        let hash = hash_content(bytes.as_slice());
        Some(Message::ClipboardData(ClipboardPayload { format, bytes, originator: self.local_peer_id, hash }))
    }
}

/// Law (loop prevention): content that arrived from a peer is never announced
/// back when it shows up on the local clipboard.
pub proof fn lemma_received_data_not_echoed(v: ClipboardView, h: Seq<u8>, originator: PeerId)
    ensures
        !poll_outcome(data_outcome(v, h, originator), h).1,
{
}

/// Law (loop prevention): content a peer announced is not announced back
/// when it shows up on the local clipboard.
pub proof fn lemma_announced_not_echoed(v: ClipboardView, h: Seq<u8>, peer: PeerId)
    ensures
        !poll_outcome(announce_outcome(v, h, peer), h).1,
{
}

/// PNG bytes, or the encoder's error message.
pub type EncodedPng = Result<Vec<u8>, String>;

/// Decoded text, or the decoding error's message.
pub type DecodedText = Result<String, String>;

/// What encoding an RGBA image of the given size as PNG gives: the PNG
/// bytes, or the encoder's error message.
pub uninterp spec fn png_encoding(width: u32, height: u32, rgba: Seq<u8>) -> Result<Seq<u8>, Seq<char>>;

/// `image::RgbaImage::from_raw`, then `DynamicImage::write_to` as PNG. The
/// crate's source builds the image exactly when the buffer holds at least
/// 4 bytes per pixel; the encoding is a function of the image alone. The PNG
/// encoder asserts that the buffer holds exactly 4 bytes per pixel, so a
/// longer buffer is left out.
#[verifier::external_body]
fn encode_png(width: u32, height: u32, rgba: Vec<u8>) -> (r: Option<EncodedPng>)
    requires
        rgba@.len() <= 4 * width * height,
    ensures
        r is None <==> 4 * width * height > rgba@.len(),
        r matches Some(Ok(v)) ==> (png_encoding(width, height, rgba@) matches Ok(p) && p == v@),
        r matches Some(Err(m)) ==> (png_encoding(width, height, rgba@) matches Err(e) && e == m@),
{
    let img = image::RgbaImage::from_raw(width, height, rgba)?;
    let mut buf: Vec<u8> = Vec::with_capacity(8 * 1024);
    match image::DynamicImage::ImageRgba8(img).write_to(&mut std::io::Cursor::new(&mut buf), image::ImageFormat::Png) {
        Ok(()) => Some(Ok(buf)),
        Err(e) => Some(Err(e.to_string())),
    }
}

/// What decoding PNG bytes gives: the image's width, height and RGBA
/// pixels, or nothing when the bytes are not a PNG the crate reads.
pub uninterp spec fn png_decoding(bytes: Seq<u8>) -> Option<(u32, u32, Seq<u8>)>;

/// `image::load_from_memory_with_format` as PNG, then `to_rgba8`.
#[verifier::external_body]
fn decode_png(bytes: &[u8]) -> (r: Option<(u32, u32, Vec<u8>)>)
    ensures
        r matches Some((w, h, v)) ==> png_decoding(bytes@) == Some((w, h, v@)),
        r is None ==> png_decoding(bytes@) is None,
{
    match image::load_from_memory_with_format(bytes, image::ImageFormat::Png) {
        Ok(img) => {
            let rgba = img.to_rgba8();
            Some((rgba.width(), rgba.height(), rgba.into_raw()))
        },
        Err(_) => None,
    }
}

/// The message of a UTF-8 decoding error for bytes that are not UTF-8.
pub uninterp spec fn utf8_error_text(bytes: Seq<u8>) -> Seq<char>;

/// `String::from_utf8`: the text the bytes encode, or, when they are not
/// UTF-8, the error's message, which depends on the bytes alone.
#[verifier::external_body]
fn text_from_utf8(bytes: Vec<u8>) -> (r: DecodedText)
    ensures
        r matches Ok(s) ==> valid_utf8(bytes@) && s@ == decode_utf8(bytes@),
        r matches Err(m) ==> !valid_utf8(bytes@) && m@ == utf8_error_text(bytes@),
{
    String::from_utf8(bytes).map_err(|e| e.to_string())
}

/// What the system clipboard has to be asked for to read `format`.
#[derive(Debug, Clone, Copy, PartialEq, Eq, Structural)]
pub enum ClipboardSource {
    Text,
    Image,
    Nothing,
}

/// What to ask the system clipboard for to read `format`: text, an image
/// (sent as PNG), or nothing for the formats not synced yet.
pub fn read_source(format: ClipboardFormat) -> (s: ClipboardSource)
    ensures
        s == (match format {
            ClipboardFormat::PlainText => ClipboardSource::Text,
            ClipboardFormat::Png => ClipboardSource::Image,
            _ => ClipboardSource::Nothing,
        }),
{
    match format {
        ClipboardFormat::PlainText => ClipboardSource::Text,
        ClipboardFormat::Png => ClipboardSource::Image,
        _ => ClipboardSource::Nothing,
    }
}

/// The formats the system clipboard offers: plain text when it holds
/// non-empty text, PNG when it holds an image.
pub fn offered_formats(has_text: bool, has_image: bool) -> (v: Vec<ClipboardFormat>)
    ensures
        v@ == (if has_text { seq![ClipboardFormat::PlainText] } else { seq![] }) + (if has_image {
            seq![ClipboardFormat::Png]
        } else {
            seq![]
        }),
{
    let mut v: Vec<ClipboardFormat> = Vec::new();
    if has_text {
        v.push(ClipboardFormat::PlainText);
    }
    if has_image {
        v.push(ClipboardFormat::Png);
    }
    assert(v@ =~= (if has_text { seq![ClipboardFormat::PlainText] } else { seq![] }) + (if has_image {
        seq![ClipboardFormat::Png]
    } else {
        seq![]
    }));
    v
}

/// The error for a failure of the system clipboard, by its message.
pub fn clipboard_error(message: String) -> (e: Error)
    ensures
        e matches Error::Other(m) && m@ == seq!['c', 'l', 'i', 'p', 'b', 'o', 'a', 'r', 'd', ':', ' '] + message@,
{
    proof {
        reveal_strlit("clipboard: ");
    }
    let mut m = String::from_str("clipboard: ");
    m.append(message.as_str());
    Error::Other(m)
}

/// The text "clipboard image: bad dimensions".
pub open spec fn msg_bad_dimensions() -> Seq<char> {
    seq![
        'c', 'l', 'i', 'p', 'b', 'o', 'a', 'r', 'd', ' ', 'i', 'm', 'a', 'g', 'e', ':', ' ', 'b', 'a', 'd', ' ', 'd', 'i',
        'm', 'e', 'n', 's', 'i', 'o', 'n', 's',
    ]
}

/// The PNG bytes sent for an image read from the system clipboard
/// (`width` by `height` pixels, RGBA, sizes truncated to 32 bits as the
/// image library takes them). A buffer longer than 4 bytes per pixel makes
/// the image library's PNG encoder panic, so it is left out.
pub fn image_payload(width: usize, height: usize, rgba: Vec<u8>) -> (r: Result<Vec<u8>, Error>)
    requires
        rgba@.len() <= 4 * (width as u32) * (height as u32),
    ensures
        ({
            let (w, h) = (width as u32, height as u32);
            &&& 4 * w * h > rgba@.len() ==> (r matches Err(Error::Other(m)) && m@ == msg_bad_dimensions())
            &&& 4 * w * h <= rgba@.len() ==> match png_encoding(w, h, rgba@) {
                Ok(png) => r matches Ok(v) && v@ == png,
                Err(msg) => r matches Err(Error::Other(m)) && m@ == seq![
                    'e', 'n', 'c', 'o', 'd', 'e', ' ', 'p', 'n', 'g', ':', ' ',
                ] + msg,
            }
        }),
{
    proof {
        reveal_strlit("clipboard image: bad dimensions");
        reveal_strlit("encode png: ");
    }
    let w = width as u32;
    let h = height as u32;
    match encode_png(w, h, rgba) {
        None => {
            assert("clipboard image: bad dimensions"@ =~= msg_bad_dimensions());
            Err(Error::Other(String::from_str("clipboard image: bad dimensions")))
        },
        Some(Ok(png)) => Ok(png),
        Some(Err(msg)) => {
            let mut m = String::from_str("encode png: ");
            m.append(msg.as_str());
            Err(Error::Other(m))
        },
    }
}

/// What writing a received payload to the system clipboard takes.
#[derive(Debug)]
pub enum ClipboardWrite {
    SetText(String),
    SetImage { width: usize, height: usize, rgba: Vec<u8> },
    Nothing,
}

/// What to write to the system clipboard for a received payload: text must
/// be UTF-8; a PNG that does not decode is dropped; the formats not synced
/// yet are ignored.
pub fn write_plan(payload: ClipboardPayload) -> (r: Result<ClipboardWrite, Error>)
    ensures
        match payload.format {
            ClipboardFormat::PlainText => if valid_utf8(payload.bytes@) {
                r matches Ok(ClipboardWrite::SetText(t)) && t@ == decode_utf8(payload.bytes@)
            } else {
                r matches Err(Error::Other(m)) && m@ == seq![
                    'c', 'l', 'i', 'p', 'b', 'o', 'a', 'r', 'd', ' ', 'u', 't', 'f', '8', ':', ' ',
                ] + utf8_error_text(payload.bytes@)
            },
            ClipboardFormat::Png => match png_decoding(payload.bytes@) {
                Some((w, h, pixels)) => r matches Ok(ClipboardWrite::SetImage { width, height, rgba }) && width
                    == w && height == h && rgba@ == pixels,
                None => r matches Ok(ClipboardWrite::Nothing),
            },
            _ => r matches Ok(ClipboardWrite::Nothing),
        },
{
    proof {
        reveal_strlit("clipboard utf8: ");
    }
    match payload.format {
        ClipboardFormat::PlainText => match text_from_utf8(payload.bytes) {
            Ok(t) => Ok(ClipboardWrite::SetText(t)),
            Err(e) => {
                let mut m = String::from_str("clipboard utf8: ");
                m.append(e.as_str());
                Err(Error::Other(m))
            },
        },
        ClipboardFormat::Png => match decode_png(payload.bytes.as_slice()) {
            Some((w, h, rgba)) => Ok(ClipboardWrite::SetImage { width: w as usize, height: h as usize, rgba }),
            None => Ok(ClipboardWrite::Nothing),
        },
        _ => Ok(ClipboardWrite::Nothing),
    }
}

/// Law: a local change is announced at most once; polling the same content
/// again announces nothing and changes nothing.
pub proof fn lemma_announce_once(v: ClipboardView, h: Seq<u8>)
    ensures
        !poll_outcome(poll_outcome(v, h).0, h).1,
        poll_outcome(poll_outcome(v, h).0, h).0 == poll_outcome(v, h).0,
{
}

/// One thing that happens to the clipboard manager, by content hash: a poll
/// of the local clipboard, a peer's announcement of plain text, or content
/// arriving from a peer with its originator.
pub enum ClipboardEvent {
    Poll(Seq<u8>),
    Announce(Seq<u8>, PeerId),
    Data(Seq<u8>, PeerId),
}

/// The state after one event, and whether it announced a local change.
pub open spec fn clipboard_step(v: ClipboardView, e: ClipboardEvent) -> (ClipboardView, bool) {
    match e {
        ClipboardEvent::Poll(h) => poll_outcome(v, h),
        ClipboardEvent::Announce(h, peer) => (announce_outcome(v, h, peer), false),
        ClipboardEvent::Data(h, originator) => (data_outcome(v, h, originator), false),
    }
}

/// The state after the events `es`, in order.
pub open spec fn clipboard_run(v: ClipboardView, es: Seq<ClipboardEvent>) -> ClipboardView
    decreases es.len(),
{
    if es.len() == 0 {
        v
    } else {
        clipboard_step(clipboard_run(v, es.drop_last()), es.last()).0
    }
}

/// Law: the manager never forgets content it has an originator for.
pub proof fn lemma_known_content_stays_known(v: ClipboardView, es: Seq<ClipboardEvent>, h: Seq<u8>)
    requires
        v.originators.contains_key(h),
    ensures
        clipboard_run(v, es).originators.contains_key(h),
    decreases es.len(),
{
    if es.len() > 0 {
        lemma_known_content_stays_known(v, es.drop_last(), h);
    }
}

/// Law: content the manager has an originator for is never announced,
/// whatever events follow.
pub proof fn lemma_known_content_never_announced(v: ClipboardView, es: Seq<ClipboardEvent>, h: Seq<u8>)
    requires
        v.originators.contains_key(h),
    ensures
        forall|k: int|
            0 <= k < es.len() && es[k] == ClipboardEvent::Poll(h) ==> !(#[trigger] clipboard_step(
                clipboard_run(v, es.take(k)),
                es[k],
            )).1,
{
    assert forall|k: int| 0 <= k < es.len() && es[k] == ClipboardEvent::Poll(h) implies !(#[trigger] clipboard_step(
        clipboard_run(v, es.take(k)),
        es[k],
    )).1 by {
        lemma_known_content_stays_known(v, es.take(k), h);
    }
}

/// Law (loop prevention over any number of polls): content that arrived
/// from a peer is never announced back, whatever happens afterwards.
pub proof fn lemma_received_never_echoed(v: ClipboardView, h: Seq<u8>, originator: PeerId, es: Seq<ClipboardEvent>)
    ensures
        forall|k: int|
            0 <= k < es.len() && es[k] == ClipboardEvent::Poll(h) ==> !(#[trigger] clipboard_step(
                clipboard_run(data_outcome(v, h, originator), es.take(k)),
                es[k],
            )).1,
{
    lemma_known_content_never_announced(data_outcome(v, h, originator), es, h);
}

/// Law: a local change is announced once; no later poll announces the same
/// content again, whatever happens in between.
pub proof fn lemma_announced_at_most_once(v: ClipboardView, h: Seq<u8>, es: Seq<ClipboardEvent>)
    requires
        poll_outcome(v, h).1,
    ensures
        forall|k: int|
            0 <= k < es.len() && es[k] == ClipboardEvent::Poll(h) ==> !(#[trigger] clipboard_step(
                clipboard_run(poll_outcome(v, h).0, es.take(k)),
                es[k],
            )).1,
{
    lemma_known_content_never_announced(poll_outcome(v, h).0, es, h);
}

/// An in-memory clipboard, for tests and headless setups.
pub struct StubBackend {
    formats: Vec<ClipboardFormat>,
    contents: Vec<(ClipboardFormat, Vec<u8>)>,
}

impl StubBackend {
    #[verifier::type_invariant]
    spec fn inv(self) -> bool {
        &&& forall|i: int, j: int| 0 <= i < j < self.formats@.len() ==> #[trigger] self.formats@[i] != #[trigger] self.formats@[j]
        &&& forall|i: int, j: int| 0 <= i < j < self.contents@.len() ==> #[trigger] self.contents@[i].0 != #[trigger] self.contents@[j].0
    }

    /// The formats on offer, in the order they were first written.
    pub closed spec fn formats_view(&self) -> Seq<ClipboardFormat> {
        self.formats@
    }

    /// The content held in each format.
    pub closed spec fn contents_view(&self) -> Map<ClipboardFormat, Seq<u8>> {
        Map::new(
            |f: ClipboardFormat| exists|i: int| 0 <= i < self.contents@.len() && self.contents@[i].0 == f,
            |f: ClipboardFormat| self.contents@[choose|i: int| 0 <= i < self.contents@.len() && self.contents@[i].0 == f].1@,
        )
    }

    /// An empty clipboard.
    pub fn new() -> (b: Self)
        ensures
            b.formats_view() == Seq::<ClipboardFormat>::empty(),
            b.contents_view() == Map::<ClipboardFormat, Seq<u8>>::empty(),
    {
        let b = StubBackend { formats: Vec::new(), contents: Vec::new() };
        assert(b.contents_view() =~= Map::<ClipboardFormat, Seq<u8>>::empty());
        b
    }

    /// The formats on offer.
    pub fn list_formats(&self) -> (v: Vec<ClipboardFormat>)
        ensures
            v@ == self.formats_view(),
    {
        let mut v: Vec<ClipboardFormat> = Vec::new();
        let mut i: usize = 0;
        while i < self.formats.len()
            invariant
                i <= self.formats@.len(),
                v@ == self.formats@.subrange(0, i as int),
            decreases self.formats@.len() - i,
        {
            v.push(self.formats[i]);
            i = i + 1;
            assert(v@ =~= self.formats@.subrange(0, i as int));
        }
        assert(self.formats@.subrange(0, self.formats@.len() as int) =~= self.formats@);
        v
    }

    fn find(&self, format: ClipboardFormat) -> (r: Option<usize>)
        ensures
            r matches Some(i) ==> i < self.contents@.len() && self.contents@[i as int].0 == format,
            r is None ==> forall|i: int| 0 <= i < self.contents@.len() ==> self.contents@[i].0 != format,
    {
        let mut i: usize = 0;
        while i < self.contents.len()
            invariant
                i <= self.contents@.len(),
                forall|j: int| 0 <= j < i ==> self.contents@[j].0 != format,
            decreases self.contents@.len() - i,
        {
            if self.contents[i].0 == format {
                return Some(i);
            }
            i = i + 1;
        }
        None
    }

    /// The content held in `format`, or nothing if there is none.
    pub fn read(&self, format: ClipboardFormat) -> (v: Vec<u8>)
        ensures
            self.contents_view().contains_key(format) ==> v@ == self.contents_view()[format],
            !self.contents_view().contains_key(format) ==> v@.len() == 0,
    {
        proof {
            use_type_invariant(self);
        }
        match self.find(format) {
            Some(i) => {
                proof {
                    let w = choose|w: int| 0 <= w < self.contents@.len() && self.contents@[w].0 == format;
                    if w != i {
                        assert(self.contents@[w].0 == self.contents@[i as int].0);
                    }
                }
                let mut v: Vec<u8> = Vec::new();
                let src = self.contents[i].1.as_slice();
                let n = src.len();
                append_bytes(&mut v, src);
                v
            },
            None => Vec::new(),
        }
    }

    /// Put `payload` on the clipboard: its format is offered (once) and its
    /// bytes replace any content held in that format.
    pub fn write(&mut self, payload: ClipboardPayload)
        ensures
            final(self).formats_view() == (if old(self).formats_view().contains(payload.format) {
                old(self).formats_view()
            } else {
                old(self).formats_view().push(payload.format)
            }),
            final(self).contents_view() == old(self).contents_view().insert(payload.format, payload.bytes@),
    {
        proof {
            use_type_invariant(&*self);
        }
        let format = payload.format;
        let mut present = false;
        let mut i: usize = 0;
        while i < self.formats.len()
            invariant
                i <= self.formats@.len(),
                present == exists|j: int| 0 <= j < i && self.formats@[j] == format,
            decreases self.formats@.len() - i,
        {
            if self.formats[i] == format {
                present = true;
            }
            i = i + 1;
        }
        let ghost old_formats = self.formats@;
        if !present {
            let mut formats: Vec<ClipboardFormat> = Vec::new();
            std::mem::swap(&mut formats, &mut self.formats);
            formats.push(format);
            self.formats = formats;
            assert forall|a: int, b: int| 0 <= a < b < self.formats@.len() implies #[trigger] self.formats@[a]
                != #[trigger] self.formats@[b] by {
                if b == old_formats.len() {
                    assert(old_formats[a] != format);
                } else {
                    assert(old_formats[a] != old_formats[b]);
                }
            }
        } else {
            proof {
                let j = choose|j: int| 0 <= j < old_formats.len() && old_formats[j] == format;
                assert(old_formats[j] == format);
                assert(old_formats.contains(format));
            }
        }
        let ghost old_contents = self.contents@;
        let idx = self.find(format);
        let mut contents: Vec<(ClipboardFormat, Vec<u8>)> = Vec::new();
        std::mem::swap(&mut contents, &mut self.contents);
        let ghost n = old_contents.len() as int;
        match idx {
            Some(k) => {
                contents.set(k, (format, payload.bytes));
            },
            None => {
                contents.push((format, payload.bytes));
            },
        }
        self.contents = contents;
        assert forall|a: int, b: int| 0 <= a < b < self.contents@.len() implies #[trigger] self.contents@[a].0
            != #[trigger] self.contents@[b].0 by {
            if idx is None && b == n {
                assert(old_contents[a].0 != format);
            } else {
                assert(old_contents[a].0 != old_contents[b].0);
            }
        }
        let ghost pos: int = match idx {
            Some(k) => k as int,
            None => n,
        };
        assert(self.contents@[pos].0 == format);
        assert(self.contents_view() =~= old(self).contents_view().insert(format, payload.bytes@)) by {
            assert forall|f: ClipboardFormat| #[trigger] self.contents_view().contains_key(f)
                == old(self).contents_view().insert(format, payload.bytes@).contains_key(f) by {
                if self.contents_view().contains_key(f) {
                    let w = choose|w: int| 0 <= w < self.contents@.len() && self.contents@[w].0 == f;
                    if w != pos {
                        assert(old_contents[w].0 == f);
                    }
                }
                if old(self).contents_view().contains_key(f) {
                    let w = choose|w: int| 0 <= w < old_contents.len() && old_contents[w].0 == f;
                    if w != pos {
                        assert(self.contents@[w].0 == f);
                    }
                }
            }
            assert forall|f: ClipboardFormat| #[trigger] self.contents_view().contains_key(f) implies self.contents_view()[f]
                == old(self).contents_view().insert(format, payload.bytes@)[f] by {
                let w = choose|w: int| 0 <= w < self.contents@.len() && self.contents@[w].0 == f;
                if f == format {
                    if w != pos {
                        assert(self.contents@[w].0 == self.contents@[pos].0);
                    }
                } else {
                    assert(w != pos);
                    assert(old_contents[w].0 == f);
                    let w2 = choose|w2: int| 0 <= w2 < old_contents.len() && old_contents[w2].0 == f;
                    if w2 != w {
                        assert(old_contents[w2].0 == old_contents[w].0);
                    }
                }
            }
        }
    }
}

/// Law: reading a format gives back what was last written in it, and the
/// format is then on offer.
pub proof fn lemma_read_after_write(
    before: Map<ClipboardFormat, Seq<u8>>,
    formats: Seq<ClipboardFormat>,
    payload_format: ClipboardFormat,
    bytes: Seq<u8>,
    other: ClipboardFormat,
)
    ensures
        before.insert(payload_format, bytes).contains_key(payload_format),
        before.insert(payload_format, bytes)[payload_format] == bytes,
        other != payload_format ==> before.insert(payload_format, bytes).contains_key(other)
            == before.contains_key(other),
        (if formats.contains(payload_format) { formats } else { formats.push(payload_format) }).contains(
            payload_format,
        ),
{
    if !formats.contains(payload_format) {
        assert(formats.push(payload_format)[formats.len() as int] == payload_format);
    }
}

} // verus!
