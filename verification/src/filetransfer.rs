//! Chunked file transfer bookkeeping: path sanitization, manifests, sender
//! progress, and receiver state with BLAKE3 verification and resume offsets.
//! Reading and writing files is left to the caller.
use crate::clipboard::{blake3_digest, bytes32_eq};
use crate::error::Error;
use crate::message::{FileChunk, FileEntry, FileManifest, FileOffer};
use crate::text::{decimal, path_join, u64_to_string, joined_path};
use std::collections::HashMap;
use vstd::prelude::*;

verus! {

broadcast use vstd::std_specs::hash::group_hash_axioms;

/// Chunk size used by senders: 64 KiB.
pub const DEFAULT_CHUNK_SIZE: usize = 64 * 1024;

/// `s` with every backslash turned into a forward slash.
pub open spec fn slashed(s: Seq<char>) -> Seq<char> {
    s.map_values(|c: char| if c == '\\' { '/' } else { c })
}

/// `str::replace('\\', "/")`: replaces every backslash with a slash.
#[verifier::external_body]
fn replace_backslashes(s: &str) -> (r: String)
    ensures
        r@ == slashed(s@),
{
    s.replace('\\', "/")
}

/// An ASCII letter.
pub open spec fn is_ascii_letter(c: char) -> bool {
    ('a' <= c && c <= 'z') || ('A' <= c && c <= 'Z')
}

/// The path starts with a drive letter, as in `C:`.
pub open spec fn has_drive_prefix(p: Seq<char>) -> bool {
    p.len() >= 2 && is_ascii_letter(p[0]) && p[1] == ':'
}

/// The path starts at a root: `/`, or a drive letter followed by `/`.
pub open spec fn is_absolute_path(p: Seq<char>) -> bool {
    (p.len() > 0 && p[0] == '/') || (has_drive_prefix(p) && p.len() > 2 && p[2] == '/')
}

/// The path has a `..` component.
pub open spec fn has_parent_component(p: Seq<char>) -> bool {
    exists|i: int|
        0 <= i && i + 1 < p.len() && #[trigger] p[i] == '.' && p[i + 1] == '.' && (i == 0 || p[i - 1]
            == '/') && (i + 2 == p.len() || p[i + 2] == '/')
}

/// The path starts with a `.` component (a `.` further in is normalized away
/// and harmless).
pub open spec fn has_leading_current_dir(p: Seq<char>) -> bool {
    p.len() > 0 && p[0] == '.' && (p.len() == 1 || p[1] == '/')
}

/// A relative path that stays inside the directory it is joined to.
pub open spec fn is_safe_relative(p: Seq<char>) -> bool {
    !is_absolute_path(p) && !has_parent_component(p) && !has_leading_current_dir(p) && !has_drive_prefix(p)
}

/// Sanitize a path received from a peer before joining it to the drop
/// directory: backslashes become slashes, and absolute paths, paths that
/// start with a drive letter, and paths with `..` or a leading `.` component
/// are rejected. This keeps a sender from
/// writing outside the drop directory.
pub fn sanitize(rel: &str) -> (r: Result<String, Error>)
    ensures
        is_safe_relative(slashed(rel@)) ==> (r matches Ok(p) && p@ == slashed(rel@)),
        is_absolute_path(slashed(rel@)) ==> (r matches Err(Error::Other(m)) && m@ == seq![
            'a', 'b', 's', 'o', 'l', 'u', 't', 'e', ' ', 'p', 'a', 't', 'h', ' ', 'r', 'e', 'j',
            'e', 'c', 't', 'e', 'd', ':', ' '] + slashed(rel@)),
        !is_safe_relative(slashed(rel@)) && !is_absolute_path(slashed(rel@)) ==> (r matches Err(
            Error::Other(m),
        ) && m@ == seq![
            's', 'u', 's', 'p', 'i', 'c', 'i', 'o', 'u', 's', ' ', 'p', 'a', 't', 'h', ' ', 'c',
            'o', 'm', 'p', 'o', 'n', 'e', 'n', 't', ' ', 'i', 'n', ':', ' '] + slashed(rel@)),
{
    let p = replace_backslashes(rel);
    let n = p.as_str().unicode_len();
    proof {
        reveal_strlit("absolute path rejected: ");
        reveal_strlit("suspicious path component in: ");
    }
    let drive = n >= 2 && {
        let c = p.as_str().get_char(0);
        (('a' <= c && c <= 'z') || ('A' <= c && c <= 'Z')) && p.as_str().get_char(1) == ':'
    };
    if (n > 0 && p.as_str().get_char(0) == '/') || (drive && n > 2 && p.as_str().get_char(2) == '/') {
        let msg = String::from_str("absolute path rejected: ").concat(p.as_str());
        return Err(Error::Other(msg));
    }
    let mut i: usize = 0;
    let mut bad = false;
    if n > 0 && p.as_str().get_char(0) == '.' && (n == 1 || p.as_str().get_char(1) == '/') {
        bad = true;
    }
    if drive {
        bad = true;
    }
    while i < n && !bad
        invariant
            n == p@.len(),
            i <= n,
            p@ == slashed(rel@),
            !is_absolute_path(p@),
            bad == (has_leading_current_dir(p@) || has_drive_prefix(p@)),
            forall|j: int|
                0 <= j < i ==> !(j + 1 < p@.len() && #[trigger] p@[j] == '.' && p@[j + 1] == '.' && (
                j == 0 || p@[j - 1] == '/') && (j + 2 == p@.len() || p@[j + 2] == '/')),
        decreases n - i,
    {
        if i + 1 < n && p.as_str().get_char(i) == '.' && p.as_str().get_char(i + 1) == '.' && (i == 0
            || p.as_str().get_char(i - 1) == '/') && (i + 2 == n || p.as_str().get_char(i + 2) == '/') {
            assert(p@[i as int] == '.');
            assert(has_parent_component(p@));
            proof {
                reveal_strlit("suspicious path component in: ");
            }
            let msg = String::from_str("suspicious path component in: ").concat(p.as_str());
            return Err(Error::Other(msg));
        }
        i = i + 1;
    }
    if bad {
        let msg = String::from_str("suspicious path component in: ").concat(p.as_str());
        return Err(Error::Other(msg));
    }
    Ok(p)
}

/// The sum of the values of `s`.
pub open spec fn sum_u64(s: Seq<u64>) -> int
    decreases s.len(),
{
    if s.len() == 0 {
        0
    } else {
        sum_u64(s.drop_last()) + s.last()
    }
}

/// The sizes of the entries, in order.
pub open spec fn entry_sizes(entries: Seq<FileEntry>) -> Seq<u64> {
    entries.map_values(|e: FileEntry| e.size)
}

/// The manifest of a set of files, from the entry built for each: the
/// entries in order, with their total size.
pub fn build_manifest(entries: Vec<FileEntry>) -> (m: FileManifest)
    requires
        sum_u64(entry_sizes(entries@)) <= u64::MAX,
    ensures
        m.files@ == entries@,
        m.total_bytes == sum_u64(entry_sizes(entries@)),
{
    let mut total: u64 = 0;
    let mut i: usize = 0;
    while i < entries.len()
        invariant
            i <= entries@.len(),
            sum_u64(entry_sizes(entries@)) <= u64::MAX,
            total == sum_u64(entry_sizes(entries@.subrange(0, i as int))),
        decreases entries@.len() - i,
    {
        proof {
            lemma_sum_prefix_le(entry_sizes(entries@), i as int + 1);
            assert(entry_sizes(entries@.subrange(0, i + 1)).drop_last() =~= entry_sizes(
                entries@.subrange(0, i as int),
            ));
            assert(entry_sizes(entries@.subrange(0, i + 1)) =~= entry_sizes(entries@).subrange(
                0,
                i + 1,
            ));
        }
        total = total + entries[i].size;
        i = i + 1;
    }
    assert(entries@.subrange(0, entries@.len() as int) =~= entries@);
    FileManifest { files: entries, total_bytes: total }
}

/// A prefix of a sequence of unsigned values sums to no more than the whole.
pub proof fn lemma_sum_prefix_le(s: Seq<u64>, k: int)
    requires
        0 <= k <= s.len(),
    ensures
        0 <= sum_u64(s.subrange(0, k)) <= sum_u64(s),
    decreases s.len(),
{
    if s.len() > 0 {
        if k == s.len() {
            assert(s.subrange(0, k) =~= s);
            lemma_sum_nonneg(s);
        } else {
            assert(s.drop_last().subrange(0, k) =~= s.subrange(0, k));
            lemma_sum_prefix_le(s.drop_last(), k);
        }
    } else {
        assert(s.subrange(0, k) =~= s);
    }
}

/// Sums of unsigned values are not negative.
pub proof fn lemma_sum_nonneg(s: Seq<u64>)
    ensures
        sum_u64(s) >= 0,
    decreases s.len(),
{
    if s.len() > 0 {
        lemma_sum_nonneg(s.drop_last());
    }
}

/// Progress of one outgoing transfer.
#[derive(Debug, Clone)]
pub struct SendProgress {
    pub manifest: FileManifest,
    pub bytes_sent: u64,
    pub bytes_acked: u64,
}

/// The sender side: which transfers are running and how far each got.
pub struct SenderState {
    transfers: HashMap<u64, SendProgress>,
}

impl SenderState {
    /// The progress of each running transfer.
    pub closed spec fn view(&self) -> Map<u64, SendProgress> {
        self.transfers@
    }

    /// No transfer running.
    pub fn new() -> (s: Self)
        ensures
            s.view() == Map::<u64, SendProgress>::empty(),
    {
        SenderState { transfers: HashMap::new() }
    }

    /// Start tracking a transfer with nothing sent or acknowledged.
    pub fn start(&mut self, transfer_id: u64, manifest: FileManifest)
        ensures
            final(self).view() == old(self).view().insert(
                transfer_id,
                SendProgress { manifest, bytes_sent: 0, bytes_acked: 0 },
            ),
    {
        self.transfers.insert(transfer_id, SendProgress { manifest, bytes_sent: 0, bytes_acked: 0 });
    }

    /// Count `bytes` more as sent on a running transfer; unknown transfers
    /// are ignored.
    pub fn record_sent(&mut self, transfer_id: u64, bytes: u64)
        requires
            old(self).view().contains_key(transfer_id) ==> old(self).view()[transfer_id].bytes_sent
                + bytes <= u64::MAX,
        ensures
            old(self).view().contains_key(transfer_id) ==> final(self).view() == old(self).view().insert(
                transfer_id,
                SendProgress {
                    bytes_sent: (old(self).view()[transfer_id].bytes_sent + bytes) as u64,
                    ..old(self).view()[transfer_id]
                },
            ),
            !old(self).view().contains_key(transfer_id) ==> final(self).view() == old(self).view(),
    {
        if let Some(p) = self.transfers.remove(&transfer_id) {
            let np = SendProgress { bytes_sent: p.bytes_sent + bytes, ..p };
            self.transfers.insert(transfer_id, np);
            assert(self.transfers@ =~= old(self).view().insert(
                transfer_id,
                SendProgress {
                    bytes_sent: (old(self).view()[transfer_id].bytes_sent + bytes) as u64,
                    ..old(self).view()[transfer_id]
                },
            ));
        }
    }

    /// Record that the peer acknowledged everything up to `through`; unknown
    /// transfers are ignored.
    pub fn record_ack(&mut self, transfer_id: u64, through: u64)
        ensures
            old(self).view().contains_key(transfer_id) ==> final(self).view() == old(self).view().insert(
                transfer_id,
                SendProgress { bytes_acked: through, ..old(self).view()[transfer_id] },
            ),
            !old(self).view().contains_key(transfer_id) ==> final(self).view() == old(self).view(),
    {
        if let Some(p) = self.transfers.remove(&transfer_id) {
            let np = SendProgress { bytes_acked: through, ..p };
            self.transfers.insert(transfer_id, np);
            assert(self.transfers@ =~= old(self).view().insert(
                transfer_id,
                SendProgress { bytes_acked: through, ..old(self).view()[transfer_id] },
            ));
        }
    }
}

#[verifier::external_type_specification]
#[verifier::external_body]
pub struct ExBlake3Hasher(blake3::Hasher);

/// The bytes fed to an incremental BLAKE3 hasher so far, in order.
pub uninterp spec fn hasher_absorbed(h: blake3::Hasher) -> Seq<u8>;

/// `blake3::Hasher::new`: a hasher that has absorbed nothing.
#[verifier::external_body]
fn hasher_new() -> (h: blake3::Hasher)
    ensures
        hasher_absorbed(h) == Seq::<u8>::empty(),
{
    blake3::Hasher::new()
}

/// `blake3::Hasher::update`: absorbs `data` after what came before.
#[verifier::external_body]
fn hasher_update(h: &mut blake3::Hasher, data: &[u8])
    ensures
        hasher_absorbed(*final(h)) == hasher_absorbed(*old(h)) + data@,
{
    h.update(data);
}

/// `blake3::Hasher::finalize`: the BLAKE3 digest of everything absorbed, the
/// same as hashing it all at once.
#[verifier::external_body]
fn hasher_finalize(h: &blake3::Hasher) -> (d: [u8; 32])
    ensures
        d@ == blake3_digest(hasher_absorbed(*h)),
{
    *h.finalize().as_bytes()
}

/// Progress of one incoming transfer.
pub struct RecvProgress {
    manifest: FileManifest,
    paths: Vec<String>,
    bytes_received: Vec<u64>,
    hashers: Vec<blake3::Hasher>,
}

/// Progress of one incoming transfer, as plain values: the manifest's
/// entries and total size, where each file is written, how many bytes of each were received,
/// and the bytes of each received so far.
pub struct RecvView {
    pub files: Seq<FileEntry>,
    pub total_bytes: u64,
    pub paths: Seq<Seq<char>>,
    pub received: Seq<u64>,
    pub data: Seq<Seq<u8>>,
}

impl RecvProgress {
    pub closed spec fn view(&self) -> RecvView {
        RecvView {
            files: self.manifest.files@,
            total_bytes: self.manifest.total_bytes,
            paths: self.paths@.map_values(|p: String| p@),
            received: self.bytes_received@,
            data: self.hashers@.map_values(|h: blake3::Hasher| hasher_absorbed(h)),
        }
    }

    /// Each file is written to its sanitized manifest path under `drop_dir`.
    pub closed spec fn targets_under(&self, drop_dir: Seq<char>) -> bool {
        forall|i: int| 0 <= i < self.paths@.len() ==> #[trigger] targeted_as(self.manifest.files@, drop_dir, self.paths@, i)
    }

    pub closed spec fn wf(&self) -> bool {
        &&& self.paths@.len() == self.manifest.files@.len()
        &&& self.bytes_received@.len() == self.manifest.files@.len()
        &&& self.hashers@.len() == self.manifest.files@.len()
        &&& forall|i: int| 0 <= i < self.hashers@.len() ==> #[trigger] hasher_absorbed(self.hashers@[i]).len() == self.bytes_received@[i]
    }
}

/// The receiver side: which chunks of each transfer have been written, so
/// that chunks are accepted in order, files are checked against their
/// BLAKE3 hashes, and a sender can resume after a disconnect.
pub struct Receiver {
    drop_dir: String,
    transfers: HashMap<u64, RecvProgress>,
}

/// The text "unknown transfer".
pub open spec fn msg_unknown_transfer() -> Seq<char> {
    seq!['u', 'n', 'k', 'n', 'o', 'w', 'n', ' ', 't', 'r', 'a', 'n', 's', 'f', 'e', 'r']
}

/// The text "file index out of range".
pub open spec fn msg_index_out_of_range() -> Seq<char> {
    seq!['f', 'i', 'l', 'e', ' ', 'i', 'n', 'd', 'e', 'x', ' ', 'o', 'u', 't', ' ', 'o', 'f', ' ', 'r', 'a', 'n', 'g', 'e']
}

/// The text "chunk out of order: expected offset E, got O".
pub open spec fn msg_out_of_order(expected: u64, got: u64) -> Seq<char> {
    seq!['c', 'h', 'u', 'n', 'k', ' ', 'o', 'u', 't', ' ', 'o', 'f', ' ', 'o', 'r', 'd', 'e', 'r', ':', ' ',
        'e', 'x', 'p', 'e', 'c', 't', 'e', 'd', ' ', 'o', 'f', 'f', 's', 'e', 't', ' '] + decimal(expected as nat)
        + seq![',', ' ', 'g', 'o', 't', ' '] + decimal(got as nat)
}

/// The text "blake3 mismatch on 'PATH'".
pub open spec fn msg_hash_mismatch(path: Seq<char>) -> Seq<char> {
    seq!['b', 'l', 'a', 'k', 'e', '3', ' ', 'm', 'i', 's', 'm', 'a', 't', 'c', 'h', ' ', 'o', 'n', ' ', '\'']
        + path + seq!['\'']
}

/// Entry `i` of `files` was accepted and sanitized to `out[i]`.
pub open spec fn sanitized_as(files: Seq<FileEntry>, out: Seq<String>, i: int) -> bool {
    is_safe_relative(slashed(files[i].relative_path@)) && out[i]@ == slashed(files[i].relative_path@)
}

/// Entry `i` of `files` was accepted and is written to `out[i]`: its
/// sanitized path under `drop_dir`.
pub open spec fn targeted_as(files: Seq<FileEntry>, drop_dir: Seq<char>, out: Seq<String>, i: int) -> bool {
    is_safe_relative(slashed(files[i].relative_path@)) && out[i]@ == joined_path(
        drop_dir,
        slashed(files[i].relative_path@),
    )
}

/// The received data of `v` after appending `data` to file `i`.
pub open spec fn after_chunk(v: RecvView, i: int, data: Seq<u8>) -> RecvView {
    RecvView {
        received: v.received.update(i, (v.received[i] + data.len()) as u64),
        data: v.data.update(i, v.data[i] + data),
        ..v
    }
}

/// What preparing to write `chunk` yields: the file's path, or why the chunk
/// is refused (unknown transfer, file index out of range, or not the next
/// offset of that file).
pub open spec fn prepare_result(transfers: Map<u64, RecvView>, chunk: FileChunk, r: Result<String, Error>) -> bool {
    if !transfers.contains_key(chunk.transfer_id) {
        r matches Err(Error::Other(m)) && m@ == msg_unknown_transfer()
    } else {
        let v = transfers[chunk.transfer_id];
        let i = chunk.file_index as int;
        if i >= v.paths.len() {
            r matches Err(Error::Other(m)) && m@ == msg_index_out_of_range()
        } else if chunk.offset != v.received[i] {
            r matches Err(Error::Other(m)) && m@ == msg_out_of_order(v.received[i], chunk.offset)
        } else {
            r matches Ok(p) && p@ == v.paths[i]
        }
    }
}

impl Receiver {
    /// Each running transfer's progress.
    pub closed spec fn view(&self) -> Map<u64, RecvView> {
        Map::new(|id: u64| self.transfers@.contains_key(id), |id: u64| self.transfers@[id].view())
    }

    /// The receiver's bookkeeping is consistent: each transfer has one path,
    /// one received count and one hasher per manifest file, each count is the
    /// number of bytes its hasher has absorbed, and each file is written to
    /// its sanitized manifest path under the drop directory.
    #[verifier::type_invariant]
    pub closed spec fn wf(&self) -> bool {
        forall|id: u64| #[trigger] self.transfers@.contains_key(id) ==> {
            &&& self.transfers@[id].wf()
            &&& self.transfers@[id].targets_under(self.drop_dir@)
        }
    }

    /// The directory received files go to.
    pub closed spec fn spec_drop_dir(&self) -> Seq<char> {
        self.drop_dir@
    }

    /// A receiver writing into `drop_dir`, with no transfer running.
    pub fn new(drop_dir: String) -> (r: Self)
        ensures
            r.view() == Map::<u64, RecvView>::empty(),
            r.spec_drop_dir() == drop_dir@,
    {
        let r = Receiver { drop_dir, transfers: HashMap::new() };
        assert(r.view() =~= Map::<u64, RecvView>::empty());
        r
    }

    /// The directory received files go to.
    pub fn drop_dir(&self) -> (d: &String)
        ensures
            d@ == self.spec_drop_dir(),
    {
        &self.drop_dir
    }

    /// The sanitized relative path of each file of `manifest`, in order, or
    /// the error for the first path that is refused.
    pub fn sanitized_paths(manifest: &FileManifest) -> (r: Result<Vec<String>, Error>)
        ensures
            r matches Ok(v) ==> v@.len() == manifest.files@.len() && forall|i: int|
                0 <= i < v@.len() ==> #[trigger] sanitized_as(manifest.files@, v@, i),
            r is Err ==> exists|i: int|
                0 <= i < manifest.files@.len() && !is_safe_relative(
                    slashed(#[trigger] manifest.files@[i].relative_path@),
                ),
    {
        let mut out: Vec<String> = Vec::new();
        let mut i: usize = 0;
        while i < manifest.files.len()
            invariant
                i <= manifest.files@.len(),
                out@.len() == i,
                forall|j: int| 0 <= j < i ==> #[trigger] sanitized_as(manifest.files@, out@, j),
            decreases manifest.files@.len() - i,
        {
            match sanitize(manifest.files[i].relative_path.as_str()) {
                Ok(p) => {
                    let ghost before = out@;
                    out.push(p);
                    assert(is_safe_relative(slashed(manifest.files@[i as int].relative_path@)));
                    assert forall|j: int| 0 <= j < i + 1 implies #[trigger] sanitized_as(
                        manifest.files@,
                        out@,
                        j,
                    ) by {
                        if j < i {
                            assert(sanitized_as(manifest.files@, before, j));
                        }
                    }
                },
                Err(e) => {
                    assert(!is_safe_relative(slashed(manifest.files@[i as int].relative_path@)));
                    return Err(e);
                },
            }
            i = i + 1;
        }
        Ok(out)
    }

    /// Start receiving a transfer whose files are written to `paths`, which
    /// must be the sanitized manifest paths joined to the drop directory (as
    /// [`Receiver::target_paths`] gives them), with nothing received yet. A
    /// transfer with the same id is replaced.
    pub fn begin(&mut self, transfer_id: u64, manifest: FileManifest, paths: Vec<String>)
        requires
            paths@.len() == manifest.files@.len(),
            forall|i: int| 0 <= i < paths@.len() ==> #[trigger] targeted_as(manifest.files@, old(self).spec_drop_dir(), paths@, i),
        ensures
            final(self).spec_drop_dir() == old(self).spec_drop_dir(),
            final(self).view() == old(self).view().insert(
                transfer_id,
                RecvView {
                    files: manifest.files@,
                    total_bytes: manifest.total_bytes,
                    paths: paths@.map_values(|p: String| p@),
                    received: Seq::new(manifest.files@.len(), |i: int| 0u64),
                    data: Seq::new(manifest.files@.len(), |i: int| Seq::<u8>::empty()),
                },
            ),
    {
        proof {
            use_type_invariant(&*self);
        }
        let ghost files = manifest.files@;
        let ghost ps = paths@;
        let n = manifest.files.len();
        let mut hashers: Vec<blake3::Hasher> = Vec::new();
        let mut received: Vec<u64> = Vec::new();
        let mut i: usize = 0;
        while i < n
            invariant
                i <= n,
                hashers@.len() == i,
                received@.len() == i,
                forall|j: int| 0 <= j < i ==> #[trigger] hasher_absorbed(hashers@[j]) == Seq::<u8>::empty(),
                forall|j: int| 0 <= j < i ==> #[trigger] received@[j] == 0,
            decreases n - i,
        {
            hashers.push(hasher_new());
            received.push(0);
            i = i + 1;
        }
        let progress = RecvProgress { manifest, paths, bytes_received: received, hashers };
        assert(progress.wf());
        assert forall|k: int| 0 <= k < progress.paths@.len() implies #[trigger] targeted_as(
            progress.manifest.files@,
            self.drop_dir@,
            progress.paths@,
            k,
        ) by {
            assert(targeted_as(files, old(self).spec_drop_dir(), ps, k));
        }
        assert(progress.targets_under(self.drop_dir@));
        assert(progress.view().received =~= Seq::new(n as nat, |i: int| 0u64));
        assert(progress.view().data =~= Seq::new(n as nat, |i: int| Seq::<u8>::empty()));
        let mut transfers: HashMap<u64, RecvProgress> = HashMap::new();
        std::mem::swap(&mut transfers, &mut self.transfers);
        transfers.insert(transfer_id, progress);
        self.transfers = transfers;
        assert(self.view() =~= old(self).view().insert(transfer_id, progress.view()));
    }

    /// Check a chunk before its bytes are written: the path of the file it
    /// belongs to, provided the transfer is known, the file index is in
    /// range, and the chunk starts exactly where that file's received data
    /// ends.
    pub fn prepare_chunk(&self, chunk: &FileChunk) -> (r: Result<String, Error>)
        ensures
            prepare_result(self.view(), *chunk, r),
            r matches Ok(p) ==> {
                let f = self.view()[chunk.transfer_id].files[chunk.file_index as int];
                &&& is_safe_relative(slashed(f.relative_path@))
                &&& p@ == joined_path(self.spec_drop_dir(), slashed(f.relative_path@))
            },
    {
        proof {
            use_type_invariant(self);
            reveal_strlit("unknown transfer");
            reveal_strlit("file index out of range");
            reveal_strlit("chunk out of order: expected offset ");
            reveal_strlit(", got ");
        }
        match self.transfers.get(&chunk.transfer_id) {
            None => {
                assert(!self.view().contains_key(chunk.transfer_id));
                let m = String::from_str("unknown transfer");
                assert(m@ == msg_unknown_transfer());
                Err(Error::Other(m))
            },
            Some(progress) => {
                assert(self.transfers@.contains_key(chunk.transfer_id));
                assert(self.transfers@[chunk.transfer_id] == *progress);
                assert(self.view()[chunk.transfer_id] == progress.view());
                assert(progress.view().paths.len() == progress.paths@.len());
                let i = chunk.file_index as usize;
                if i >= progress.paths.len() {
                    let m = String::from_str("file index out of range");
                    assert(m@ == msg_index_out_of_range());
                    assert(chunk.file_index as int >= self.view()[chunk.transfer_id].paths.len());
                    return Err(Error::Other(m));
                }
                let expected = progress.bytes_received[i];
                if chunk.offset != expected {
                    let mut msg = String::from_str("chunk out of order: expected offset ");
                    msg.append(u64_to_string(expected).as_str());
                    msg.append(", got ");
                    msg.append(u64_to_string(chunk.offset).as_str());
                    assert(expected == self.view()[chunk.transfer_id].received[i as int]);
                    assert(msg@ =~= msg_out_of_order(expected, chunk.offset));
                    return Err(Error::Other(msg));
                }
                let p = progress.paths[i].clone();
                assert(p@ == self.view()[chunk.transfer_id].paths[i as int]);
                assert(targeted_as(progress.manifest.files@, self.drop_dir@, progress.paths@, i as int));
                assert(chunk.offset == self.view()[chunk.transfer_id].received[i as int]);
                assert(prepare_result(self.view(), *chunk, Ok::<String, Error>(p)));
                Ok(p)
            },
        }
    }

    /// Whether committing `chunk` stays within the bounds the bookkeeping
    /// needs: for a known transfer, the file index is in range and the
    /// received byte counts, with the chunk added, still fit in `u64`.
    pub open spec fn commit_allowed(&self, chunk: FileChunk) -> bool {
        self.view().contains_key(chunk.transfer_id) ==> {
            let v = self.view()[chunk.transfer_id];
            &&& (chunk.file_index as int) < v.files.len()
            &&& sum_u64(v.received) + chunk.data@.len() <= u64::MAX
        }
    }

    /// Whether [`Receiver::commit_chunk`] may be called with `chunk`.
    pub fn can_commit(&self, chunk: &FileChunk) -> (b: bool)
        ensures
            b == self.commit_allowed(*chunk),
    {
        proof {
            use_type_invariant(self);
        }
        match self.transfers.get(&chunk.transfer_id) {
            None => {
                assert(!self.view().contains_key(chunk.transfer_id));
                assert(self.commit_allowed(*chunk));
                true
            },
            Some(progress) => {
                assert(self.transfers@[chunk.transfer_id] == *progress);
                assert(self.view()[chunk.transfer_id] == progress.view());
                assert(progress.wf());
                let i = chunk.file_index as usize;
                if i >= progress.paths.len() {
                    assert(!self.commit_allowed(*chunk));
                    return false;
                }
                assert((chunk.file_index as int) < self.view()[chunk.transfer_id].files.len());
                assert(self.view()[chunk.transfer_id].received == progress.bytes_received@);
                let total = sum_received(&progress.bytes_received);
                let dlen = chunk.data.len();
                assert(dlen == chunk.data@.len());
                let d64 = dlen as u64;
                assert(d64 == dlen);
                proof {
                    lemma_sum_nonneg(progress.bytes_received@);
                }
                match total {
                    None => {
                        assert(!self.commit_allowed(*chunk));
                        false
                    },
                    Some(t) => {
                        let b = t <= u64::MAX - d64;
                        assert(b == self.commit_allowed(*chunk));
                        b
                    },
                }
            },
        }
    }

    /// Record that `chunk`'s bytes were written: its file's received count
    /// and data grow by the chunk. For the last chunk of a file, the BLAKE3
    /// digest of all the file's data must equal the manifest's (the counts
    /// stay updated even when it does not). Returns the bytes received over
    /// all files of the transfer.
    pub fn commit_chunk(&mut self, chunk: &FileChunk) -> (r: Result<u64, Error>)
        requires
            old(self).commit_allowed(*chunk),
        ensures
            final(self).spec_drop_dir() == old(self).spec_drop_dir(),
            !old(self).view().contains_key(chunk.transfer_id) ==> final(self).view() == old(self).view()
                && (r matches Err(Error::Other(m)) && m@ == msg_unknown_transfer()),
            old(self).view().contains_key(chunk.transfer_id) ==> {
                let v = old(self).view()[chunk.transfer_id];
                let i = chunk.file_index as int;
                let v2 = after_chunk(v, i, chunk.data@);
                &&& final(self).view() == old(self).view().insert(chunk.transfer_id, v2)
                &&& if chunk.is_last && blake3_digest(v2.data[i]) != v.files[i].blake3@ {
                    r matches Err(Error::Other(m)) && m@ == msg_hash_mismatch(v.files[i].relative_path@)
                } else {
                    r == Ok::<u64, Error>(sum_u64(v2.received) as u64)
                }
            },
    {
        proof {
            reveal_strlit("unknown transfer");
            reveal_strlit("blake3 mismatch on '");
            reveal_strlit("'");
        }
        proof {
            use_type_invariant(&*self);
        }
        let id = chunk.transfer_id;
        let mut transfers: HashMap<u64, RecvProgress> = HashMap::new();
        std::mem::swap(&mut transfers, &mut self.transfers);
        match transfers.remove(&id) {
            None => {
                self.transfers = transfers;
                assert(self.transfers@ =~= old(self).transfers@);
                assert(self.view() =~= old(self).view());
                let m = String::from_str("unknown transfer");
                assert(m@ == msg_unknown_transfer());
                Err(Error::Other(m))
            },
            Some(progress) => {
                let ghost v = progress.view();
                assert(old(self).transfers@[id] == progress);
                assert(old(self).view()[id] == v);
                let i = chunk.file_index as usize;
                let RecvProgress { manifest, paths, mut bytes_received, mut hashers } = progress;
                let len = chunk.data.len() as u64;
                proof {
                    lemma_sum_element_le(bytes_received@, i as int);
                }
                let newcount = bytes_received[i] + len;
                bytes_received.set(i, newcount);
                let mut h = hashers.remove(i);
                hasher_update(&mut h, chunk.data.as_slice());
                hashers.insert(i, h);
                let np = RecvProgress { manifest, paths, bytes_received, hashers };
                let ghost v2 = after_chunk(v, i as int, chunk.data@);
                assert(np.view().received =~= v2.received);
                assert(np.view().data =~= v2.data);
                assert(np.view().paths =~= v2.paths);
                assert(np.view() == v2);
                assert(np.wf()) by {
                    assert forall|k: int| 0 <= k < np.hashers@.len() implies #[trigger] hasher_absorbed(
                        np.hashers@[k],
                    ).len() == np.bytes_received@[k] by {
                        if k != i {
                            assert(np.hashers@[k] == old(self).transfers@[id].hashers@[k]);
                        }
                    }
                }
                let total = sum_received(&np.bytes_received);
                let digest_ok = if chunk.is_last {
                    let got = hasher_finalize(&np.hashers[i]);
                    assert(got@ == blake3_digest(v2.data[i as int]));
                    bytes32_eq(&got, &np.manifest.files[i].blake3)
                } else {
                    true
                };
                let mismatch_path = if !digest_ok {
                    let mut m = String::from_str("blake3 mismatch on '");
                    m.append(np.manifest.files[i].relative_path.as_str());
                    m.append("'");
                    Some(m)
                } else {
                    None
                };
                transfers.insert(id, np);
                self.transfers = transfers;
                assert(self.view() =~= old(self).view().insert(id, v2));
                proof {
                    lemma_sum_after_add(v.received, i as int, chunk.data@.len() as int);
                }
                match mismatch_path {
                    Some(m) => {
                        assert(m@ =~= msg_hash_mismatch(v.files[i as int].relative_path@));
                        Err(Error::Other(m))
                    },
                    None => match total {
                        Some(t) => Ok(t),
                        None => {
                            assert(false);
                            Ok(0)
                        },
                    },
                }
            },
        }
    }

    /// Where each file of a transfer should resume: the bytes received of
    /// each, or `None` for an unknown transfer.
    pub fn resume_offsets(&self, transfer_id: u64) -> (r: Option<Vec<u64>>)
        ensures
            self.view().contains_key(transfer_id) ==> (r matches Some(v) && v@ == self.view()[transfer_id].received),
            !self.view().contains_key(transfer_id) ==> r is None,
    {
        proof {
            use_type_invariant(self);
        }
        match self.transfers.get(&transfer_id) {
            None => None,
            Some(progress) => {
                assert(self.transfers@[transfer_id] == *progress);
                let mut v: Vec<u64> = Vec::new();
                let mut k: usize = 0;
                while k < progress.bytes_received.len()
                    invariant
                        k <= progress.bytes_received@.len(),
                        v@ == progress.bytes_received@.subrange(0, k as int),
                    decreases progress.bytes_received@.len() - k,
                {
                    v.push(progress.bytes_received[k]);
                    k = k + 1;
                    assert(v@ =~= progress.bytes_received@.subrange(0, k as int));
                }
                assert(progress.bytes_received@.subrange(0, k as int) =~= progress.bytes_received@);
                Some(v)
            },
        }
    }
}

/// The sum of `v`, or `None` if it does not fit in `u64`.
fn sum_received(v: &Vec<u64>) -> (r: Option<u64>)
    ensures
        sum_u64(v@) <= u64::MAX ==> r == Some(sum_u64(v@) as u64),
        sum_u64(v@) > u64::MAX ==> r is None,
{
    let mut total: u64 = 0;
    let mut k: usize = 0;
    while k < v.len()
        invariant
            k <= v@.len(),
            total == sum_u64(v@.subrange(0, k as int)),
        decreases v@.len() - k,
    {
        assert(v@.subrange(0, k + 1).drop_last() =~= v@.subrange(0, k as int));
        if total > u64::MAX - v[k] {
            proof {
                lemma_sum_prefix_le(v@, k + 1);
            }
            return None;
        }
        total = total + v[k];
        k = k + 1;
    }
    assert(v@.subrange(0, v@.len() as int) =~= v@);
    Some(total)
}

/// A file being read to build its manifest entry: the bytes seen so far,
/// hashed as they come.
pub struct EntryBuilder {
    hasher: blake3::Hasher,
    total: u64,
}

impl EntryBuilder {
    /// The count of bytes read matches what was hashed.
    pub closed spec fn wf(&self) -> bool {
        self.total == hasher_absorbed(self.hasher).len()
    }

    /// The bytes read so far, in order.
    pub closed spec fn absorbed(&self) -> Seq<u8> {
        hasher_absorbed(self.hasher)
    }

    /// Nothing read yet.
    pub fn new() -> (b: Self)
        ensures
            b.wf(),
            b.absorbed() == Seq::<u8>::empty(),
    {
        EntryBuilder { hasher: hasher_new(), total: 0 }
    }

    /// Take in the next bytes read from the file.
    pub fn absorb(&mut self, chunk: &[u8])
        requires
            old(self).wf(),
            old(self).absorbed().len() + chunk@.len() <= u64::MAX,
        ensures
            final(self).wf(),
            final(self).absorbed() == old(self).absorbed() + chunk@,
    {
        hasher_update(&mut self.hasher, chunk);
        self.total = self.total + chunk.len() as u64;
    }

    /// The entry for the file at `relative_path`: its size and the BLAKE3
    /// digest of everything read.
    pub fn finish(&self, relative_path: String) -> (e: FileEntry)
        requires
            self.wf(),
        ensures
            e.relative_path == relative_path,
            e.size == self.absorbed().len(),
            e.blake3@ == blake3_digest(self.absorbed()),
    {
        FileEntry { relative_path, size: self.total, blake3: hasher_finalize(&self.hasher) }
    }
}

/// Where a sender reads a manifest entry from: the entry's path when it is
/// absolute, otherwise that path under `root`.
pub fn source_path(root: &str, relative: &str) -> (p: String)
    ensures
        p@ == joined_path(root@, relative@),
{
    path_join(root, relative)
}

/// The chunks of one file as a sender streams it: each read of up to a
/// buffer's length becomes a chunk at the running offset; a short read is
/// the last one.
#[derive(Debug, Clone, Copy, PartialEq, Eq, Structural)]
pub struct ChunkCursor {
    pub transfer_id: u64,
    pub file_index: u32,
    pub offset: u64,
    pub done: bool,
}

impl ChunkCursor {
    /// The cursor at the start of file `file_index` of transfer
    /// `transfer_id`.
    pub fn new(transfer_id: u64, file_index: u32) -> (c: Self)
        ensures
            c == (ChunkCursor { transfer_id, file_index, offset: 0, done: false }),
    {
        ChunkCursor { transfer_id, file_index, offset: 0, done: false }
    }

    /// A read into a buffer of `buf_len` bytes gave `data`. Returns the
    /// chunk to send, if the read gave any bytes; the file is done after a
    /// read shorter than the buffer.
    pub fn on_read(&mut self, data: Vec<u8>, buf_len: usize) -> (c: Option<FileChunk>)
        requires
            !old(self).done,
            data@.len() <= buf_len,
            old(self).offset + data@.len() <= u64::MAX,
        ensures
            final(self).transfer_id == old(self).transfer_id,
            final(self).file_index == old(self).file_index,
            final(self).offset == old(self).offset + data@.len(),
            final(self).done == (data@.len() < buf_len),
            data@.len() == 0 ==> c is None,
            data@.len() > 0 ==> c == Some(
                FileChunk {
                    transfer_id: old(self).transfer_id,
                    file_index: old(self).file_index,
                    offset: old(self).offset,
                    data,
                    is_last: data@.len() < buf_len,
                },
            ),
    {
        let n = data.len();
        let is_last = n < buf_len;
        if n == 0 {
            self.done = is_last;
            return None;
        }
        let chunk = FileChunk {
            transfer_id: self.transfer_id,
            file_index: self.file_index,
            offset: self.offset,
            data,
            is_last,
        };
        self.offset = self.offset + n as u64;
        self.done = is_last;
        Some(chunk)
    }
}

/// Transfer identifiers, handed out in increasing order from 1.
#[derive(Debug, Clone, Copy, PartialEq, Eq, Structural)]
pub struct TransferIds {
    pub next: u64,
}

impl TransferIds {
    /// The first identifier handed out is 1.
    pub fn new() -> (t: Self)
        ensures
            t.next == 1,
    {
        TransferIds { next: 1 }
    }

    /// The next identifier; the count wraps at the top of `u64`.
    pub fn take(&mut self) -> (id: u64)
        ensures
            id == old(self).next,
            final(self).next == (if old(self).next == u64::MAX { 0 } else { (old(self).next + 1) as u64 }),
    {
        let id = self.next;
        self.next = self.next.wrapping_add(1);
        id
    }
}

/// The daemon's file transfers: where received files go, and the receiver
/// tracking them.
pub struct FileTransferManager {
    pub drop_dir: String,
    pub receiver: Receiver,
}

impl FileTransferManager {
    /// A manager writing into `drop_dir`, with no transfer running.
    pub fn new(drop_dir: String) -> (m: Self)
        ensures
            m.drop_dir == drop_dir,
            m.receiver.view() == Map::<u64, RecvView>::empty(),
            m.receiver.spec_drop_dir() == drop_dir@,
    {
        let receiver = Receiver::new(drop_dir.clone());
        FileTransferManager { drop_dir, receiver }
    }

    /// Where the files of an offer are to be written, or the error for the
    /// first path that is refused. The caller creates the files, then calls
    /// [`FileTransferManager::accept_offer`].
    pub fn offer_targets(&self, offer: &FileOffer) -> (r: Result<Vec<String>, Error>)
        ensures
            r matches Ok(v) ==> v@.len() == offer.manifest.files@.len() && forall|i: int|
                0 <= i < v@.len() ==> #[trigger] targeted_as(
                    offer.manifest.files@,
                    self.receiver.spec_drop_dir(),
                    v@,
                    i,
                ),
            r is Err ==> exists|i: int|
                0 <= i < offer.manifest.files@.len() && !is_safe_relative(
                    slashed(#[trigger] offer.manifest.files@[i].relative_path@),
                ),
    {
        self.receiver.target_paths(&offer.manifest)
    }

    /// Start receiving an offer whose files were created at `paths`.
    pub fn accept_offer(&mut self, offer: FileOffer, paths: Vec<String>)
        requires
            paths@.len() == offer.manifest.files@.len(),
            forall|i: int|
                0 <= i < paths@.len() ==> #[trigger] targeted_as(
                    offer.manifest.files@,
                    old(self).receiver.spec_drop_dir(),
                    paths@,
                    i,
                ),
        ensures
            final(self).drop_dir == old(self).drop_dir,
            final(self).receiver.spec_drop_dir() == old(self).receiver.spec_drop_dir(),
            final(self).receiver.view() == old(self).receiver.view().insert(
                offer.transfer_id,
                RecvView {
                    files: offer.manifest.files@,
                    total_bytes: offer.manifest.total_bytes,
                    paths: paths@.map_values(|p: String| p@),
                    received: Seq::new(offer.manifest.files@.len(), |i: int| 0u64),
                    data: Seq::new(offer.manifest.files@.len(), |i: int| Seq::<u8>::empty()),
                },
            ),
    {
        self.receiver.begin(offer.transfer_id, offer.manifest, paths);
    }
}

impl Receiver {
    /// Where each file of `manifest` is written: its sanitized path under
    /// the drop directory, in order, or the error for the first path that
    /// is refused.
    pub fn target_paths(&self, manifest: &FileManifest) -> (r: Result<Vec<String>, Error>)
        ensures
            r matches Ok(v) ==> v@.len() == manifest.files@.len() && forall|i: int|
                0 <= i < v@.len() ==> #[trigger] targeted_as(manifest.files@, self.spec_drop_dir(), v@, i),
            r is Err ==> exists|i: int|
                0 <= i < manifest.files@.len() && !is_safe_relative(
                    slashed(#[trigger] manifest.files@[i].relative_path@),
                ),
    {
        let rels = Self::sanitized_paths(manifest)?;
        let mut out: Vec<String> = Vec::new();
        let mut i: usize = 0;
        while i < rels.len()
            invariant
                i <= rels@.len(),
                rels@.len() == manifest.files@.len(),
                forall|j: int| 0 <= j < rels@.len() ==> #[trigger] sanitized_as(manifest.files@, rels@, j),
                out@.len() == i,
                forall|j: int| 0 <= j < i ==> #[trigger] targeted_as(manifest.files@, self.spec_drop_dir(), out@, j),
            decreases rels@.len() - i,
        {
            let p = path_join(self.drop_dir.as_str(), rels[i].as_str());
            proof {
                assert(sanitized_as(manifest.files@, rels@, i as int));
            }
            let ghost before = out@;
            out.push(p);
            assert forall|j: int| 0 <= j < i + 1 implies #[trigger] targeted_as(
                manifest.files@,
                self.spec_drop_dir(),
                out@,
                j,
            ) by {
                if j < i {
                    assert(targeted_as(manifest.files@, self.spec_drop_dir(), before, j));
                }
            }
            i = i + 1;
        }
        Ok(out)
    }
}

/// Each element is at most the sum.
pub proof fn lemma_sum_element_le(s: Seq<u64>, i: int)
    requires
        0 <= i < s.len(),
    ensures
        s[i] <= sum_u64(s),
    decreases s.len(),
{
    lemma_sum_nonneg(s.drop_last());
    if i < s.len() - 1 {
        lemma_sum_element_le(s.drop_last(), i);
    }
}

/// Adding `n` to one element adds `n` to the sum.
pub proof fn lemma_sum_after_add(s: Seq<u64>, i: int, n: int)
    requires
        0 <= i < s.len(),
        0 <= s[i] + n <= u64::MAX,
    ensures
        sum_u64(s.update(i, (s[i] + n) as u64)) == sum_u64(s) + n,
    decreases s.len(),
{
    let t = s.update(i, (s[i] + n) as u64);
    if i == s.len() - 1 {
        assert(t.drop_last() =~= s.drop_last());
    } else {
        assert(t.drop_last() =~= s.drop_last().update(i, (s[i] + n) as u64));
        lemma_sum_after_add(s.drop_last(), i, n);
    }
}

/// Law: in a consistent receiver, each file's received count is the length of
/// the data received for it, so resume offsets name exactly where the data
/// ends.
pub proof fn lemma_received_is_data_length(r: Receiver, id: u64, i: int)
    requires
        r.wf(),
        r.view().contains_key(id),
        0 <= i < r.view()[id].received.len(),
    ensures
        r.view()[id].received[i] == r.view()[id].data[i].len(),
        r.view()[id].received.len() == r.view()[id].data.len(),
        r.view()[id].received.len() == r.view()[id].files.len(),
        r.view()[id].received.len() == r.view()[id].paths.len(),
{
    assert(r.transfers@[id].wf());
}

/// Law (no writes outside the drop directory): every file a receiver writes
/// to is its manifest entry's path, which `sanitize` accepted, joined to the
/// drop directory.
pub proof fn lemma_receiver_writes_under_drop_dir(r: Receiver, id: u64, i: int)
    requires
        r.wf(),
        r.view().contains_key(id),
        0 <= i < r.view()[id].paths.len(),
    ensures
        is_safe_relative(slashed(r.view()[id].files[i].relative_path@)),
        r.view()[id].paths[i] == joined_path(r.spec_drop_dir(), slashed(r.view()[id].files[i].relative_path@)),
{
    assert(r.transfers@[id].targets_under(r.drop_dir@));
    assert(targeted_as(r.transfers@[id].manifest.files@, r.drop_dir@, r.transfers@[id].paths@, i));
}

/// Law: a chunk for a file past the transfer's resume offsets (a file index
/// the manifest does not have) is refused as out of range.
pub proof fn lemma_chunk_past_offsets_refused(r: Receiver, chunk: FileChunk, res: Result<String, Error>)
    requires
        r.wf(),
        r.view().contains_key(chunk.transfer_id),
        chunk.file_index as int >= r.view()[chunk.transfer_id].received.len(),
        prepare_result(r.view(), chunk, res),
    ensures
        res matches Err(Error::Other(m)) && m@ == msg_index_out_of_range(),
{
    assert(r.transfers@[chunk.transfer_id].wf());
}

/// The progress of `v` after the chunks `ds` of file `i`, written in order.
pub open spec fn after_chunks(v: RecvView, i: int, ds: Seq<Seq<u8>>) -> RecvView
    decreases ds.len(),
{
    if ds.len() == 0 {
        v
    } else {
        after_chunk(after_chunks(v, i, ds.drop_last()), i, ds.last())
    }
}

/// Law: chunks written to one file in order leave that file's data as the
/// data before them followed by each chunk's data in turn; the other files'
/// data, the manifest and the paths stay as they were.
pub proof fn lemma_chunks_concatenate(v: RecvView, i: int, ds: Seq<Seq<u8>>)
    requires
        0 <= i < v.data.len(),
    ensures
        after_chunks(v, i, ds).data.len() == v.data.len(),
        after_chunks(v, i, ds).data[i] == v.data[i] + ds.flatten(),
        forall|j: int| 0 <= j < v.data.len() && j != i ==> #[trigger] after_chunks(v, i, ds).data[j] == v.data[j],
        after_chunks(v, i, ds).files == v.files,
        after_chunks(v, i, ds).paths == v.paths,
    decreases ds.len(),
{
    ds.lemma_flatten_and_flatten_alt_are_equivalent();
    if ds.len() > 0 {
        lemma_chunks_concatenate(v, i, ds.drop_last());
        ds.drop_last().lemma_flatten_and_flatten_alt_are_equivalent();
        assert(v.data[i] + ds.flatten_alt() =~= (v.data[i] + ds.drop_last().flatten_alt()) + ds.last());
    }
}

/// Law (file integrity): for a file whose data starts empty, as
/// [`Receiver::begin`] leaves every file, the data that the file's last chunk
/// is checked against ([`Receiver::commit_chunk`] compares its BLAKE3 digest
/// with the manifest's) is all the file's chunks, concatenated in order.
pub proof fn lemma_last_chunk_checks_whole_file(v: RecvView, i: int, ds: Seq<Seq<u8>>, last: Seq<u8>)
    requires
        0 <= i < v.data.len(),
        v.data[i] == Seq::<u8>::empty(),
    ensures
        after_chunks(v, i, ds.push(last)) == after_chunk(after_chunks(v, i, ds), i, last),
        after_chunk(after_chunks(v, i, ds), i, last).data[i] == ds.push(last).flatten(),
        after_chunk(after_chunks(v, i, ds), i, last).files[i] == v.files[i],
{
    assert(ds.push(last).drop_last() =~= ds);
    lemma_chunks_concatenate(v, i, ds.push(last));
    assert(Seq::<u8>::empty() + ds.push(last).flatten() =~= ds.push(last).flatten());
}

/// Law: a chunk that starts at its file's resume offset is accepted, and one
/// that starts anywhere else is refused.
pub proof fn lemma_chunk_accepted_at_resume_offset(
    transfers: Map<u64, RecvView>,
    chunk: FileChunk,
    r: Result<String, Error>,
)
    requires
        transfers.contains_key(chunk.transfer_id),
        (chunk.file_index as int) < transfers[chunk.transfer_id].paths.len(),
        prepare_result(transfers, chunk, r),
    ensures
        (r is Ok) == (chunk.offset == transfers[chunk.transfer_id].received[chunk.file_index as int]),
{
}

} // verus!
