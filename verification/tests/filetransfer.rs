use inputsync::error::Error;
use inputsync::filetransfer::{
    build_manifest, sanitize, source_path, ChunkCursor, EntryBuilder, FileTransferManager, Receiver, SenderState, TransferIds,
    DEFAULT_CHUNK_SIZE,
};
use inputsync::message::{FileChunk, FileEntry, FileManifest, FileOffer};

fn digest(data: &[u8]) -> [u8; 32] {
    *blake3::hash(data).as_bytes()
}

fn manifest_of(files: &[(&str, &[u8])]) -> FileManifest {
    let entries: Vec<FileEntry> = files
        .iter()
        .map(|(p, d)| FileEntry { relative_path: p.to_string(), size: d.len() as u64, blake3: digest(d) })
        .collect();
    build_manifest(entries)
}

fn chunk(id: u64, index: u32, offset: u64, data: &[u8], is_last: bool) -> FileChunk {
    FileChunk { transfer_id: id, file_index: index, offset, data: data.to_vec(), is_last }
}

#[test]
fn sanitize_rejects_traversal() {
    assert!(sanitize("../etc/passwd").is_err());
    assert!(sanitize("/etc/passwd").is_err());
    assert!(sanitize("ok/file.txt").is_ok());
}

#[test]
fn sanitize_messages_and_backslashes() {
    match sanitize("/etc/passwd") {
        Err(Error::Other(m)) => assert_eq!(m, "absolute path rejected: /etc/passwd"),
        other => panic!("unexpected {:?}", other),
    }
    match sanitize("a\\..\\b") {
        Err(Error::Other(m)) => assert_eq!(m, "suspicious path component in: a/../b"),
        other => panic!("unexpected {:?}", other),
    }
    assert_eq!(sanitize("dir\\file.txt").unwrap(), "dir/file.txt");
    assert!(sanitize("./file.txt").is_err());
}

#[test]
fn sanitize_rejects_drive_letters() {
    match sanitize("C:\\Windows\\evil.dll") {
        Err(Error::Other(m)) => assert_eq!(m, "absolute path rejected: C:/Windows/evil.dll"),
        other => panic!("unexpected {:?}", other),
    }
    match sanitize("d:evil.dll") {
        Err(Error::Other(m)) => assert_eq!(m, "suspicious path component in: d:evil.dll"),
        other => panic!("unexpected {:?}", other),
    }
    assert!(sanitize("notes:v2.txt").is_ok());
}

#[test]
fn manifest_totals_its_entries() {
    let m = manifest_of(&[("a", b"abc"), ("b", b"hello")]);
    assert_eq!(m.total_bytes, 8);
    assert_eq!(m.files.len(), 2);
}

#[test]
fn receiver_accepts_in_order_chunks_and_verifies_digest() {
    let mut r = Receiver::new("/drop".to_string());
    let m = manifest_of(&[("x/a.txt", b"hello world")]);
    let paths = r.target_paths(&m).unwrap();
    assert_eq!(paths, vec!["/drop/x/a.txt".to_string()]);
    r.begin(7, m, paths);
    assert_eq!(r.resume_offsets(7), Some(vec![0]));

    let c1 = chunk(7, 0, 0, b"hello ", false);
    assert_eq!(r.prepare_chunk(&c1).unwrap(), "/drop/x/a.txt");
    assert!(r.can_commit(&c1));
    assert_eq!(r.commit_chunk(&c1).unwrap(), 6);
    assert_eq!(r.resume_offsets(7), Some(vec![6]));

    let late = chunk(7, 0, 0, b"hello ", false);
    match r.prepare_chunk(&late) {
        Err(Error::Other(m)) => assert_eq!(m, "chunk out of order: expected offset 6, got 0"),
        other => panic!("unexpected {:?}", other),
    }

    let c2 = chunk(7, 0, 6, b"world", true);
    assert!(r.prepare_chunk(&c2).is_ok());
    assert_eq!(r.commit_chunk(&c2).unwrap(), 11);
    assert_eq!(r.resume_offsets(7), Some(vec![11]));
}

#[test]
fn receiver_reports_digest_mismatch_and_unknown_transfers() {
    let mut r = Receiver::new("/drop".to_string());
    let m = manifest_of(&[("a", b"abc")]);
    let paths = r.target_paths(&m).unwrap();
    r.begin(1, m, paths);
    let bad = chunk(1, 0, 0, b"abd", true);
    match r.commit_chunk(&bad) {
        Err(Error::Other(m)) => assert_eq!(m, "blake3 mismatch on 'a'"),
        other => panic!("unexpected {:?}", other),
    }
    match r.prepare_chunk(&chunk(2, 0, 0, b"x", true)) {
        Err(Error::Other(m)) => assert_eq!(m, "unknown transfer"),
        other => panic!("unexpected {:?}", other),
    }
    match r.prepare_chunk(&chunk(1, 5, 0, b"x", true)) {
        Err(Error::Other(m)) => assert_eq!(m, "file index out of range"),
        other => panic!("unexpected {:?}", other),
    }
    assert_eq!(r.resume_offsets(2), None);
}

#[test]
fn target_paths_refuse_unsafe_entries() {
    let r = Receiver::new("/drop".to_string());
    let m = manifest_of(&[("ok.txt", b"1"), ("../evil", b"2")]);
    assert!(r.target_paths(&m).is_err());
}

#[test]
fn entry_builder_hashes_all_bytes() {
    let mut b = EntryBuilder::new();
    b.absorb(b"hello ");
    b.absorb(b"world");
    let e = b.finish("greeting.txt".to_string());
    assert_eq!(e.relative_path, "greeting.txt");
    assert_eq!(e.size, 11);
    assert_eq!(e.blake3, digest(b"hello world"));
}

#[test]
fn chunk_cursor_ends_on_short_read() {
    let mut c = ChunkCursor::new(3, 1);
    let first = c.on_read(vec![1u8; 4], 4).unwrap();
    assert_eq!((first.offset, first.data.len(), first.is_last), (0, 4, false));
    assert!(!c.done);
    let second = c.on_read(vec![2u8; 2], 4).unwrap();
    assert_eq!((second.offset, second.is_last, second.transfer_id, second.file_index), (4, true, 3, 1));
    assert!(c.done);
    assert_eq!(c.offset, 6);

    let mut empty = ChunkCursor::new(3, 0);
    assert!(empty.on_read(Vec::new(), DEFAULT_CHUNK_SIZE).is_none());
    assert!(empty.done);
}

#[test]
fn transfer_ids_count_from_one() {
    let mut ids = TransferIds::new();
    assert_eq!(ids.take(), 1);
    assert_eq!(ids.take(), 2);
    let mut top = TransferIds { next: u64::MAX };
    assert_eq!(top.take(), u64::MAX);
    assert_eq!(top.next, 0);
}

#[test]
fn source_paths_join_under_root() {
    assert_eq!(source_path("/home/u", "docs/a.txt"), "/home/u/docs/a.txt");
    assert_eq!(source_path("/home/u/", "a.txt"), "/home/u/a.txt");
    assert_eq!(source_path("/home/u", "/abs/a.txt"), "/abs/a.txt");
}

#[test]
fn manager_prepares_and_accepts_offers() {
    let mut mgr = FileTransferManager::new("/downloads/InputSync".to_string());
    let offer = FileOffer { transfer_id: 9, manifest: manifest_of(&[("a.bin", b"xyz")]), compressed: true };
    let paths = mgr.offer_targets(&offer).unwrap();
    assert_eq!(paths, vec!["/downloads/InputSync/a.bin".to_string()]);
    mgr.accept_offer(offer, paths);
    assert_eq!(mgr.receiver.resume_offsets(9), Some(vec![0]));
    assert_eq!(mgr.drop_dir, "/downloads/InputSync");
}

#[test]
fn sender_state_tracks_progress() {
    let mut s = SenderState::new();
    s.start(1, manifest_of(&[("a", b"abc")]));
    s.record_sent(1, 3);
    s.record_ack(1, 3);
    s.record_sent(2, 5);
}
