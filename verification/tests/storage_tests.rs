use phi_media::error::AppError;
use phi_media::id::Id;
use phi_media::storage::{LocalStorage, SavedId, CHUNK};

fn store() -> LocalStorage {
    LocalStorage::new("store".to_string(), "static".to_string())
}

#[test]
fn save_twice_is_idempotent() {
    // Idempotence: identical content saved twice yields New then Existed,
    // and the committed bytes are unchanged by the second attempt.
    let mut s = store();
    let id = Id("abc".to_string());
    let bytes = vec![1u8, 2, 3, 4, 5];

    assert_eq!(s.save(&id, &bytes), SavedId::New);
    assert!(s.is_committed(&id));
    assert_eq!(s.raw_bytes(&id).unwrap(), &bytes);

    assert_eq!(s.save(&id, &bytes), SavedId::Existed);
    assert_eq!(s.raw_bytes(&id).unwrap(), &bytes);
}

#[test]
fn existing_bytes_are_never_overwritten() {
    let mut s = store();
    let id = Id("abc".to_string());
    let first = vec![1u8, 2, 3];
    let second = vec![9u8, 9, 9];

    assert_eq!(s.save(&id, &first), SavedId::New);
    assert_eq!(s.save(&id, &second), SavedId::Existed);
    assert_eq!(s.raw_bytes(&id).unwrap(), &first);
}

#[test]
fn chunked_copy_commits_all_bytes() {
    // More than two chunks' worth of bytes survive the chunked copy.
    let mut s = store();
    let id = Id("big".to_string());
    let bytes: Vec<u8> = (0..(CHUNK * 2 + 137)).map(|i| (i % 251) as u8).collect();

    assert_eq!(s.save(&id, &bytes), SavedId::New);
    assert_eq!(s.raw_bytes(&id).unwrap(), &bytes);
}

#[test]
fn abort_mid_copy_leaves_no_record() {
    // Atomicity: a copy abandoned mid-way leaves nothing at the record's
    // location — it is either absent or complete, never partial.
    let mut s = store();
    let id = Id("abc".to_string());
    let bytes: Vec<u8> = (0..(CHUNK * 3)).map(|i| (i % 7) as u8).collect();

    let mut job = s.begin_save("token1".to_string());
    s.copy_chunk(&mut job, &bytes);
    assert!(!s.is_committed(&id));
    s.abort_save(job);
    assert!(!s.is_committed(&id));
    assert!(s.raw_bytes(&id).is_none());

    // A later save of the same content still commits in full.
    assert_eq!(s.save(&id, &bytes), SavedId::New);
    assert_eq!(s.raw_bytes(&id).unwrap(), &bytes);
}

#[test]
fn dedup_race_commits_exactly_once() {
    // Two interleaved saves of identical content: the first commit wins,
    // the second observes the record, and the record ends up consistent.
    let mut s = store();
    let id = Id("same".to_string());
    let bytes = vec![42u8; 700];

    let mut j1 = s.begin_save("t1".to_string());
    let mut j2 = s.begin_save("t2".to_string());
    while j1.copied < bytes.len() {
        s.copy_chunk(&mut j1, &bytes);
    }
    while j2.copied < bytes.len() {
        s.copy_chunk(&mut j2, &bytes);
    }
    assert_eq!(s.commit_save(j1, &id, &bytes), SavedId::New);
    assert_eq!(s.commit_save(j2, &id, &bytes), SavedId::Existed);
    assert!(s.is_committed(&id));
    assert_eq!(s.raw_bytes(&id).unwrap(), &bytes);
}

#[test]
fn delete_then_repeat_delete_is_a_noop() {
    // After a delete the record no longer exists, and a repeat delete is
    // not an error.
    let mut s = store();
    let id = Id("abc".to_string());
    s.save(&id, &vec![1u8]);
    assert!(s.is_committed(&id));

    s.delete(&id);
    assert!(!s.is_committed(&id));

    s.delete(&id);
    assert!(!s.is_committed(&id));
}

#[test]
fn paths_follow_the_layout() {
    let mut s = store();
    let id = Id("abc".to_string());
    assert_eq!(s.path(&id), "store/abc");

    match s.raw_file(&id) {
        Err(AppError::MaterialNotFound(m)) => assert_eq!(m, "abc"),
        other => panic!("expected MaterialNotFound, got {:?}", other),
    }

    s.save(&id, &vec![0u8]);
    assert_eq!(s.raw_file(&id).unwrap(), "store/abc/raw");
    assert_eq!(s.assert_file(&id, "thumbnail.jpeg").unwrap(), "store/abc/thumbnail.jpeg");
    assert_eq!(s.assert_file(&id, "720p/slice.m3u8").unwrap(), "store/abc/720p/slice.m3u8");
}

#[test]
fn url_joins_base_mount_id_and_artifact() {
    let s = store();
    let id = Id("abc".to_string());
    assert_eq!(
        s.url("http://host", &id, "slice.m3u8").unwrap(),
        "http://host/static/abc/slice.m3u8"
    );
}

#[test]
fn url_rejects_a_mount_path_that_needs_encoding() {
    let s = LocalStorage::new("store".to_string(), "sta tic".to_string());
    let id = Id("abc".to_string());
    match s.url("http://host", &id, "raw") {
        Err(AppError::InvalidUriPath(p)) => assert_eq!(p, "sta tic"),
        other => panic!("expected InvalidUriPath, got {:?}", other),
    }
}

#[test]
fn generated_identifiers_are_simple_uuids() {
    let a = Id::new_uuid();
    let b = Id::new_uuid();
    assert_eq!(a.as_str().len(), 32);
    assert!(a
        .as_str()
        .chars()
        .all(|c| c.is_ascii_digit() || ('a'..='f').contains(&c)));
    // Two fresh identifiers must differ; the save protocol's temporary
    // files rely on their uniqueness.
    assert_ne!(a.as_str(), b.as_str());
}

#[test]
fn content_identifiers_are_the_payload_digest() {
    // The content identifier of `abc` is its SHA-256 digest in lowercase
    // hex; a wrapper that handed its input back could not produce it.
    let id = Id::from_content(&b"abc".to_vec());
    assert_eq!(
        id.as_str(),
        "ba7816bf8f01cfea414140de5dae2223b00361a396177a9cb410ff61f20015ad"
    );
}

#[test]
fn content_mode_dedups_identical_payloads() {
    // Idempotence in content-derived mode: the identifier is computed
    // from the bytes, so the same bytes saved twice yield New then
    // Existed under one identifier, with the stored bytes unchanged.
    let mut s = store();
    let bytes = vec![1u8, 2, 3, 4];

    let (id1, outcome1) = s.save_content(&bytes);
    assert_eq!(outcome1, SavedId::New);

    let (id2, outcome2) = s.save_content(&bytes);
    assert_eq!(outcome2, SavedId::Existed);
    assert_eq!(id1.as_str(), id2.as_str());
    assert_eq!(s.raw_bytes(&id1).unwrap(), &bytes);

    let (id3, outcome3) = s.save_content(&vec![9u8]);
    assert_eq!(outcome3, SavedId::New);
    assert_ne!(id1.as_str(), id3.as_str());
}
