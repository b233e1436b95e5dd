use phi_media::id::Id;
use phi_media::material::MaterialsService;
use phi_media::pipeline::{Ingest, UploadAction, UploadSignal};
use phi_media::storage::{LocalStorage, SavedId};

fn assert_monotone(events: &[phi_media::event::FormatedEvent]) {
    for pair in events.windows(2) {
        assert!(pair[0].progress <= pair[1].progress, "progress regressed");
    }
}

#[test]
fn fresh_upload_emits_the_full_progress_ladder() {
    // A new upload: store, thumbnail, three transcoder progress lines,
    // transcode completion, metadata commit.
    let script = vec![
        UploadSignal::Stored(SavedId::New),
        UploadSignal::ThumbnailDone,
        UploadSignal::SliceWip,
        UploadSignal::SliceWip,
        UploadSignal::SliceWip,
        UploadSignal::SliceDone,
        UploadSignal::CommitDone,
    ];
    let events = Ingest::run(Id("vid".to_string()), &script);

    let expected: Vec<(i16, &str)> = vec![
        (15, "wip"),
        (25, "wip"),
        (26, "wip"),
        (27, "wip"),
        (28, "wip"),
        (75, "wip"),
        (100, "ok"),
    ];
    assert_eq!(events.len(), expected.len());
    for (event, (progress, state)) in events.iter().zip(expected.iter()) {
        assert_eq!(event.id, "vid");
        assert_eq!(event.progress, *progress);
        assert_eq!(event.state, *state);
    }
    assert_monotone(&events);
}

#[test]
fn duplicate_upload_emits_one_already_existed_event() {
    // Re-uploading already stored bytes short-circuits: a single terminal
    // event with the sentinel progress, and no further stage runs.
    let script = vec![UploadSignal::Stored(SavedId::Existed)];
    let events = Ingest::run(Id("vid".to_string()), &script);

    assert_eq!(events.len(), 1);
    assert_eq!(events[0].id, "vid");
    assert_eq!(events[0].progress, -1);
    assert_eq!(events[0].state, "already_existed");
}

#[test]
fn thumbnail_failure_after_store_keeps_the_raw_bytes() {
    // The store succeeded, then the thumbnail stage fails: the terminal
    // event is an error, no commit was requested, and the raw payload is
    // still committed for a later retry.
    let storage = LocalStorage::new("store".to_string(), "static".to_string());
    let mut service = MaterialsService::new(storage);
    let bytes = vec![7u8; 100];

    let (mut ingest, outcome) = service.upload(&bytes);
    assert_eq!(outcome, SavedId::New);

    let (event, action) = ingest.handle(UploadSignal::Stored(outcome));
    let event = event.unwrap().formated();
    assert_eq!(event.progress, 15);
    assert_eq!(event.state, "wip");
    assert_eq!(action, UploadAction::ExtractThumbnail);

    let (event, action) = ingest.handle(UploadSignal::ThumbnailFailed);
    let event = event.unwrap().formated();
    assert_eq!(event.progress, 15);
    assert_eq!(event.state, "error");
    assert_eq!(action, UploadAction::Finish);

    let id = Id(ingest.id.as_str().to_string());
    assert!(service.storage.is_committed(&id));
}

#[test]
fn transcoder_progress_is_capped_below_the_final_threshold() {
    // However many progress lines arrive, the forwarded percentage never
    // climbs past 75 and never regresses.
    let mut script = vec![UploadSignal::Stored(SavedId::New), UploadSignal::ThumbnailDone];
    for _ in 0..60 {
        script.push(UploadSignal::SliceWip);
    }
    script.push(UploadSignal::SliceDone);
    script.push(UploadSignal::CommitDone);

    let events = Ingest::run(Id("vid".to_string()), &script);
    assert_monotone(&events);
    let wip_max = events
        .iter()
        .filter(|e| e.state == "wip")
        .map(|e| e.progress)
        .max()
        .unwrap();
    assert_eq!(wip_max, 75);
    assert_eq!(events.last().unwrap().progress, 100);
    assert_eq!(events.last().unwrap().state, "ok");
}

#[test]
fn slice_failure_ends_with_an_error_event() {
    let script = vec![
        UploadSignal::Stored(SavedId::New),
        UploadSignal::ThumbnailDone,
        UploadSignal::SliceWip,
        UploadSignal::SliceFailed,
    ];
    let events = Ingest::run(Id("vid".to_string()), &script);
    assert_monotone(&events);
    let last = events.last().unwrap();
    assert_eq!(last.state, "error");
    assert_eq!(last.progress, 27);
}

#[test]
fn commit_failure_ends_with_an_error_event() {
    let script = vec![
        UploadSignal::Stored(SavedId::New),
        UploadSignal::ThumbnailDone,
        UploadSignal::SliceDone,
        UploadSignal::CommitFailed,
    ];
    let events = Ingest::run(Id("vid".to_string()), &script);
    assert_monotone(&events);
    let last = events.last().unwrap();
    assert_eq!(last.state, "error");
    assert_eq!(last.progress, 75);
}

#[test]
fn duplicate_upload_through_the_service() {
    // Upload the same bytes twice through the service: the store keys by
    // a fresh identifier, so the duplicate is detected per identifier by
    // the save protocol; replaying a save for the first identifier
    // reports Existed.
    let storage = LocalStorage::new("store".to_string(), "static".to_string());
    let mut service = MaterialsService::new(storage);
    let bytes = vec![5u8; 10];

    let (ingest, outcome) = service.upload(&bytes);
    assert_eq!(outcome, SavedId::New);
    let id = Id(ingest.id.as_str().to_string());
    assert_eq!(service.storage.save(&id, &bytes), SavedId::Existed);
}
