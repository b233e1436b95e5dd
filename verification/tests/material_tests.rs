use phi_media::auth::{AuthedGithubUser, AuthedUser, Claims, NewUser};
use phi_media::decimal::{i64_to_string, u64_to_string};
use phi_media::error::AppError;
use phi_media::id::Id;
use phi_media::material::{
    Material, MaterialDetail, MaterialType, MaterialsService, STATE_OK, TYPE_IMAGE, TYPE_VIDEO,
};
use phi_media::page::{Page, PageResult};
use phi_media::storage::{LocalStorage, SavedId};

fn service() -> MaterialsService {
    MaterialsService::new(LocalStorage::new("store".to_string(), "static".to_string()))
}

#[test]
fn material_type_values() {
    assert_eq!(MaterialType::Video.value(), TYPE_VIDEO);
    assert_eq!(MaterialType::Image.value(), TYPE_IMAGE);
    assert_eq!(TYPE_VIDEO, 1);
    assert_eq!(TYPE_IMAGE, 2);
    assert_eq!(STATE_OK, 0);
}

#[test]
fn new_video_builds_a_live_video_row() {
    let m = Material::new_video(
        "abc".to_string(),
        "clip.mp4".to_string(),
        Some("desc".to_string()),
        "user1".to_string(),
    );
    assert_eq!(m.id, "abc");
    assert_eq!(m.name.as_deref(), Some("clip.mp4"));
    assert_eq!(m.raw_name.as_deref(), Some("clip.mp4"));
    assert_eq!(m.description.as_deref(), Some("desc"));
    assert_eq!(m.creator, "user1");
    assert_eq!(m.state, STATE_OK as i64);
    assert_eq!(m.media_type, TYPE_VIDEO as i64);
}

#[test]
fn new_image_builds_a_live_image_row() {
    let m = Material::new_image("abc".to_string(), "pic.png".to_string(), None, "u".to_string());
    assert_eq!(m.media_type, TYPE_IMAGE as i64);
    assert!(m.description.is_none());
}

#[test]
fn transfer_video_builds_every_url() {
    let s = service();
    let m = Material::new_video(
        "abc".to_string(),
        "clip.mp4".to_string(),
        None,
        "u".to_string(),
    );
    let d = s.transfer_video("http://host", m).unwrap();
    assert_eq!(d.video.id.as_str(), "abc");
    assert_eq!(d.video.name, "clip.mp4");
    assert_eq!(d.video.description, "");
    assert_eq!(d.video.raw, "http://host/static/abc/raw");
    assert_eq!(d.video.thumbnail, "http://host/static/abc/thumbnail.jpeg");
    assert_eq!(d.slices.slice, "http://host/static/abc/slice.m3u8");
    assert_eq!(d.slices.slice720p, "http://host/static/abc/720p/slice.m3u8");
    assert_eq!(d.slices.slice1080p, "http://host/static/abc/1080p/slice.m3u8");
}

#[test]
fn transfer_discriminates_by_media_type() {
    let s = service();
    let video = Material::new_video("v".to_string(), "v.mp4".to_string(), None, "u".to_string());
    match s.transfer("http://host", video).unwrap() {
        MaterialDetail::Video(_) => {}
        other => panic!("expected a video detail, got {:?}", other),
    }
    let image = Material::new_image("i".to_string(), "i.png".to_string(), None, "u".to_string());
    match s.transfer("http://host", image).unwrap() {
        MaterialDetail::Image(d) => assert_eq!(d.raw, "http://host/static/i/raw"),
        other => panic!("expected an image detail, got {:?}", other),
    }
}

#[test]
fn transfer_rejects_an_unknown_media_type() {
    let s = service();
    let mut m = Material::new_video("v".to_string(), "v.mp4".to_string(), None, "u".to_string());
    m.media_type = 7;
    match s.transfer("http://host", m) {
        Err(AppError::WrongMaterialType(t)) => assert_eq!(t, 7),
        other => panic!("expected WrongMaterialType, got {:?}", other),
    }
}

#[test]
fn detail_of_an_absent_record_is_not_found() {
    let s = service();
    let m = Material::new_video("v".to_string(), "v.mp4".to_string(), None, "u".to_string());
    match s.detail(&Id("v".to_string()), "http://host", m) {
        Err(AppError::MaterialNotFound(id)) => assert_eq!(id, "v"),
        other => panic!("expected MaterialNotFound, got {:?}", other),
    }
}

#[test]
fn store_image_commits_under_a_fresh_identifier() {
    let mut s = service();
    let bytes = vec![3u8; 42];
    let (id, outcome) = s.store_image(&bytes);
    assert_eq!(outcome, SavedId::New);
    assert_eq!(id.as_str().len(), 32);
    assert!(s.storage.is_committed(&id));
    assert_eq!(s.storage.raw_bytes(&id).unwrap(), &bytes);
}

#[test]
fn delete_requires_a_committed_record() {
    let mut s = service();
    let id = Id("gone".to_string());
    match s.delete(&id) {
        Err(e @ AppError::MaterialNotFound(_)) => assert_eq!(e.detail(), "gone"),
        other => panic!("expected MaterialNotFound, got {:?}", other),
    }

    s.storage.save(&id, &vec![1u8]);
    assert!(s.delete(&id).is_ok());
    assert!(!s.storage.is_committed(&id));
}

#[test]
fn page_offset_and_limit() {
    let page = Page { page: 3, size: 20 };
    assert_eq!(page.offset(), 40);
    assert_eq!(page.limit(), 20);
    let first = Page { page: 1, size: 50 };
    assert_eq!(first.offset(), 0);

    let result: PageResult<u32> = PageResult::new(&page, 55, vec![1, 2, 3]);
    assert_eq!(result.page, 3);
    assert_eq!(result.size, 20);
    assert_eq!(result.total, 55);
    assert_eq!(result.records, vec![1, 2, 3]);
}

#[test]
fn claims_expire_after_the_configured_interval() {
    let claims = Claims::new("alice".to_string(), "gh_1".to_string(), 1_000, 60);
    assert_eq!(claims.name, "alice");
    assert_eq!(claims.id, "gh_1");
    assert_eq!(claims.exp, 1_060);
}

#[test]
fn github_users_get_a_prefixed_identifier() {
    let user = AuthedGithubUser {
        id: 12345,
        login: "alice".to_string(),
        name: "Alice".to_string(),
        email: "alice@example.com".to_string(),
        avatar_url: "http://example.com/a.png".to_string(),
    };
    assert_eq!(user.user_id(), "gh_12345");
    assert_eq!(AuthedUser::name(&user), "Alice");

    let new_user = NewUser::new(user.user_id(), AuthedUser::name(&user), user.email.clone());
    assert_eq!(new_user.id, "gh_12345");
    assert_eq!(new_user.source, "alice@example.com");
}

#[test]
fn decimal_rendering_is_exact() {
    assert_eq!(u64_to_string(0), "0");
    assert_eq!(u64_to_string(9), "9");
    assert_eq!(u64_to_string(1234567890), "1234567890");
    assert_eq!(u64_to_string(u64::MAX), "18446744073709551615");
    assert_eq!(i64_to_string(-1), "-1");
    assert_eq!(i64_to_string(-42), "-42");
    assert_eq!(i64_to_string(100), "100");
    assert_eq!(i64_to_string(i64::MIN), "-9223372036854775808");
}

#[test]
fn tags_split_on_commas_and_trim() {
    let tags = phi_media::tags::Tags::parse("a, b\t,  c d ");
    assert_eq!(tags.0, vec!["a".to_string(), "b".to_string(), "c d".to_string()]);

    let single = phi_media::tags::Tags::parse("one");
    assert_eq!(single.0, vec!["one".to_string()]);

    // Splitting an empty text yields one empty segment, the way string
    // splitting on a separator behaves.
    let empty = phi_media::tags::Tags::parse("");
    assert_eq!(empty.0, vec!["".to_string()]);

    let gaps = phi_media::tags::Tags::parse("a,,b,");
    assert_eq!(
        gaps.0,
        vec!["a".to_string(), "".to_string(), "b".to_string(), "".to_string()]
    );
}

#[test]
fn batch_delete_removes_every_committed_record() {
    let mut s = service();
    let a = Id("a".to_string());
    let b = Id("b".to_string());
    let keep = Id("keep".to_string());
    s.storage.save(&a, &vec![1u8]);
    s.storage.save(&keep, &vec![2u8]);

    // One committed, one absent: the committed one goes, the absent one
    // is skipped without an error, unrelated records stay.
    s.batch_delete(&vec![Id("a".to_string()), Id("b".to_string())]);
    assert!(!s.storage.is_committed(&a));
    assert!(!s.storage.is_committed(&b));
    assert!(s.storage.is_committed(&keep));
}
