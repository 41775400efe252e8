use rlens::cache::{
    cache_key, check_stale_thumbnail, hash_filepath, path_to_bytes, reuse_existing,
    thumbnail_file, thumbnail_path, Timestamp,
};
use rlens::image::Metadata;
use rlens::image_loader::{handle_full_request, report_outcome, LoadAction, LoadEvent, LoaderMessage, LoadStage};
use rlens::load_request::{FullRequest, ImageType, LoadRequest, LoadRequestCommon, ThumbnailRequest};

fn meta() -> Metadata {
    Metadata { dimensions: (8, 6), format: Some("jpg") }
}

fn ts(nanos: i128) -> Option<Timestamp> {
    Some(Timestamp { nanos })
}

fn thumbnail_request(save: bool) -> LoadRequest {
    LoadRequest::Thumbnail(ThumbnailRequest {
        details: LoadRequestCommon { index: 4, path: "pics/a.png".to_string() },
        save,
    })
}

#[test]
fn cache_key_is_md5_hex() {
    assert_eq!(cache_key(b"abc"), "900150983cd24fb0d6963f7d28e17f72");
    assert_eq!(cache_key(b""), "d41d8cd98f00b204e9800998ecf8427e");
}

#[test]
fn hash_filepath_is_key_of_path_bytes() {
    let key = hash_filepath("/home/user/a.png");
    assert_eq!(key.len(), 32);
    assert!(key.chars().all(|c| c.is_ascii_hexdigit() && !c.is_ascii_uppercase()));
    assert_eq!(key, cache_key(&path_to_bytes("/home/user/a.png")));
    assert_ne!(key, hash_filepath("/home/user/b.png"));
    assert!(!path_to_bytes("/a").is_empty());
}

#[test]
fn thumbnail_file_joins_with_one_separator() {
    assert_eq!(thumbnail_file("/cache/thumbs", "abc"), "/cache/thumbs/abc.png");
    assert_eq!(thumbnail_file("/cache/thumbs/", "abc"), "/cache/thumbs/abc.png");
    assert_eq!(thumbnail_file("", "abc"), "abc.png");
}

#[test]
fn thumbnail_path_uses_hash() {
    let p = thumbnail_path("/x/y.jpg", "/t");
    assert_eq!(p, format!("/t/{}.png", hash_filepath("/x/y.jpg")));
}

#[test]
fn stale_when_source_modified_after_creation() {
    assert_eq!(check_stale_thumbnail(ts(100), ts(200)), Some(true));
    assert_eq!(check_stale_thumbnail(ts(200), ts(100)), Some(false));
    assert_eq!(check_stale_thumbnail(ts(100), ts(100)), Some(true));
    assert_eq!(check_stale_thumbnail(None, ts(100)), None);
    assert_eq!(check_stale_thumbnail(ts(100), None), None);
}

#[test]
fn unknown_staleness_is_fresh() {
    assert!(reuse_existing(true, None));
    assert!(reuse_existing(true, Some(false)));
    assert!(!reuse_existing(true, Some(true)));
    assert!(!reuse_existing(false, None));
}

#[test]
fn full_job() {
    let req = LoadRequest::Full(FullRequest {
        details: LoadRequestCommon { index: 2, path: "/p/f.png".to_string() },
    });
    assert_eq!(req.index(), 2);
    let (mut job, action) = req.handle::<u8>("/t", 64);
    assert_eq!(job.stage(), LoadStage::LoadingFull);
    match action {
        LoadAction::LoadFull { path } => assert_eq!(path, "/p/f.png"),
        _ => panic!("expected LoadFull"),
    }
    match job.step(LoadEvent::Loaded(Some((9u8, meta())))) {
        LoadAction::Finish { response: Some(resp), save_to: None } => {
            assert_eq!(resp.type_, ImageType::Full);
            assert_eq!(resp.index, 2);
            assert_eq!(resp.image, 9);
            assert_eq!(resp.metadata.dimensions, (8, 6));
        }
        _ => panic!("expected a response"),
    }
    assert_eq!(job.stage(), LoadStage::Done);
}

#[test]
fn thumbnail_job_reuses_fresh_thumbnail() {
    let (mut job, action) = thumbnail_request(true).handle::<u8>("/t", 64);
    match action {
        LoadAction::Canonicalize { path } => assert_eq!(path, "pics/a.png"),
        _ => panic!("expected Canonicalize"),
    }
    let thumb = match job.step(LoadEvent::<u8>::Canonical(Some("/abs/pics/a.png".to_string()))) {
        LoadAction::Probe { thumbnail, source } => {
            assert_eq!(source, "/abs/pics/a.png");
            assert_eq!(thumbnail, thumbnail_path("/abs/pics/a.png", "/t"));
            thumbnail
        }
        _ => panic!("expected Probe"),
    };
    match job.step(LoadEvent::<u8>::Probed { exists: true, created: ts(200), modified: ts(100) }) {
        LoadAction::LoadExisting { thumbnail, source } => {
            assert_eq!(thumbnail, thumb);
            assert_eq!(source, "/abs/pics/a.png");
        }
        _ => panic!("expected LoadExisting"),
    }
    match job.step(LoadEvent::Loaded(Some((1u8, meta())))) {
        LoadAction::Finish { response: Some(resp), save_to: None } => {
            assert_eq!(resp.type_, ImageType::Thumbnail);
            assert_eq!(resp.index, 4);
        }
        _ => panic!("expected a response without saving"),
    }
}

#[test]
fn thumbnail_job_regenerates_stale_and_saves() {
    let (mut job, _) = thumbnail_request(true).handle::<u8>("/t", 64);
    job.step(LoadEvent::<u8>::Canonical(Some("/abs/a.png".to_string())));
    match job.step(LoadEvent::<u8>::Probed { exists: true, created: ts(100), modified: ts(200) }) {
        LoadAction::Generate { source, size } => {
            assert_eq!(source, "/abs/a.png");
            assert_eq!(size, 64);
        }
        _ => panic!("expected Generate"),
    }
    match job.step(LoadEvent::Loaded(Some((2u8, meta())))) {
        LoadAction::Finish { response: Some(resp), save_to: Some(p) } => {
            assert_eq!(resp.image, 2);
            assert_eq!(p, thumbnail_path("/abs/a.png", "/t"));
        }
        _ => panic!("expected a response to save"),
    }
}

#[test]
fn thumbnail_job_without_save_and_failed_existing() {
    let (mut job, _) = thumbnail_request(false).handle::<u8>("/t", 32);
    job.step(LoadEvent::<u8>::Canonical(Some("/abs/a.png".to_string())));
    job.step(LoadEvent::<u8>::Probed { exists: true, created: None, modified: None });
    assert_eq!(job.stage(), LoadStage::LoadingExisting);
    match job.step(LoadEvent::<u8>::Loaded(None)) {
        LoadAction::Generate { size, .. } => assert_eq!(size, 32),
        _ => panic!("expected Generate"),
    }
    match job.step(LoadEvent::Loaded(Some((3u8, meta())))) {
        LoadAction::Finish { response: Some(_), save_to: None } => {}
        _ => panic!("expected a response without saving"),
    }
}

#[test]
fn thumbnail_job_failures() {
    let (mut job, _) = thumbnail_request(true).handle::<u8>("/t", 32);
    assert!(matches!(
        job.step(LoadEvent::<u8>::Canonical(None)),
        LoadAction::Finish { response: None, save_to: None }
    ));
    let (mut job, _) = thumbnail_request(true).handle::<u8>("/t", 32);
    job.step(LoadEvent::<u8>::Canonical(Some("/abs/a.png".to_string())));
    job.step(LoadEvent::<u8>::Probed { exists: false, created: None, modified: None });
    assert_eq!(job.stage(), LoadStage::Generating);
    assert!(matches!(
        job.step(LoadEvent::<u8>::Loaded(None)),
        LoadAction::Finish { response: None, save_to: None }
    ));
    // an answer of the wrong kind ends the job
    let (mut job, _) = thumbnail_request(true).handle::<u8>("/t", 32);
    assert!(matches!(
        job.step(LoadEvent::Loaded(Some((1u8, meta())))),
        LoadAction::Finish { response: None, .. }
    ));
}

#[test]
fn full_request_response() {
    let req = FullRequest { details: LoadRequestCommon { index: 7, path: "/a".to_string() } };
    let resp = handle_full_request(&req, Some((5u8, meta()))).unwrap();
    assert_eq!((resp.index, resp.image, resp.type_), (7, 5, ImageType::Full));
    assert!(handle_full_request::<u8>(&req, None).is_none());
}

#[test]
fn worker_reports() {
    let msgs = report_outcome::<u8>(3, None);
    assert!(matches!(msgs[0], LoaderMessage::MarkUnloadable(3)));
    assert!(matches!(msgs[1], LoaderMessage::UnloadImages));
    let req = FullRequest { details: LoadRequestCommon { index: 1, path: "/a".to_string() } };
    let msgs = report_outcome(1, handle_full_request(&req, Some((5u8, meta()))));
    assert_eq!(msgs.len(), 2);
    assert!(matches!(&msgs[0], LoaderMessage::LoadImage(r) if r.index == 1));
}
