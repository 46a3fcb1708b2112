use rustyfiles::env::app::{ImageLimits, OriginMode};
use rustyfiles::env::state::AppState;
use rustyfiles::services::file::{
    file_request, route_file_request, FileAction, FileEvent, FileRequest, FileState,
};
use rustyfiles::services::image::{
    image_request, route_image_request, ImageAction, ImageEvent, ImageRequest,
    ImageState,
};
use rustyfiles::storage::StorageError;
use rustyfiles::utils::img::ImageKind;

/// A store that holds nothing, so every lookup is a miss. A write panics:
/// in bucket-origin mode a miss must short-circuit to 404 before any
/// fetch-and-cache.
struct EmptyStorage;

impl EmptyStorage {
    fn has_key(&self, _key: &str) -> Result<bool, StorageError> {
        Ok(false)
    }
    fn get_bytes(&self, _key: &str) -> Result<Vec<u8>, StorageError> {
        Err(StorageError::NotFound)
    }
    fn put_bytes(&self, _key: &str, _bytes: Vec<u8>) -> Result<(), StorageError> {
        panic!("put_bytes must not be called on a bucket-origin miss");
    }
}

fn bucket_origin_state() -> AppState<EmptyStorage> {
    AppState {
        host: "https://example.com/".to_string(),
        port: 0,
        address: "127.0.0.1".to_string(),
        allowed_hosts: Vec::new(),
        origin_mode: OriginMode::Bucket,
        image_limits: ImageLimits::default(),
        storage: EmptyStorage,
    }
}

/// Runs a file request against a store; the result is the served key or the
/// failure status.
fn run_file(req: &FileRequest, storage: &EmptyStorage) -> Result<String, u16> {
    let mut st = FileState::Start;
    let mut ev = FileEvent::Begin;
    loop {
        let (next, action) = req.step(st, ev);
        st = next;
        ev = match action {
            FileAction::CheckExists(k) => FileEvent::Exists(storage.has_key(&k)),
            FileAction::Fetch { .. } => panic!("no fetch expected"),
            FileAction::Put { key, bytes } => FileEvent::Stored(storage.put_bytes(&key, bytes)),
            FileAction::Serve(k) => return Ok(k),
            FileAction::Fail(code) => return Err(code),
        };
    }
}

fn run_image(req: &ImageRequest, storage: &EmptyStorage) -> Result<String, u16> {
    let mut st = ImageState::Start;
    let mut ev = ImageEvent::Begin;
    loop {
        let (next, action) = req.step(st, ev);
        st = next;
        ev = match action {
            ImageAction::CheckExists(k) => ImageEvent::Exists(storage.has_key(&k)),
            ImageAction::Read(k) => ImageEvent::Read(storage.get_bytes(&k)),
            ImageAction::Put { key, bytes } => ImageEvent::Stored(storage.put_bytes(&key, bytes)),
            ImageAction::Serve(k) => return Ok(k),
            ImageAction::Fail(code) => return Err(code),
            other => panic!("unexpected action {other:?}"),
        };
    }
}

#[test]
fn file_request_404s_on_bucket_miss_without_remote_fetch() {
    let state = bucket_origin_state();
    let req = file_request(&state, None, "/some/file.txt");
    let result = run_file(&req, &state.storage);
    assert_eq!(result.err(), Some(404));
}

#[test]
fn image_request_404s_on_bucket_miss_without_remote_fetch() {
    let state = bucket_origin_state();
    let req = image_request(&state, None, "/some/image.png");
    let result = run_image(&req, &state.storage);
    assert_eq!(result.err(), Some(404));
}

fn remote_state() -> AppState<()> {
    AppState {
        host: "https://example.com/".to_string(),
        port: 0,
        address: "127.0.0.1".to_string(),
        allowed_hosts: vec!["cdn.example".to_string()],
        origin_mode: OriginMode::Remote,
        image_limits: ImageLimits::default(),
        storage: (),
    }
}

#[test]
fn file_request_keys_and_routing() {
    let state = remote_state();
    let req = route_file_request(&state, "/docs/a.txt").unwrap();
    assert_eq!(req.key, "files/example.com/docs/a.txt");
    assert_eq!(req.host, "https://example.com/");
    assert!(!req.guard);
    let req = route_file_request(&state, "https://cdn.example/x/y.css").unwrap();
    assert_eq!(req.key, "files/cdn.example/x/y.css");
    assert_eq!(req.path, "/x/y.css");
    assert!(req.guard);
    assert_eq!(route_file_request(&state, "https://evil.example/x").err(), Some(403));
}

#[test]
fn file_request_fetches_stores_and_serves() {
    let state = remote_state();
    let req = file_request(&state, None, "/a.css");
    let (st, a) = req.step(FileState::Start, FileEvent::Begin);
    assert!(matches!(a, FileAction::CheckExists(ref k) if k == "files/example.com/a.css"));
    let (st, a) = req.step(st, FileEvent::Exists(Ok(false)));
    assert!(matches!(a, FileAction::Fetch { ref host, ref path, guard: false }
        if host == "https://example.com/" && path == "/a.css"));
    let (st, a) = req.step(st, FileEvent::Fetched(Some(vec![1, 2, 3])));
    assert!(matches!(a, FileAction::Put { ref key, ref bytes }
        if key == "files/example.com/a.css" && bytes == &vec![1, 2, 3]));
    let (st, a) = req.step(st, FileEvent::Stored(Ok(())));
    assert!(matches!(a, FileAction::Serve(ref k) if k == "files/example.com/a.css"));
    assert_eq!(st, FileState::Done);

    let (_, a) = req.step(FileState::Fetching, FileEvent::Fetched(None));
    assert!(matches!(a, FileAction::Fail(404)));
    let (_, a) = req.step(FileState::Storing, FileEvent::Stored(Err(StorageError::NotFound)));
    assert!(matches!(a, FileAction::Fail(500)));
    let (_, a) = req.step(FileState::Looking, FileEvent::Exists(Err(StorageError::NotFound)));
    assert!(matches!(a, FileAction::Fail(404)));
    let (_, a) = req.step(FileState::Looking, FileEvent::Exists(Ok(true)));
    assert!(matches!(a, FileAction::Serve(_)));
}

#[test]
fn image_request_fields() {
    let state = remote_state();
    let req = image_request(&state, Some("https://cdn.example".to_string()), "/p/a.w100.png.webp");
    assert_eq!(req.target_key, "images/cdn.example/p/a.w100.png.webp");
    assert_eq!(req.original_path, "/p/a.png");
    assert_eq!(req.original_key, "images/cdn.example/p/a.png");
    assert_eq!(req.resize_width, Some(100));
    assert!(req.to_webp);
    assert!(!req.to_avif);
    assert!(req.guard);
    assert!(!req.bucket_origin);
    assert_eq!(req.format, ImageKind::WebP);
    assert!(req.has_original);
}

#[test]
fn a_cached_variant_is_served_though_its_original_cannot_be_named() {
    let state = remote_state();
    let req = image_request(&state, None, "/x.w100.b/c");
    assert!(!req.has_original);
    assert_eq!(req.resize_width, Some(100));
    let (st, a) = req.step(ImageState::Start, ImageEvent::Begin);
    assert!(matches!(a, ImageAction::CheckExists(ref k) if k == "images/example.com/x.w100.b/c"));
    let (_, a) = req.step(st, ImageEvent::Exists(Ok(true)));
    assert!(matches!(a, ImageAction::Serve(ref k) if k == "images/example.com/x.w100.b/c"));
    let (_, a) = req.step(ImageState::CheckingTarget, ImageEvent::Exists(Ok(false)));
    assert!(matches!(a, ImageAction::NoOriginal));
}

#[test]
fn image_request_converts_resizes_and_stores() {
    let state = remote_state();
    let req = image_request(&state, None, "/a.w100.jpg.webp");
    let (st, _) = req.step(ImageState::Start, ImageEvent::Begin);
    let (st, a) = req.step(st, ImageEvent::Exists(Ok(false)));
    assert!(matches!(a, ImageAction::CheckExists(ref k) if k == "images/example.com/a.jpg"));
    let (st, a) = req.step(st, ImageEvent::Exists(Ok(false)));
    assert!(matches!(a, ImageAction::Fetch { ref path, guard: false, .. } if path == "/a.jpg"));
    let (st, a) = req.step(st, ImageEvent::Fetched(Some(vec![9])));
    assert!(matches!(a, ImageAction::Put { ref key, ref bytes }
        if key == "images/example.com/a.jpg" && bytes == &vec![9]));
    let (st, a) = req.step(st, ImageEvent::Stored(Ok(())));
    assert!(matches!(a, ImageAction::Decode { ref bytes, .. } if bytes == &vec![9]));
    let (st, a) = req.step(st, ImageEvent::Decoded(Some(400)));
    assert!(matches!(a, ImageAction::EncodeWebp));
    let (st, a) = req.step(st, ImageEvent::Encoded(Some(vec![7])));
    assert!(matches!(a, ImageAction::Decode { ref bytes, .. } if bytes == &vec![7]));
    let (st, a) = req.step(st, ImageEvent::Decoded(Some(400)));
    assert!(matches!(a, ImageAction::ResizeAndEncode { width: 100, format: ImageKind::WebP }));
    let (st, a) = req.step(st, ImageEvent::Encoded(Some(vec![5])));
    assert!(matches!(a, ImageAction::Put { ref key, ref bytes }
        if key == "images/example.com/a.w100.jpg.webp" && bytes == &vec![5]));
    let (_, a) = req.step(st, ImageEvent::Stored(Ok(())));
    assert!(matches!(a, ImageAction::Serve(ref k) if k == "images/example.com/a.w100.jpg.webp"));
}

#[test]
fn narrow_images_are_not_resized() {
    let state = remote_state();
    let req = image_request(&state, None, "/a.w100.jpg");
    let (st, a) = req.step(ImageState::ReadingOriginal, ImageEvent::Read(Ok(vec![1])));
    assert!(matches!(a, ImageAction::Decode { .. }));
    let (_, a) = req.step(st, ImageEvent::Decoded(Some(80)));
    assert!(matches!(a, ImageAction::Put { ref bytes, .. } if bytes == &vec![1]));
}

#[test]
fn plain_images_are_served_as_they_are() {
    let state = remote_state();
    let req = image_request(&state, None, "/a.png");
    assert_eq!(req.target_key, req.original_key);
    let (_, a) = req.step(ImageState::ReadingOriginal, ImageEvent::Read(Ok(vec![1])));
    assert!(matches!(a, ImageAction::Serve(ref k) if k == "images/example.com/a.png"));
    let (_, a) = req.step(ImageState::Converting, ImageEvent::Encoded(None));
    assert!(matches!(a, ImageAction::Fail(500)));
}

#[test]
fn bucket_mode_reads_originals_beside_derivatives() {
    let mut state = remote_state();
    state.origin_mode = OriginMode::Bucket;
    let req = image_request(&state, None, "/photo.w300.png.webp");
    assert_eq!(req.target_key, "images/photo.w300.png.webp");
    assert_eq!(req.original_key, "images/photo.png");
    let req = file_request(&state, None, "/doc.pdf");
    assert_eq!(req.key, "files/doc.pdf");
}

#[test]
fn decodes_carry_the_configured_limits() {
    let mut state = remote_state();
    state.image_limits = ImageLimits { max_width: Some(4000), max_height: None };
    let req = image_request(&state, None, "/a.jpg.avif");
    let (st, a) = req.step(ImageState::ReadingOriginal, ImageEvent::Read(Ok(vec![1])));
    assert!(matches!(a, ImageAction::Decode { limits, .. } if limits.max_width == Some(4000)));
    let (st, a) = req.step(st, ImageEvent::Decoded(Some(10)));
    assert!(matches!(a, ImageAction::EncodeAvif));
    let (_, a) = req.step(st, ImageEvent::Encoded(Some(vec![2])));
    assert!(matches!(a, ImageAction::Decode { limits, .. } if limits.max_width == Some(4000)));
}

#[test]
fn failures_on_the_way() {
    let state = remote_state();
    let req = image_request(&state, None, "/a.w10.png");
    let (_, a) = req.step(ImageState::FetchingOriginal, ImageEvent::Fetched(None));
    assert!(matches!(a, ImageAction::Fail(404)));
    let (_, a) = req.step(
        ImageState::CheckingTarget,
        ImageEvent::Exists(Err(StorageError::Other("x".into()))),
    );
    assert!(matches!(a, ImageAction::Fail(500)));
    let (_, a) = req.step(ImageState::DecodingOriginal(vec![1]), ImageEvent::Decoded(None));
    assert!(matches!(a, ImageAction::Fail(500)));
    let (_, a) = req.step(
        ImageState::StoringOriginal(vec![1]),
        ImageEvent::Stored(Err(StorageError::NotFound)),
    );
    assert!(matches!(a, ImageAction::Fail(404)));
    let (_, a) = req.step(ImageState::StoringResult, ImageEvent::Stored(Err(StorageError::NotFound)));
    assert!(matches!(a, ImageAction::Fail(500)));
    let (_, a) = req.step(ImageState::Start, ImageEvent::Decoded(Some(1)));
    assert!(matches!(a, ImageAction::Fail(500)));
}

#[test]
fn image_route_checks_allowed_hosts() {
    let state = remote_state();
    let req = route_image_request(&state, "/p/a.w100.png").unwrap();
    assert_eq!(req.target_key, "images/example.com/p/a.w100.png");
    assert!(!req.guard);
    let req = route_image_request(&state, "https://cdn.example/p/a.png.webp").unwrap();
    assert_eq!(req.target_key, "images/cdn.example/p/a.png.webp");
    assert_eq!(req.original_path, "/p/a.png");
    assert!(req.guard);
    assert_eq!(route_image_request(&state, "https://evil.example/a.png").err(), Some(403));
}
