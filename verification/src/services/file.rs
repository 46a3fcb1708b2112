//! Serving a static file: from the store when it is cached, else fetched
//! from its origin, stored, and served from the store.
use crate::env::app::OriginMode;
use crate::env::state::{host_allowed, AppState};
use crate::storage::{map_storage_err, spec_status_of, StorageError, FORBIDDEN, INTERNAL_SERVER_ERROR, NOT_FOUND};
use crate::utils::path::{object_key, parse_path, spec_object_key, spec_parse_path};
use crate::utils::url::{get_host_from_url, spec_host_from_url};
use vstd::prelude::*;

verus! {

/// A file request, resolved against the server's state.
#[derive(Debug)]
pub struct FileRequest {
    /// Where the file is cached.
    pub key: String,
    /// The origin it is fetched from on a miss.
    pub host: String,
    /// Its path on the origin.
    pub path: String,
    /// The origin came from the request, so the fetch must go through the
    /// guard against internal addresses.
    pub guard: bool,
    /// Originals live in the store only: a miss is not fetched.
    pub bucket_origin: bool,
}

/// The origin a request is served from: the one it names, else the default.
pub open spec fn target_host(default_host: Seq<char>, host: Option<Seq<char>>) -> Seq<char> {
    match host {
        Some(h) => h,
        None => default_host,
    }
}

/// `req` is the file request for `path` on the origin `host` (if the request
/// names one), given the default origin and the origin mode.
pub open spec fn is_file_request(
    req: FileRequest,
    default_host: Seq<char>,
    mode: OriginMode,
    host: Option<Seq<char>>,
    path: Seq<char>,
) -> bool {
    &&& req.host@ == target_host(default_host, host)
    &&& req.path@ == path
    &&& req.guard == host is Some
    &&& req.bucket_origin == (mode == OriginMode::Bucket)
    &&& req.key@ == spec_object_key(
        "files"@,
        spec_host_from_url(req.host@),
        path,
        mode == OriginMode::Remote,
    )
}

/// The file request for `path` on the origin `host`, or on the default origin.
pub fn file_request<S>(state: &AppState<S>, host: Option<String>, path: &str) -> (r: FileRequest)
    ensures
        is_file_request(
            r,
            state.host@,
            state.origin_mode,
            match host {
                Some(h) => Some(h@),
                None => None,
            },
            path@,
        ),
{
    let guard = host.is_some();
    let target = match host {
        Some(h) => h,
        None => state.host.clone(),
    };
    let pure_host = get_host_from_url(target.as_str());
    let include_host = match state.origin_mode {
        OriginMode::Remote => true,
        OriginMode::Bucket => false,
    };
    let key = object_key("files", pure_host.as_str(), path, include_host);
    let bucket_origin = !include_host;
    FileRequest { key, host: target, path: String::from_str(path), guard, bucket_origin }
}

/// Where the handling of a file request stands.
#[derive(Clone, Copy, Debug, PartialEq, Eq)]
pub enum FileState {
    /// Nothing done yet.
    Start,
    /// Asked the store whether the file is cached.
    Looking,
    /// Asked the origin for the file.
    Fetching,
    /// Asked the store to keep the fetched file.
    Storing,
    /// Answered.
    Done,
}

/// What came back from the last action.
#[derive(Debug)]
pub enum FileEvent {
    /// The request arrives.
    Begin,
    /// The store's answer on whether the key exists.
    Exists(Result<bool, StorageError>),
    /// The fetched bytes, or `None` where the fetch failed.
    Fetched(Option<Vec<u8>>),
    /// The store's answer to keeping the bytes.
    Stored(Result<(), StorageError>),
}

/// What to do next.
#[derive(Debug)]
pub enum FileAction {
    /// Ask the store whether the key exists.
    CheckExists(String),
    /// Fetch `path` from `host`, through the guard where `guard` is set.
    Fetch { host: String, path: String, guard: bool },
    /// Keep the bytes in the store under the key.
    Put { key: String, bytes: Vec<u8> },
    /// Answer with the stored object under the key (a store error on the way
    /// is answered by its status).
    Serve(String),
    /// Answer with this status.
    Fail(u16),
}

/// One step of a file request: from where it stands and what came back, to
/// where it stands next and what to do.
pub open spec fn spec_file_step(req: FileRequest, st: FileState, ev: FileEvent) -> (
    FileState,
    FileAction,
) {
    match (st, ev) {
        (FileState::Start, FileEvent::Begin) => (
            FileState::Looking,
            FileAction::CheckExists(req.key),
        ),
        (FileState::Looking, FileEvent::Exists(Ok(true))) => (
            FileState::Done,
            FileAction::Serve(req.key),
        ),
        (FileState::Looking, FileEvent::Exists(Ok(false))) => if req.bucket_origin {
            (FileState::Done, FileAction::Fail(NOT_FOUND))
        } else {
            (
                FileState::Fetching,
                FileAction::Fetch { host: req.host, path: req.path, guard: req.guard },
            )
        },
        (FileState::Looking, FileEvent::Exists(Err(e))) => (
            FileState::Done,
            FileAction::Fail(spec_status_of(e)),
        ),
        (FileState::Fetching, FileEvent::Fetched(Some(bytes))) => (
            FileState::Storing,
            FileAction::Put { key: req.key, bytes },
        ),
        (FileState::Fetching, FileEvent::Fetched(None)) => (
            FileState::Done,
            FileAction::Fail(NOT_FOUND),
        ),
        (FileState::Storing, FileEvent::Stored(Ok(()))) => (
            FileState::Done,
            FileAction::Serve(req.key),
        ),
        (FileState::Storing, FileEvent::Stored(Err(_))) => (
            FileState::Done,
            FileAction::Fail(INTERNAL_SERVER_ERROR),
        ),
        _ => (FileState::Done, FileAction::Fail(INTERNAL_SERVER_ERROR)),
    }
}

impl FileRequest {
    /// One step of the request: the store is asked first; a cached file is
    /// served; a miss is answered 404 when originals live in the store, and
    /// otherwise fetched (a failed fetch is a 404), stored (a failed store is
    /// a 500) and served from the store.
    pub fn step(&self, st: FileState, ev: FileEvent) -> (r: (FileState, FileAction))
        ensures
            r == spec_file_step(*self, st, ev),
    {
        match (st, ev) {
            (FileState::Start, FileEvent::Begin) => (
                FileState::Looking,
                FileAction::CheckExists(self.key.clone()),
            ),
            (FileState::Looking, FileEvent::Exists(Ok(true))) => (
                FileState::Done,
                FileAction::Serve(self.key.clone()),
            ),
            (FileState::Looking, FileEvent::Exists(Ok(false))) => if self.bucket_origin {
                (FileState::Done, FileAction::Fail(NOT_FOUND))
            } else {
                (
                    FileState::Fetching,
                    FileAction::Fetch {
                        host: self.host.clone(),
                        path: self.path.clone(),
                        guard: self.guard,
                    },
                )
            },
            (FileState::Looking, FileEvent::Exists(Err(e))) => (
                FileState::Done,
                FileAction::Fail(map_storage_err(&e)),
            ),
            (FileState::Fetching, FileEvent::Fetched(Some(bytes))) => (
                FileState::Storing,
                FileAction::Put { key: self.key.clone(), bytes },
            ),
            (FileState::Fetching, FileEvent::Fetched(None)) => (
                FileState::Done,
                FileAction::Fail(NOT_FOUND),
            ),
            (FileState::Storing, FileEvent::Stored(Ok(()))) => (
                FileState::Done,
                FileAction::Serve(self.key.clone()),
            ),
            (FileState::Storing, FileEvent::Stored(Err(_))) => (
                FileState::Done,
                FileAction::Fail(INTERNAL_SERVER_ERROR),
            ),
            _ => (FileState::Done, FileAction::Fail(INTERNAL_SERVER_ERROR)),
        }
    }
}

/// How the file route answers a raw request path: 403 where it names an
/// origin whose host is not on the list of allowed hosts (which holds host
/// names such as `example.com`), else the file request for the path.
pub fn route_file_request<S>(state: &AppState<S>, raw_path: &str) -> (r: Result<FileRequest, u16>)
    ensures
        ({
            let (h, p) = spec_parse_path(raw_path@);
            match h {
                Some(h) if !host_allowed(state.allowed_hosts@, spec_host_from_url(h)) => r == Err::<FileRequest, u16>(
                    FORBIDDEN,
                ),
                _ => r matches Ok(req) && is_file_request(
                    req,
                    state.host@,
                    state.origin_mode,
                    h,
                    p,
                ),
            }
        }),
{
    let (host, path) = parse_path(raw_path);
    match &host {
        Some(h) => {
            let bare = get_host_from_url(h.as_str());
            if !state.is_host_allowed(bare.as_str()) {
                return Err(FORBIDDEN);
            }
        },
        None => {},
    }
    Ok(file_request(state, host, path.as_str()))
}

/// In bucket-origin mode a file request never fetches from an origin.
pub proof fn law_bucket_origin_never_fetches(req: FileRequest, st: FileState, ev: FileEvent)
    requires
        req.bucket_origin,
    ensures
        !(spec_file_step(req, st, ev).1 is Fetch),
{
}

/// A file request serves nothing but its own key.
pub proof fn law_file_serves_its_key(req: FileRequest, st: FileState, ev: FileEvent)
    ensures
        spec_file_step(req, st, ev).1 matches FileAction::Serve(k) ==> k == req.key,
{
}

/// What a file request stores is exactly the bytes just fetched, under its
/// own key.
pub proof fn law_file_stores_what_was_fetched(req: FileRequest, st: FileState, ev: FileEvent)
    ensures
        spec_file_step(req, st, ev).1 matches FileAction::Put { key, bytes } ==> {
            &&& st == FileState::Fetching
            &&& ev == FileEvent::Fetched(Some(bytes))
            &&& key == req.key
        },
{
}

/// A cache miss in bucket-origin mode is answered 404.
pub proof fn law_bucket_miss_is_not_found(req: FileRequest)
    requires
        req.bucket_origin,
    ensures
        spec_file_step(req, FileState::Looking, FileEvent::Exists(Ok(false))) == (
            FileState::Done,
            FileAction::Fail(NOT_FOUND),
        ),
{
}

/// The path of a file request: the store is asked for its key first, and a
/// cached file is served; outside bucket-origin mode a miss fetches the
/// path from the request's origin (through the guard exactly when the
/// request named that origin); a failed fetch is a 404; the fetched bytes
/// are stored under the key, a failed store is a 500, and a stored file is
/// served.
pub proof fn law_file_pipeline(req: FileRequest, bytes: Vec<u8>, e: StorageError)
    ensures
        spec_file_step(req, FileState::Start, FileEvent::Begin).1 == FileAction::CheckExists(
            req.key,
        ),
        spec_file_step(req, FileState::Looking, FileEvent::Exists(Ok(true))).1 == FileAction::Serve(
            req.key,
        ),
        !req.bucket_origin ==> spec_file_step(
            req,
            FileState::Looking,
            FileEvent::Exists(Ok(false)),
        ).1 == (FileAction::Fetch { host: req.host, path: req.path, guard: req.guard }),
        spec_file_step(req, FileState::Fetching, FileEvent::Fetched(None)).1 == FileAction::Fail(
            NOT_FOUND,
        ),
        spec_file_step(req, FileState::Fetching, FileEvent::Fetched(Some(bytes))).1 == (
        FileAction::Put { key: req.key, bytes }),
        spec_file_step(req, FileState::Storing, FileEvent::Stored(Ok(()))).1 == FileAction::Serve(
            req.key,
        ),
        spec_file_step(req, FileState::Storing, FileEvent::Stored(Err(e))).1 == FileAction::Fail(
            INTERNAL_SERVER_ERROR,
        ),
{
}

/// How far a file request has come.
pub open spec fn file_progress(st: FileState) -> int {
    match st {
        FileState::Start => 0,
        FileState::Looking => 1,
        FileState::Fetching => 2,
        FileState::Storing => 3,
        FileState::Done => 4,
    }
}

/// A file request always comes to an end: every step before the answer
/// moves it forward, so it is answered within four steps.
pub proof fn law_file_request_progresses(req: FileRequest, st: FileState, ev: FileEvent)
    requires
        st != FileState::Done,
    ensures
        file_progress(spec_file_step(req, st, ev).0) > file_progress(st),
        file_progress(spec_file_step(req, st, ev).0) <= 4,
{
}

} // verus!
