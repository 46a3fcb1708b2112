//! Serving an image: from the store when the requested variant is cached;
//! else from its original (read from the store, or fetched from the origin
//! and stored), converted to WebP or AVIF and resized as the path asks,
//! stored, and served from the store.
use crate::env::app::{ImageLimits, OriginMode};
use crate::env::state::{host_allowed, AppState};
use crate::services::file::target_host;
use crate::storage::{map_storage_err, spec_status_of, StorageError, FORBIDDEN, INTERNAL_SERVER_ERROR, NOT_FOUND};
use crate::text::{chars_of, ends_with, ends_with_chars};
use crate::utils::img::{guess_image_format, spec_guess_image_format, ImageKind};
use crate::utils::path::{
    get_original_path, get_resize_width_from_path, object_key, original_path_defined,
    original_path_is_defined, parse_path,
    spec_object_key, spec_original_path, spec_parse_path, spec_resize_width,
};
use crate::utils::url::{get_host_from_url, spec_host_from_url};
use vstd::prelude::*;

verus! {

/// An image request, resolved against the server's state.
#[derive(Debug)]
pub struct ImageRequest {
    /// Where the requested variant is cached.
    pub target_key: String,
    /// The original can be named: the path asks for no width, or its file
    /// name keeps a piece to drop for the width.
    pub has_original: bool,
    /// Where its original is cached (empty where it cannot be named).
    pub original_key: String,
    /// The origin the original is fetched from on a miss.
    pub host: String,
    /// The original's path on the origin (empty where it cannot be named).
    pub original_path: String,
    /// The width the variant is resized to, if it is wider.
    pub resize_width: Option<u32>,
    /// The variant is converted to WebP.
    pub to_webp: bool,
    /// The variant is converted to AVIF.
    pub to_avif: bool,
    /// The origin came from the request, so the fetch must go through the
    /// guard against internal addresses.
    pub guard: bool,
    /// Originals live in the store only: a miss is not fetched.
    pub bucket_origin: bool,
    /// The format a resized variant is encoded in.
    pub format: ImageKind,
    /// The caps on the dimensions of a decoded image.
    pub limits: ImageLimits,
}

/// `req` is the image request for `path` on the origin `host` (if the
/// request names one), given the default origin and the origin mode.
pub open spec fn is_image_request(
    req: ImageRequest,
    default_host: Seq<char>,
    mode: OriginMode,
    limits: ImageLimits,
    host: Option<Seq<char>>,
    path: Seq<char>,
) -> bool {
    let pure_host = spec_host_from_url(target_host(default_host, host));
    let include_host = mode == OriginMode::Remote;
    let resize = spec_resize_width(path);
    let original = spec_original_path(path, resize is Some);
    &&& req.host@ == target_host(default_host, host)
    &&& req.target_key@ == spec_object_key("images"@, pure_host, path, include_host)
    &&& req.has_original == original_path_defined(path, resize is Some)
    &&& req.has_original ==> req.original_path@ == original
    &&& req.has_original ==> req.original_key@ == spec_object_key(
        "images"@,
        pure_host,
        original,
        include_host,
    )
    &&& req.resize_width == resize
    &&& req.to_webp == ends_with(path, ".webp"@)
    &&& req.to_avif == ends_with(path, ".avif"@)
    &&& req.guard == host is Some
    &&& req.bucket_origin == (mode == OriginMode::Bucket)
    &&& req.format == spec_guess_image_format(req.target_key@)
    &&& req.limits == limits
}

/// The image request for `path` on the origin `host`, or on the default
/// origin.
pub fn image_request<S>(state: &AppState<S>, host: Option<String>, path: &str) -> (r: ImageRequest)
    ensures
        is_image_request(
            r,
            state.host@,
            state.origin_mode,
            state.image_limits,
            match host {
                Some(h) => Some(h@),
                None => None,
            },
            path@,
        ),
{
    let guard = host.is_some();
    let target = match host {
        Some(h) => h,
        None => state.host.clone(),
    };
    let pure_host = get_host_from_url(target.as_str());
    let include_host = match state.origin_mode {
        OriginMode::Remote => true,
        OriginMode::Bucket => false,
    };
    let target_key = object_key("images", pure_host.as_str(), path, include_host);
    let resize_width = get_resize_width_from_path(path);
    let p = chars_of(path);
    let to_webp = ends_with_chars(&p, &chars_of(".webp"));
    let to_avif = ends_with_chars(&p, &chars_of(".avif"));
    let has_original = original_path_is_defined(path, resize_width.is_some());
    let (original_path, original_key) = if has_original {
        let original_path = get_original_path(path, resize_width.is_some());
        let original_key = object_key(
            "images",
            pure_host.as_str(),
            original_path.as_str(),
            include_host,
        );
        (original_path, original_key)
    } else {
        (String::new(), String::new())
    };
    let format = guess_image_format(target_key.as_str());
    ImageRequest {
        target_key,
        has_original,
        original_key,
        host: target,
        original_path,
        resize_width,
        to_webp,
        to_avif,
        guard,
        bucket_origin: !include_host,
        format,
        limits: state.image_limits,
    }
}

/// A raw image route path may be answered: it names no origin, or one
/// whose host is on the list of allowed hosts.
pub open spec fn image_route_allowed(allowed: Seq<String>, raw_path: Seq<char>) -> bool {
    spec_parse_path(raw_path).0 matches Some(h) ==> host_allowed(allowed, spec_host_from_url(h))
}

/// How the image route answers a raw request path: 403 where it names an
/// origin whose host is not on the list of allowed hosts (which holds host
/// names such as `example.com`), else the image request for the path.
pub fn route_image_request<S>(state: &AppState<S>, raw_path: &str) -> (r: Result<ImageRequest, u16>)
    ensures
        ({
            let (h, p) = spec_parse_path(raw_path@);
            if !image_route_allowed(state.allowed_hosts@, raw_path@) {
                r == Err::<ImageRequest, u16>(FORBIDDEN)
            } else {
                r matches Ok(req) && is_image_request(
                    req,
                    state.host@,
                    state.origin_mode,
                    state.image_limits,
                    h,
                    p,
                )
            }
        }),
{
    let (host, path) = parse_path(raw_path);
    match &host {
        Some(h) => {
            let bare = get_host_from_url(h.as_str());
            if !state.is_host_allowed(bare.as_str()) {
                return Err(FORBIDDEN);
            }
        },
        None => {},
    }
    Ok(image_request(state, host, path.as_str()))
}

/// Where the handling of an image request stands.
#[derive(Debug)]
pub enum ImageState {
    /// Nothing done yet.
    Start,
    /// Asked the store whether the variant is cached.
    CheckingTarget,
    /// Asked the store whether the original is cached.
    CheckingOriginal,
    /// Asked the store for the original.
    ReadingOriginal,
    /// Asked the origin for the original.
    FetchingOriginal,
    /// Asked the store to keep the fetched original (these bytes).
    StoringOriginal(Vec<u8>),
    /// Asked for the original (these bytes) to be decoded.
    DecodingOriginal(Vec<u8>),
    /// Asked for the decoded image to be encoded as WebP or AVIF.
    Converting,
    /// Asked for the converted image (these bytes) to be decoded.
    DecodingConverted(Vec<u8>),
    /// Asked for the image to be resized and encoded.
    Resizing,
    /// Asked the store to keep the variant.
    StoringResult,
    /// Answered.
    Done,
}

/// What came back from the last action.
#[derive(Debug)]
pub enum ImageEvent {
    /// The request arrives.
    Begin,
    /// The store's answer on whether the key exists.
    Exists(Result<bool, StorageError>),
    /// The bytes the store read, or its error.
    Read(Result<Vec<u8>, StorageError>),
    /// The fetched bytes, or `None` where the fetch failed.
    Fetched(Option<Vec<u8>>),
    /// The store's answer to keeping the bytes.
    Stored(Result<(), StorageError>),
    /// The width of the decoded image, or `None` where decoding failed.
    Decoded(Option<u32>),
    /// The encoded bytes, or `None` where encoding failed.
    Encoded(Option<Vec<u8>>),
}

/// What to do next.
#[derive(Debug)]
pub enum ImageAction {
    /// Ask the store whether the key exists.
    CheckExists(String),
    /// Read the object under the key.
    Read(String),
    /// Fetch `path` from `host`, through the guard where `guard` is set.
    Fetch { host: String, path: String, guard: bool },
    /// Keep the bytes in the store under the key.
    Put { key: String, bytes: Vec<u8> },
    /// Decode the bytes, refusing an image beyond the limits, and keep the
    /// image.
    Decode { bytes: Vec<u8>, limits: ImageLimits },
    /// Encode the kept image as AVIF.
    EncodeAvif,
    /// Encode the kept image as WebP.
    EncodeWebp,
    /// Resize the kept image to `width` and encode it in `format`.
    ResizeAndEncode { width: u32, format: ImageKind },
    /// Answer with the stored object under the key (a store error on the way
    /// is answered by its status).
    Serve(String),
    /// Answer with this status.
    Fail(u16),
    /// Give up: the variant is not cached and its original cannot be named.
    NoOriginal,
}

/// The model of an `ImageState`, its bytes as sequences.
pub enum StateModel {
    Start,
    CheckingTarget,
    CheckingOriginal,
    ReadingOriginal,
    FetchingOriginal,
    StoringOriginal(Seq<u8>),
    DecodingOriginal(Seq<u8>),
    Converting,
    DecodingConverted(Seq<u8>),
    Resizing,
    StoringResult,
    Done,
}

/// The model of an `ImageEvent`.
pub enum EventModel {
    Begin,
    Exists(Result<bool, StorageError>),
    Read(Result<Seq<u8>, StorageError>),
    Fetched(Option<Seq<u8>>),
    Stored(Result<(), StorageError>),
    Decoded(Option<u32>),
    Encoded(Option<Seq<u8>>),
}

/// The model of an `ImageAction`.
pub enum ActionModel {
    CheckExists(Seq<char>),
    Read(Seq<char>),
    Fetch { host: Seq<char>, path: Seq<char>, guard: bool },
    Put { key: Seq<char>, bytes: Seq<u8> },
    Decode { bytes: Seq<u8>, limits: ImageLimits },
    EncodeAvif,
    EncodeWebp,
    ResizeAndEncode { width: u32, format: ImageKind },
    Serve(Seq<char>),
    Fail(u16),
    NoOriginal,
}

impl View for ImageState {
    type V = StateModel;

    open spec fn view(&self) -> StateModel {
        match self {
            ImageState::Start => StateModel::Start,
            ImageState::CheckingTarget => StateModel::CheckingTarget,
            ImageState::CheckingOriginal => StateModel::CheckingOriginal,
            ImageState::ReadingOriginal => StateModel::ReadingOriginal,
            ImageState::FetchingOriginal => StateModel::FetchingOriginal,
            ImageState::StoringOriginal(b) => StateModel::StoringOriginal(b@),
            ImageState::DecodingOriginal(b) => StateModel::DecodingOriginal(b@),
            ImageState::Converting => StateModel::Converting,
            ImageState::DecodingConverted(b) => StateModel::DecodingConverted(b@),
            ImageState::Resizing => StateModel::Resizing,
            ImageState::StoringResult => StateModel::StoringResult,
            ImageState::Done => StateModel::Done,
        }
    }
}

impl View for ImageEvent {
    type V = EventModel;

    open spec fn view(&self) -> EventModel {
        match self {
            ImageEvent::Begin => EventModel::Begin,
            ImageEvent::Exists(r) => EventModel::Exists(*r),
            ImageEvent::Read(Ok(b)) => EventModel::Read(Ok(b@)),
            ImageEvent::Read(Err(e)) => EventModel::Read(Err(*e)),
            ImageEvent::Fetched(Some(b)) => EventModel::Fetched(Some(b@)),
            ImageEvent::Fetched(None) => EventModel::Fetched(None),
            ImageEvent::Stored(r) => EventModel::Stored(*r),
            ImageEvent::Decoded(w) => EventModel::Decoded(*w),
            ImageEvent::Encoded(Some(b)) => EventModel::Encoded(Some(b@)),
            ImageEvent::Encoded(None) => EventModel::Encoded(None),
        }
    }
}

impl View for ImageAction {
    type V = ActionModel;

    open spec fn view(&self) -> ActionModel {
        match self {
            ImageAction::CheckExists(k) => ActionModel::CheckExists(k@),
            ImageAction::Read(k) => ActionModel::Read(k@),
            ImageAction::Fetch { host, path, guard } => ActionModel::Fetch {
                host: host@,
                path: path@,
                guard: *guard,
            },
            ImageAction::Put { key, bytes } => ActionModel::Put { key: key@, bytes: bytes@ },
            ImageAction::Decode { bytes, limits } => ActionModel::Decode {
                bytes: bytes@,
                limits: *limits,
            },
            ImageAction::EncodeAvif => ActionModel::EncodeAvif,
            ImageAction::EncodeWebp => ActionModel::EncodeWebp,
            ImageAction::ResizeAndEncode { width, format } => ActionModel::ResizeAndEncode {
                width: *width,
                format: *format,
            },
            ImageAction::Serve(k) => ActionModel::Serve(k@),
            ImageAction::Fail(c) => ActionModel::Fail(*c),
            ImageAction::NoOriginal => ActionModel::NoOriginal,
        }
    }
}

/// The request asks for the original as it is: no resize, no conversion.
pub open spec fn wants_original(req: ImageRequest) -> bool {
    req.resize_width is None && !req.to_webp && !req.to_avif
}

/// With the original's bytes in hand: serve it as it is, or decode it.
pub open spec fn with_original(req: ImageRequest, bytes: Seq<u8>) -> (StateModel, ActionModel) {
    if wants_original(req) {
        (StateModel::Done, ActionModel::Serve(req.target_key@))
    } else {
        (StateModel::DecodingOriginal(bytes), ActionModel::Decode { bytes, limits: req.limits })
    }
}

/// With the converted (or original) bytes and the width of their image:
/// resize where the image is wider than asked, else store the bytes.
pub open spec fn with_intermediate(req: ImageRequest, bytes: Seq<u8>, width: u32) -> (
    StateModel,
    ActionModel,
) {
    match req.resize_width {
        Some(w) if width > w => (
            StateModel::Resizing,
            ActionModel::ResizeAndEncode { width: w, format: req.format },
        ),
        _ => (StateModel::StoringResult, ActionModel::Put { key: req.target_key@, bytes }),
    }
}

/// One step of an image request: from where it stands and what came back,
/// to where it stands next and what to do.
pub open spec fn spec_image_step(req: ImageRequest, st: StateModel, ev: EventModel) -> (
    StateModel,
    ActionModel,
) {
    let fail_internal = (StateModel::Done, ActionModel::Fail(INTERNAL_SERVER_ERROR));
    match (st, ev) {
        (StateModel::Start, EventModel::Begin) => (
            StateModel::CheckingTarget,
            ActionModel::CheckExists(req.target_key@),
        ),
        (StateModel::CheckingTarget, EventModel::Exists(Ok(true))) => (
            StateModel::Done,
            ActionModel::Serve(req.target_key@),
        ),
        (StateModel::CheckingTarget, EventModel::Exists(Ok(false))) => if req.has_original {
            (StateModel::CheckingOriginal, ActionModel::CheckExists(req.original_key@))
        } else {
            (StateModel::Done, ActionModel::NoOriginal)
        },
        (StateModel::CheckingTarget, EventModel::Exists(Err(e))) => (
            StateModel::Done,
            ActionModel::Fail(spec_status_of(e)),
        ),
        (StateModel::CheckingOriginal, EventModel::Exists(Ok(true))) => (
            StateModel::ReadingOriginal,
            ActionModel::Read(req.original_key@),
        ),
        (StateModel::CheckingOriginal, EventModel::Exists(Ok(false))) => if req.bucket_origin {
            (StateModel::Done, ActionModel::Fail(NOT_FOUND))
        } else {
            (
                StateModel::FetchingOriginal,
                ActionModel::Fetch {
                    host: req.host@,
                    path: req.original_path@,
                    guard: req.guard,
                },
            )
        },
        (StateModel::CheckingOriginal, EventModel::Exists(Err(e))) => (
            StateModel::Done,
            ActionModel::Fail(spec_status_of(e)),
        ),
        (StateModel::ReadingOriginal, EventModel::Read(Ok(bytes))) => with_original(req, bytes),
        (StateModel::ReadingOriginal, EventModel::Read(Err(e))) => (
            StateModel::Done,
            ActionModel::Fail(spec_status_of(e)),
        ),
        (StateModel::FetchingOriginal, EventModel::Fetched(Some(bytes))) => (
            StateModel::StoringOriginal(bytes),
            ActionModel::Put { key: req.original_key@, bytes },
        ),
        (StateModel::FetchingOriginal, EventModel::Fetched(None)) => (
            StateModel::Done,
            ActionModel::Fail(NOT_FOUND),
        ),
        (StateModel::StoringOriginal(bytes), EventModel::Stored(Ok(()))) => with_original(
            req,
            bytes,
        ),
        (StateModel::StoringOriginal(_), EventModel::Stored(Err(e))) => (
            StateModel::Done,
            ActionModel::Fail(spec_status_of(e)),
        ),
        (StateModel::DecodingOriginal(bytes), EventModel::Decoded(Some(width))) => if req.to_avif {
            (StateModel::Converting, ActionModel::EncodeAvif)
        } else if req.to_webp {
            (StateModel::Converting, ActionModel::EncodeWebp)
        } else {
            with_intermediate(req, bytes, width)
        },
        (StateModel::Converting, EventModel::Encoded(Some(bytes))) => (
            StateModel::DecodingConverted(bytes),
            ActionModel::Decode { bytes, limits: req.limits },
        ),
        (StateModel::DecodingConverted(bytes), EventModel::Decoded(Some(width))) => with_intermediate(
            req,
            bytes,
            width,
        ),
        (StateModel::Resizing, EventModel::Encoded(Some(bytes))) => (
            StateModel::StoringResult,
            ActionModel::Put { key: req.target_key@, bytes },
        ),
        (StateModel::StoringResult, EventModel::Stored(Ok(()))) => (
            StateModel::Done,
            ActionModel::Serve(req.target_key@),
        ),
        _ => fail_internal,
    }
}

fn copy_bytes(b: &Vec<u8>) -> (r: Vec<u8>)
    ensures
        r@ == b@,
{
    b.clone()
}

impl ImageRequest {
    fn with_original(&self, bytes: Vec<u8>) -> (r: (ImageState, ImageAction))
        ensures
            r.0@ == with_original(*self, bytes@).0,
            r.1@ == with_original(*self, bytes@).1,
    {
        if self.resize_width.is_none() && !self.to_webp && !self.to_avif {
            (ImageState::Done, ImageAction::Serve(self.target_key.clone()))
        } else {
            let copy = copy_bytes(&bytes);
            (ImageState::DecodingOriginal(bytes), ImageAction::Decode { bytes: copy, limits: self.limits })
        }
    }

    fn with_intermediate(&self, bytes: Vec<u8>, width: u32) -> (r: (ImageState, ImageAction))
        ensures
            r.0@ == with_intermediate(*self, bytes@, width).0,
            r.1@ == with_intermediate(*self, bytes@, width).1,
    {
        match self.resize_width {
            Some(w) if width > w => (
                ImageState::Resizing,
                ImageAction::ResizeAndEncode { width: w, format: self.format },
            ),
            _ => (
                ImageState::StoringResult,
                ImageAction::Put { key: self.target_key.clone(), bytes },
            ),
        }
    }

    /// One step of the request. The store is asked for the variant first, and
    /// a cached variant is served. Otherwise, where the original cannot be
    /// named, the request gives up; else the original is read from the
    /// store, or, on a miss, answered 404 in bucket-origin mode and else
    /// fetched (a failed fetch is a 404) and stored. A request for the
    /// original as it is serves it; otherwise the original is decoded,
    /// converted to AVIF or WebP (and decoded again) where the path asks,
    /// resized where the image is wider than asked, stored and served. A
    /// failed decode, encode or store of the variant is a 500; store errors
    /// on the original are answered by their status.
    pub fn step(&self, st: ImageState, ev: ImageEvent) -> (r: (ImageState, ImageAction))
        ensures
            r.0@ == spec_image_step(*self, st@, ev@).0,
            r.1@ == spec_image_step(*self, st@, ev@).1,
    {
        let fail_internal = (ImageState::Done, ImageAction::Fail(INTERNAL_SERVER_ERROR));
        match (st, ev) {
            (ImageState::Start, ImageEvent::Begin) => (
                ImageState::CheckingTarget,
                ImageAction::CheckExists(self.target_key.clone()),
            ),
            (ImageState::CheckingTarget, ImageEvent::Exists(Ok(true))) => (
                ImageState::Done,
                ImageAction::Serve(self.target_key.clone()),
            ),
            (ImageState::CheckingTarget, ImageEvent::Exists(Ok(false))) => if self.has_original {
                (ImageState::CheckingOriginal, ImageAction::CheckExists(self.original_key.clone()))
            } else {
                (ImageState::Done, ImageAction::NoOriginal)
            },
            (ImageState::CheckingTarget, ImageEvent::Exists(Err(e))) => (
                ImageState::Done,
                ImageAction::Fail(map_storage_err(&e)),
            ),
            (ImageState::CheckingOriginal, ImageEvent::Exists(Ok(true))) => (
                ImageState::ReadingOriginal,
                ImageAction::Read(self.original_key.clone()),
            ),
            (ImageState::CheckingOriginal, ImageEvent::Exists(Ok(false))) => if self.bucket_origin {
                (ImageState::Done, ImageAction::Fail(NOT_FOUND))
            } else {
                (
                    ImageState::FetchingOriginal,
                    ImageAction::Fetch {
                        host: self.host.clone(),
                        path: self.original_path.clone(),
                        guard: self.guard,
                    },
                )
            },
            (ImageState::CheckingOriginal, ImageEvent::Exists(Err(e))) => (
                ImageState::Done,
                ImageAction::Fail(map_storage_err(&e)),
            ),
            (ImageState::ReadingOriginal, ImageEvent::Read(Ok(bytes))) => self.with_original(bytes),
            (ImageState::ReadingOriginal, ImageEvent::Read(Err(e))) => (
                ImageState::Done,
                ImageAction::Fail(map_storage_err(&e)),
            ),
            (ImageState::FetchingOriginal, ImageEvent::Fetched(Some(bytes))) => {
                let copy = copy_bytes(&bytes);
                (
                    ImageState::StoringOriginal(bytes),
                    ImageAction::Put { key: self.original_key.clone(), bytes: copy },
                )
            },
            (ImageState::FetchingOriginal, ImageEvent::Fetched(None)) => (
                ImageState::Done,
                ImageAction::Fail(NOT_FOUND),
            ),
            (ImageState::StoringOriginal(bytes), ImageEvent::Stored(Ok(()))) => self.with_original(
                bytes,
            ),
            (ImageState::StoringOriginal(_), ImageEvent::Stored(Err(e))) => (
                ImageState::Done,
                ImageAction::Fail(map_storage_err(&e)),
            ),
            (ImageState::DecodingOriginal(bytes), ImageEvent::Decoded(Some(width))) => {
                if self.to_avif {
                    (ImageState::Converting, ImageAction::EncodeAvif)
                } else if self.to_webp {
                    (ImageState::Converting, ImageAction::EncodeWebp)
                } else {
                    self.with_intermediate(bytes, width)
                }
            },
            (ImageState::Converting, ImageEvent::Encoded(Some(bytes))) => {
                let copy = copy_bytes(&bytes);
                (
                    ImageState::DecodingConverted(bytes),
                    ImageAction::Decode { bytes: copy, limits: self.limits },
                )
            },
            (ImageState::DecodingConverted(bytes), ImageEvent::Decoded(Some(width))) => {
                self.with_intermediate(bytes, width)
            },
            (ImageState::Resizing, ImageEvent::Encoded(Some(bytes))) => (
                ImageState::StoringResult,
                ImageAction::Put { key: self.target_key.clone(), bytes },
            ),
            (ImageState::StoringResult, ImageEvent::Stored(Ok(()))) => (
                ImageState::Done,
                ImageAction::Serve(self.target_key.clone()),
            ),
            _ => fail_internal,
        }
    }
}

/// In bucket-origin mode an image request never fetches from an origin.
pub proof fn law_image_bucket_origin_never_fetches(
    req: ImageRequest,
    st: StateModel,
    ev: EventModel,
)
    requires
        req.bucket_origin,
    ensures
        !(spec_image_step(req, st, ev).1 is Fetch),
{
}

/// An image request serves nothing but the variant it asks for.
pub proof fn law_image_serves_its_variant(req: ImageRequest, st: StateModel, ev: EventModel)
    ensures
        spec_image_step(req, st, ev).1 matches ActionModel::Serve(k) ==> k == req.target_key@,
{
}

/// A fetch asks the origin for the original, through the guard exactly when
/// the origin came from the request.
pub proof fn law_image_fetches_the_original(req: ImageRequest, st: StateModel, ev: EventModel)
    ensures
        spec_image_step(req, st, ev).1 matches ActionModel::Fetch { host, path, guard } ==> {
            &&& host == req.host@
            &&& path == req.original_path@
            &&& guard == req.guard
        },
{
}

/// A request for the original as it is never touches the image codecs.
pub proof fn law_plain_request_skips_codecs(req: ImageRequest, st: StateModel, ev: EventModel)
    requires
        wants_original(req),
        !(st is DecodingOriginal),
        !(st is Converting),
        !(st is DecodingConverted),
        !(st is Resizing),
    ensures
        ({
            let a = spec_image_step(req, st, ev).1;
            !(a is Decode) && !(a is EncodeAvif) && !(a is EncodeWebp) && !(a is ResizeAndEncode)
        }),
        !(spec_image_step(req, st, ev).0 is DecodingOriginal),
{
}

/// The store is written only under the original's key, with the bytes just
/// fetched, or under the variant's key.
pub proof fn law_image_writes(req: ImageRequest, st: StateModel, ev: EventModel)
    ensures
        spec_image_step(req, st, ev).1 matches ActionModel::Put { key, bytes } ==> {
            ||| (key == req.original_key@ && st == StateModel::FetchingOriginal && ev
                == EventModel::Fetched(Some(bytes)))
            ||| key == req.target_key@
        },
{
}

/// A cache miss of the original in bucket-origin mode is answered 404.
pub proof fn law_image_bucket_miss_is_not_found(req: ImageRequest)
    requires
        req.bucket_origin,
    ensures
        spec_image_step(req, StateModel::CheckingOriginal, EventModel::Exists(Ok(false))) == (
            StateModel::Done,
            ActionModel::Fail(NOT_FOUND),
        ),
{
}

/// Every image is decoded within the configured limits.
pub proof fn law_image_decodes_within_limits(req: ImageRequest, st: StateModel, ev: EventModel)
    ensures
        spec_image_step(req, st, ev).1 matches ActionModel::Decode { limits, .. } ==> limits
            == req.limits,
{
}

/// The store is read for the original and nothing else: once the original
/// is found in the store, it is read under its own key, and every read an
/// image request asks for names that key.
pub proof fn law_image_reads_only_its_original(req: ImageRequest, st: StateModel, ev: EventModel)
    ensures
        spec_image_step(req, st, ev).1 matches ActionModel::Read(k) ==> k == req.original_key@,
        spec_image_step(req, StateModel::CheckingOriginal, EventModel::Exists(Ok(true))) == (
            StateModel::ReadingOriginal,
            ActionModel::Read(req.original_key@),
        ),
{
}

/// A decoded image (the original where no conversion is asked for, or the
/// converted image) that is wider than the width asked for is resized to
/// that width and encoded in the request's format, never stored as it is;
/// one no wider than that, or with no width asked for, is stored as it is
/// under the variant's key.
pub proof fn law_wide_images_are_resized(
    req: ImageRequest,
    bytes: Seq<u8>,
    width: u32,
)
    ensures
        (req.resize_width is Some && width > req.resize_width.unwrap()) ==> {
            &&& (!req.to_avif && !req.to_webp) ==> spec_image_step(
                req,
                StateModel::DecodingOriginal(bytes),
                EventModel::Decoded(Some(width)),
            ) == (StateModel::Resizing, ActionModel::ResizeAndEncode {
                width: req.resize_width.unwrap(),
                format: req.format,
            })
            &&& spec_image_step(
                req,
                StateModel::DecodingConverted(bytes),
                EventModel::Decoded(Some(width)),
            ) == (StateModel::Resizing, ActionModel::ResizeAndEncode {
                width: req.resize_width.unwrap(),
                format: req.format,
            })
        },
        !(req.resize_width is Some && width > req.resize_width.unwrap()) ==> {
            &&& (!req.to_avif && !req.to_webp) ==> spec_image_step(
                req,
                StateModel::DecodingOriginal(bytes),
                EventModel::Decoded(Some(width)),
            ) == (StateModel::StoringResult, ActionModel::Put { key: req.target_key@, bytes })
            &&& spec_image_step(
                req,
                StateModel::DecodingConverted(bytes),
                EventModel::Decoded(Some(width)),
            ) == (StateModel::StoringResult, ActionModel::Put { key: req.target_key@, bytes })
        },
{
}

/// The path of an image request through the pipeline: the cached variant
/// is served; a missing variant sends the request to its original; a
/// missing original is fetched (outside bucket-origin mode) and a failed
/// fetch is a 404; the original is served as it is where nothing is asked
/// of it, else decoded within the limits; a decoded original is converted to AVIF where the path
/// ends in `.avif`, else to WebP where it ends in `.webp`; a converted image
/// is decoded again within the limits; a resized image is stored under the
/// variant's key; and a stored variant is served.
pub proof fn law_image_pipeline(req: ImageRequest, bytes: Seq<u8>, width: u32)
    ensures
        spec_image_step(req, StateModel::Start, EventModel::Begin) == (
            StateModel::CheckingTarget,
            ActionModel::CheckExists(req.target_key@),
        ),
        spec_image_step(req, StateModel::CheckingTarget, EventModel::Exists(Ok(true))) == (
            StateModel::Done,
            ActionModel::Serve(req.target_key@),
        ),
        req.has_original ==> spec_image_step(
            req,
            StateModel::CheckingTarget,
            EventModel::Exists(Ok(false)),
        ) == (StateModel::CheckingOriginal, ActionModel::CheckExists(req.original_key@)),
        !req.bucket_origin ==> spec_image_step(
            req,
            StateModel::CheckingOriginal,
            EventModel::Exists(Ok(false)),
        ).1 == (ActionModel::Fetch {
            host: req.host@,
            path: req.original_path@,
            guard: req.guard,
        }),
        spec_image_step(req, StateModel::FetchingOriginal, EventModel::Fetched(None)).1
            == ActionModel::Fail(NOT_FOUND),
        spec_image_step(req, StateModel::FetchingOriginal, EventModel::Fetched(Some(bytes))).1 == (
        ActionModel::Put { key: req.original_key@, bytes }),
        req.to_avif ==> spec_image_step(
            req,
            StateModel::DecodingOriginal(bytes),
            EventModel::Decoded(Some(width)),
        ).1 == ActionModel::EncodeAvif,
        (!req.to_avif && req.to_webp) ==> spec_image_step(
            req,
            StateModel::DecodingOriginal(bytes),
            EventModel::Decoded(Some(width)),
        ).1 == ActionModel::EncodeWebp,
        (req.resize_width is None && !req.to_webp && !req.to_avif) ==> {
            &&& spec_image_step(req, StateModel::ReadingOriginal, EventModel::Read(Ok(bytes))).1
                == ActionModel::Serve(req.target_key@)
            &&& spec_image_step(
                req,
                StateModel::StoringOriginal(bytes),
                EventModel::Stored(Ok(())),
            ).1 == ActionModel::Serve(req.target_key@)
        },
        !(req.resize_width is None && !req.to_webp && !req.to_avif) ==> {
            &&& spec_image_step(req, StateModel::ReadingOriginal, EventModel::Read(Ok(bytes))).1
                == (ActionModel::Decode { bytes, limits: req.limits })
            &&& spec_image_step(
                req,
                StateModel::StoringOriginal(bytes),
                EventModel::Stored(Ok(())),
            ).1 == (ActionModel::Decode { bytes, limits: req.limits })
        },
        spec_image_step(req, StateModel::Converting, EventModel::Encoded(Some(bytes))).1 == (
        ActionModel::Decode { bytes, limits: req.limits }),
        spec_image_step(req, StateModel::Resizing, EventModel::Encoded(Some(bytes))).1 == (
        ActionModel::Put { key: req.target_key@, bytes }),
        spec_image_step(req, StateModel::StoringResult, EventModel::Stored(Ok(()))).1
            == ActionModel::Serve(req.target_key@),
{
}

/// How far an image request has come.
pub open spec fn image_progress(st: StateModel) -> int {
    match st {
        StateModel::Start => 0,
        StateModel::CheckingTarget => 1,
        StateModel::CheckingOriginal => 2,
        StateModel::ReadingOriginal => 3,
        StateModel::FetchingOriginal => 3,
        StateModel::StoringOriginal(_) => 4,
        StateModel::DecodingOriginal(_) => 5,
        StateModel::Converting => 6,
        StateModel::DecodingConverted(_) => 7,
        StateModel::Resizing => 8,
        StateModel::StoringResult => 9,
        StateModel::Done => 10,
    }
}

/// An image request always comes to an end: every step before the answer
/// moves it forward, so it is answered within ten steps.
pub proof fn law_image_request_progresses(req: ImageRequest, st: StateModel, ev: EventModel)
    requires
        !(st is Done),
    ensures
        image_progress(spec_image_step(req, st, ev).0) > image_progress(st),
        image_progress(spec_image_step(req, st, ev).0) <= 10,
{
}

} // verus!
