//! The server's configuration, read from the values of its environment
//! variables.
use crate::text::{
    chars_of, lowercase_char_is, lowercases_to, lowercases_to_word, parse_unsigned,
    parse_unsigned_range, pieces,
    split, split_chars, string_of, trim, trim_chars,
};
use vstd::prelude::*;

verus! {

/// Where cached objects are kept.
#[derive(Clone, Copy, Debug, PartialEq, Eq)]
pub enum StorageBackend {
    Local,
    S3,
}

/// Where original files come from on a storage miss.
///
/// - `Remote`: fetch the original from the upstream host over HTTP and cache
///   it in storage (a read-through cache; the default).
/// - `Bucket`: storage is the source of truth; originals are uploaded out of
///   band, so a miss is answered 404 instead of fetched.
#[derive(Clone, Copy, Debug, PartialEq, Eq)]
pub enum OriginMode {
    Remote,
    Bucket,
}

/// Optional caps on the dimensions of a decoded image (a guard against
/// decompression bombs). `None` means no cap on that axis.
#[derive(Clone, Copy, Debug, PartialEq, Eq)]
pub struct ImageLimits {
    pub max_width: Option<u32>,
    pub max_height: Option<u32>,
}

impl Default for ImageLimits {
    fn default() -> (r: ImageLimits)
        ensures
            r.max_width is None,
            r.max_height is None,
    {
        ImageLimits { max_width: None, max_height: None }
    }
}

/// How to reach an S3-compatible bucket.
#[derive(Clone, Debug)]
pub struct S3Env {
    pub endpoint: Option<String>,
    pub region: String,
    pub bucket: String,
    pub access_key_id: String,
    pub secret_access_key: String,
    pub force_path_style: bool,
}

/// The server's configuration.
#[derive(Clone, Debug)]
pub struct Env {
    pub address: String,
    pub port: u16,
    pub host: String,
    pub allowed_hosts: Vec<String>,
    pub storage_backend: StorageBackend,
    pub origin_mode: OriginMode,
    pub s3: Option<S3Env>,
    pub image_limits: ImageLimits,
    /// The directory the local store keeps its files in.
    pub cdn_root: String,
}

/// The values of the environment variables that the configuration reads,
/// `None` for one that is unset (or not Unicode).
#[derive(Clone, Debug)]
pub struct EnvVars {
    /// `BIND_ADDRESS`
    pub bind_address: Option<String>,
    /// `PORT`
    pub port: Option<String>,
    /// `HOST`
    pub host: Option<String>,
    /// `ALLOWED_HOSTS`
    pub allowed_hosts: Option<String>,
    /// `STORAGE_BACKEND`
    pub storage_backend: Option<String>,
    /// `ORIGIN_MODE`
    pub origin_mode: Option<String>,
    /// `S3_ENDPOINT`
    pub s3_endpoint: Option<String>,
    /// `S3_REGION`
    pub s3_region: Option<String>,
    /// `S3_BUCKET`
    pub s3_bucket: Option<String>,
    /// `S3_ACCESS_KEY_ID`
    pub s3_access_key_id: Option<String>,
    /// `S3_SECRET_ACCESS_KEY`
    pub s3_secret_access_key: Option<String>,
    /// `S3_FORCE_PATH_STYLE`
    pub s3_force_path_style: Option<String>,
    /// `IMAGE_MAX_WIDTH`
    pub image_max_width: Option<String>,
    /// `IMAGE_MAX_HEIGHT`
    pub image_max_height: Option<String>,
    /// `CDN_ROOT`
    pub cdn_root: Option<String>,
}

/// Why a configuration cannot be built.
#[derive(Clone, Debug)]
pub enum EnvError {
    /// `STORAGE_BACKEND` is none of `local`, `s3`, `r2` (the value, trimmed).
    InvalidStorageBackend(String),
    /// `ORIGIN_MODE` is none of `remote`, `bucket` (the value, trimmed).
    InvalidOriginMode(String),
    /// The S3 backend is chosen and `S3_BUCKET` is unset.
    MissingS3Bucket,
    /// The S3 backend is chosen and `S3_ACCESS_KEY_ID` is unset.
    MissingS3AccessKeyId,
    /// The S3 backend is chosen and `S3_SECRET_ACCESS_KEY` is unset.
    MissingS3SecretAccessKey,
}

pub open spec fn opt_view(o: Option<String>) -> Option<Seq<char>> {
    match o {
        Some(s) => Some(s@),
        None => None,
    }
}

pub open spec fn strings_view(v: Seq<String>) -> Seq<Seq<char>> {
    v.map_values(|s: String| s@)
}

/// The port: `PORT` parsed as a `u16`, else 41890.
pub open spec fn spec_port(v: Option<Seq<char>>) -> u16 {
    match v {
        Some(s) => match parse_unsigned(s, 65535) {
            Some(n) => n as u16,
            None => 41890,
        },
        None => 41890,
    }
}

/// The trimmed pieces that are not empty, in order.
pub open spec fn trimmed_nonempty(ps: Seq<Seq<char>>) -> Seq<Seq<char>>
    decreases ps.len(),
{
    if ps.len() == 0 {
        seq![]
    } else {
        let rest = trimmed_nonempty(ps.drop_last());
        let t = trim(ps.last());
        if t.len() > 0 {
            rest.push(t)
        } else {
            rest
        }
    }
}

/// The allowed hosts: the comma-separated entries of `ALLOWED_HOSTS`,
/// trimmed, without empty ones.
pub open spec fn spec_allowed_hosts(v: Option<Seq<char>>) -> Seq<Seq<char>> {
    match v {
        Some(s) => if s.len() > 0 {
            trimmed_nonempty(split(s, ','))
        } else {
            seq![]
        },
        None => seq![],
    }
}

/// The storage backend that `STORAGE_BACKEND` names, trimmed and compared
/// without case: unset, empty or `local` for the file system, `s3` or `r2`
/// for a bucket; `None` for any other value.
pub open spec fn spec_storage_backend(v: Option<Seq<char>>) -> Option<StorageBackend> {
    match v {
        None => Some(StorageBackend::Local),
        Some(s) => {
            let t = trim(s);
            if t.len() == 0 || lowercases_to(t, "local"@) {
                Some(StorageBackend::Local)
            } else if lowercases_to(t, "s3"@) || lowercases_to(t, "r2"@) {
                Some(StorageBackend::S3)
            } else {
                None
            }
        },
    }
}

/// The origin mode that `ORIGIN_MODE` names, trimmed and compared without
/// case: unset, empty or `remote`, or `bucket`; `None` for any other value.
pub open spec fn spec_origin_mode(v: Option<Seq<char>>) -> Option<OriginMode> {
    match v {
        None => Some(OriginMode::Remote),
        Some(s) => {
            let t = trim(s);
            if t.len() == 0 || lowercases_to(t, "remote"@) {
                Some(OriginMode::Remote)
            } else if lowercases_to(t, "bucket"@) {
                Some(OriginMode::Bucket)
            } else {
                None
            }
        },
    }
}

/// `ORIGIN_MODE` unset, blank, or `remote` in any case (around any
/// whitespace) is the remote mode, the default; `bucket` in any case is the
/// bucket mode.
pub proof fn law_origin_mode_names(s: Seq<char>)
    ensures
        spec_origin_mode(None) == Some(OriginMode::Remote),
        trim(s).len() == 0 ==> spec_origin_mode(Some(s)) == Some(OriginMode::Remote),
        lowercases_to(trim(s), "remote"@) ==> spec_origin_mode(Some(s)) == Some(OriginMode::Remote),
        lowercases_to(trim(s), "bucket"@) ==> spec_origin_mode(Some(s)) == Some(OriginMode::Bucket),
{
    reveal_strlit("remote");
    reveal_strlit("bucket");
    let t = trim(s);
    if lowercases_to(t, "bucket"@) && lowercases_to(t, "remote"@) {
        assert(lowercase_char_is(t[0], "bucket"@[0]));
        assert(lowercase_char_is(t[0], "remote"@[0]));
    }
}

/// `STORAGE_BACKEND` unset, blank, or `local` in any case is the local
/// store, the default; `s3` or `r2` in any case is a bucket.
pub proof fn law_storage_backend_names(s: Seq<char>)
    ensures
        spec_storage_backend(None) == Some(StorageBackend::Local),
        trim(s).len() == 0 ==> spec_storage_backend(Some(s)) == Some(StorageBackend::Local),
        lowercases_to(trim(s), "local"@) ==> spec_storage_backend(Some(s)) == Some(
            StorageBackend::Local,
        ),
        lowercases_to(trim(s), "s3"@) ==> spec_storage_backend(Some(s)) == Some(StorageBackend::S3),
        lowercases_to(trim(s), "r2"@) ==> spec_storage_backend(Some(s)) == Some(StorageBackend::S3),
{
    reveal_strlit("local");
    reveal_strlit("s3");
    reveal_strlit("r2");
}

/// An optional positive dimension: unset, unparseable or zero means no
/// limit.
pub open spec fn spec_dimension(v: Option<Seq<char>>) -> Option<u32> {
    match v {
        Some(s) => match parse_unsigned(trim(s), u32::MAX as nat) {
            Some(n) => if n > 0 {
                Some(n as u32)
            } else {
                None
            },
            None => None,
        },
        None => None,
    }
}

/// Path-style addressing: on unless `S3_FORCE_PATH_STYLE` is `false` in any
/// case.
pub open spec fn spec_force_path_style(v: Option<Seq<char>>) -> bool {
    match v {
        Some(s) => !lowercases_to(s, "false"@),
        None => true,
    }
}

/// The configuration can be built from `vars`: both choices are valid, and
/// the S3 backend has its bucket and credentials.
pub open spec fn env_ok(vars: EnvVars) -> bool {
    &&& spec_storage_backend(opt_view(vars.storage_backend)) is Some
    &&& spec_origin_mode(opt_view(vars.origin_mode)) is Some
    &&& spec_storage_backend(opt_view(vars.storage_backend)) == Some(StorageBackend::S3) ==> {
        &&& vars.s3_bucket is Some
        &&& vars.s3_access_key_id is Some
        &&& vars.s3_secret_access_key is Some
    }
}

/// The directory the local store keeps its files in where `CDN_ROOT` is
/// unset.
pub open spec fn default_cdn_root() -> Seq<char> {
    "cdn_root"@
}

/// Reads an optional positive dimension (`IMAGE_MAX_WIDTH`,
/// `IMAGE_MAX_HEIGHT`).
pub fn optional_dimension(v: &Option<String>) -> (r: Option<u32>)
    ensures
        r == spec_dimension(opt_view(*v)),
{
    match v {
        Some(s) => {
            let cs = chars_of(s.as_str());
            let t = trim_chars(&cs);
            let n = parse_unsigned_range(&t, 0, t.len(), u32::MAX);
            assert(t@.subrange(0, t@.len() as int) == t@);
            match n {
                Some(n) => if n > 0 {
                    Some(n)
                } else {
                    None
                },
                None => None,
            }
        },
        None => None,
    }
}

/// Reads `PORT`.
pub fn parse_port(v: &Option<String>) -> (r: u16)
    ensures
        r == spec_port(opt_view(*v)),
{
    match v {
        Some(s) => {
            let cs = chars_of(s.as_str());
            assert(cs@.subrange(0, cs@.len() as int) == cs@);
            match parse_unsigned_range(&cs, 0, cs.len(), 65535) {
                Some(n) => n as u16,
                None => 41890,
            }
        },
        None => 41890,
    }
}

/// Reads `ALLOWED_HOSTS`.
#[verifier::spinoff_prover]
#[verifier::rlimit(40)]
pub fn parse_allowed_hosts(v: &Option<String>) -> (r: Vec<String>)
    ensures
        strings_view(r@) == spec_allowed_hosts(opt_view(*v)),
{
    let mut out: Vec<String> = Vec::new();
    match v {
        Some(s) => {
            let cs = chars_of(s.as_str());
            if cs.len() == 0 {
                return out;
            }
            let ps = split_chars(&cs, ',');
            let mut i: usize = 0;
            while i < ps.len()
                invariant
                    i <= ps.len(),
                    strings_view(out@) == trimmed_nonempty(pieces(ps@).take(i as int)),
                decreases ps.len() - i,
            {
                let t = trim_chars(&ps[i]);
                assert(pieces(ps@).take(i + 1).drop_last() == pieces(ps@).take(i as int));
                assert(pieces(ps@).take(i + 1).last() == ps@[i as int]@);
                if t.len() > 0 {
                    let ghost before = out@;
                    out.push(string_of(&t));
                    assert(strings_view(out@) == strings_view(before).push(t@));
                }
                i = i + 1;
            }
            assert(pieces(ps@).take(ps.len() as int) == pieces(ps@));
            out
        },
        None => out,
    }
}

/// Reads `STORAGE_BACKEND`.
pub fn parse_storage_backend(v: &Option<String>) -> (r: Option<StorageBackend>)
    ensures
        r == spec_storage_backend(opt_view(*v)),
{
    match v {
        None => Some(StorageBackend::Local),
        Some(s) => {
            let cs = chars_of(s.as_str());
            let t = trim_chars(&cs);
            if t.len() == 0 || lowercases_to_word(&t, &chars_of("local")) {
                Some(StorageBackend::Local)
            } else if lowercases_to_word(&t, &chars_of("s3")) || lowercases_to_word(
                &t,
                &chars_of("r2"),
            ) {
                Some(StorageBackend::S3)
            } else {
                None
            }
        },
    }
}

/// Reads `ORIGIN_MODE`.
pub fn parse_origin_mode(v: &Option<String>) -> (r: Option<OriginMode>)
    ensures
        r == spec_origin_mode(opt_view(*v)),
{
    match v {
        None => Some(OriginMode::Remote),
        Some(s) => {
            let cs = chars_of(s.as_str());
            let t = trim_chars(&cs);
            if t.len() == 0 || lowercases_to_word(&t, &chars_of("remote")) {
                Some(OriginMode::Remote)
            } else if lowercases_to_word(&t, &chars_of("bucket")) {
                Some(OriginMode::Bucket)
            } else {
                None
            }
        },
    }
}

/// Reads `S3_FORCE_PATH_STYLE`.
pub fn parse_force_path_style(v: &Option<String>) -> (r: bool)
    ensures
        r == spec_force_path_style(opt_view(*v)),
{
    match v {
        Some(s) => !lowercases_to_word(&chars_of(s.as_str()), &chars_of("false")),
        None => true,
    }
}

fn trimmed_string(s: &String) -> (r: String)
    ensures
        r@ == trim(s@),
{
    let t = trim_chars(&chars_of(s.as_str()));
    string_of(&t)
}

fn clone_opt(v: &Option<String>) -> (r: Option<String>)
    ensures
        r == *v,
{
    match v {
        Some(s) => Some(s.clone()),
        None => None,
    }
}

fn string_or(v: &Option<String>, default: &str) -> (r: String)
    ensures
        r@ == match *v {
            Some(s) => s@,
            None => default@,
        },
{
    match v {
        Some(s) => s.clone(),
        None => String::from_str(default),
    }
}

impl Env {
    /// The configuration that the environment variables `vars` describe.
    ///
    /// Fails on a `STORAGE_BACKEND` or `ORIGIN_MODE` it does not know, in
    /// that order, and, for the S3 backend, on a missing bucket, access key
    /// id or secret access key, in that order.
    pub fn new(vars: &EnvVars) -> (r: Result<Env, EnvError>)
        ensures
            r is Ok <==> env_ok(*vars),
            r matches Ok(env) ==> {
                &&& env.address@ == match vars.bind_address {
                    Some(a) => a@,
                    None => "127.0.0.1"@,
                }
                &&& env.port == spec_port(opt_view(vars.port))
                &&& env.host@ == match vars.host {
                    Some(h) => h@,
                    None => "http://localhost/"@,
                }
                &&& strings_view(env.allowed_hosts@) == spec_allowed_hosts(
                    opt_view(vars.allowed_hosts),
                )
                &&& Some(env.storage_backend) == spec_storage_backend(
                    opt_view(vars.storage_backend),
                )
                &&& Some(env.origin_mode) == spec_origin_mode(opt_view(vars.origin_mode))
                &&& env.image_limits.max_width == spec_dimension(opt_view(vars.image_max_width))
                &&& env.image_limits.max_height == spec_dimension(
                    opt_view(vars.image_max_height),
                )
                &&& env.cdn_root@ == match vars.cdn_root {
                    Some(c) => c@,
                    None => default_cdn_root(),
                }
                &&& (env.storage_backend == StorageBackend::S3) == (env.s3 is Some)
                &&& env.s3 matches Some(s3) ==> {
                    &&& s3.endpoint == match vars.s3_endpoint {
                        Some(e) => if e@.len() > 0 {
                            Some(e)
                        } else {
                            None
                        },
                        None => None,
                    }
                    &&& s3.region@ == match vars.s3_region {
                        Some(g) => g@,
                        None => "auto"@,
                    }
                    &&& Some(s3.bucket) == vars.s3_bucket
                    &&& Some(s3.access_key_id) == vars.s3_access_key_id
                    &&& Some(s3.secret_access_key) == vars.s3_secret_access_key
                    &&& s3.force_path_style == spec_force_path_style(
                        opt_view(vars.s3_force_path_style),
                    )
                }
            },
            r matches Err(e) ==> match e {
                EnvError::InvalidStorageBackend(v) => spec_storage_backend(
                    opt_view(vars.storage_backend),
                ) is None && (vars.storage_backend matches Some(s) && v@ == trim(s@)),
                EnvError::InvalidOriginMode(v) => spec_storage_backend(
                    opt_view(vars.storage_backend),
                ) is Some && spec_origin_mode(opt_view(vars.origin_mode)) is None
                    && (vars.origin_mode matches Some(s) && v@ == trim(s@)),
                EnvError::MissingS3Bucket => vars.s3_bucket is None,
                EnvError::MissingS3AccessKeyId => vars.s3_bucket is Some
                    && vars.s3_access_key_id is None,
                EnvError::MissingS3SecretAccessKey => vars.s3_bucket is Some
                    && vars.s3_access_key_id is Some && vars.s3_secret_access_key is None,
            },
    {
        let address = string_or(&vars.bind_address, "127.0.0.1");
        let port = parse_port(&vars.port);
        let host = string_or(&vars.host, "http://localhost/");
        let allowed_hosts = parse_allowed_hosts(&vars.allowed_hosts);
        let storage_backend = match parse_storage_backend(&vars.storage_backend) {
            Some(b) => b,
            None => {
                let v = match &vars.storage_backend {
                    Some(s) => trimmed_string(s),
                    None => String::new(),
                };
                return Err(EnvError::InvalidStorageBackend(v));
            },
        };
        let origin_mode = match parse_origin_mode(&vars.origin_mode) {
            Some(m) => m,
            None => {
                let v = match &vars.origin_mode {
                    Some(s) => trimmed_string(s),
                    None => String::new(),
                };
                return Err(EnvError::InvalidOriginMode(v));
            },
        };
        let s3 = match storage_backend {
            StorageBackend::S3 => {
                let endpoint = match &vars.s3_endpoint {
                    Some(e) => if e.as_str().is_empty() {
                        None
                    } else {
                        Some(e.clone())
                    },
                    None => None,
                };
                let region = string_or(&vars.s3_region, "auto");
                let bucket = match clone_opt(&vars.s3_bucket) {
                    Some(b) => b,
                    None => return Err(EnvError::MissingS3Bucket),
                };
                let access_key_id = match clone_opt(&vars.s3_access_key_id) {
                    Some(k) => k,
                    None => return Err(EnvError::MissingS3AccessKeyId),
                };
                let secret_access_key = match clone_opt(&vars.s3_secret_access_key) {
                    Some(k) => k,
                    None => return Err(EnvError::MissingS3SecretAccessKey),
                };
                Some(
                    S3Env {
                        endpoint,
                        region,
                        bucket,
                        access_key_id,
                        secret_access_key,
                        force_path_style: parse_force_path_style(&vars.s3_force_path_style),
                    },
                )
            },
            StorageBackend::Local => None,
        };
        let cdn_root = string_or(&vars.cdn_root, "cdn_root");
        let image_limits = ImageLimits {
            max_width: optional_dimension(&vars.image_max_width),
            max_height: optional_dimension(&vars.image_max_height),
        };
        Ok(
            Env {
                address,
                port,
                host,
                allowed_hosts,
                storage_backend,
                origin_mode,
                s3,
                image_limits,
                cdn_root,
            },
        )
    }
}

} // verus!
