//! The state every request handler shares, and the store it is built with.
use super::app::{Env, ImageLimits, OriginMode, S3Env, StorageBackend};
use crate::storage::s3::S3Config;
use crate::text::chars_of;
use vstd::prelude::*;

verus! {

/// The shared state of the server: the default origin, the address it binds,
/// the origins a request may name, where originals come from, the image
/// limits, and the store (of whatever kind the server runs with).
pub struct AppState<S> {
    pub host: String,
    pub port: u16,
    pub address: String,
    pub allowed_hosts: Vec<String>,
    pub origin_mode: OriginMode,
    pub image_limits: ImageLimits,
    pub storage: S,
}

/// A request may name `host` as its origin: no list of allowed hosts is
/// configured, or `host` is on it.
pub open spec fn host_allowed(allowed: Seq<String>, host: Seq<char>) -> bool {
    allowed.len() == 0 || exists|i: int| 0 <= i < allowed.len() && #[trigger] allowed[i]@ == host
}

/// The allow list is a set of hosts: with no list every host is allowed;
/// with one, every host on it is allowed, wherever it stands, and every
/// other host is refused.
pub proof fn law_allow_list_is_membership(allowed: Seq<String>, host: Seq<char>, i: int)
    ensures
        allowed.len() == 0 ==> host_allowed(allowed, host),
        0 <= i < allowed.len() ==> host_allowed(allowed, allowed[i]@),
        (allowed.len() > 0 && forall|j: int| 0 <= j < allowed.len() ==> allowed[j]@ != host)
            ==> !host_allowed(allowed, host),
{
}

impl<S> AppState<S> {
    /// The state for the configuration `env` and the store `storage`.
    pub fn from_env(env: Env, storage: S) -> (r: AppState<S>)
        ensures
            r.host == env.host,
            r.port == env.port,
            r.address == env.address,
            r.allowed_hosts == env.allowed_hosts,
            r.origin_mode == env.origin_mode,
            r.image_limits == env.image_limits,
            r.storage == storage,
    {
        AppState {
            host: env.host,
            port: env.port,
            address: env.address,
            allowed_hosts: env.allowed_hosts,
            origin_mode: env.origin_mode,
            image_limits: env.image_limits,
            storage,
        }
    }

    /// Whether a request may name `host` as its origin.
    pub fn is_host_allowed(&self, host: &str) -> (r: bool)
        ensures
            r == host_allowed(self.allowed_hosts@, host@),
    {
        if self.allowed_hosts.len() == 0 {
            return true;
        }
        let h = chars_of(host);
        let mut i: usize = 0;
        while i < self.allowed_hosts.len()
            invariant
                i <= self.allowed_hosts.len(),
                h@ == host@,
                forall|j: int| 0 <= j < i ==> self.allowed_hosts@[j]@ != host@,
            decreases self.allowed_hosts.len() - i,
        {
            let a = chars_of(self.allowed_hosts[i].as_str());
            if crate::text::chars_eq(&a, &h) {
                return true;
            }
            i = i + 1;
        }
        false
    }
}

/// The store a server is built with.
#[derive(Clone, Debug)]
pub enum StoreConfig {
    /// Files under a local directory.
    Local { root: String },
    /// Objects in an S3-compatible bucket.
    S3(S3Config),
}

/// The bucket configuration for the S3 settings `s`, field for field.
pub open spec fn s3_config_of(s: S3Env) -> S3Config {
    S3Config {
        endpoint: s.endpoint,
        region: s.region,
        bucket: s.bucket,
        access_key_id: s.access_key_id,
        secret_access_key: s.secret_access_key,
        force_path_style: s.force_path_style,
    }
}

/// The store the configuration asks for: its cache directory for the local
/// backend, else the bucket its S3 settings describe.
pub fn storage_config(env: &Env) -> (r: StoreConfig)
    requires
        env.storage_backend == StorageBackend::S3 ==> env.s3 is Some,
    ensures
        env.storage_backend == StorageBackend::Local ==> r == (StoreConfig::Local {
            root: env.cdn_root,
        }),
        env.storage_backend == StorageBackend::S3 ==> r == StoreConfig::S3(
            s3_config_of(env.s3.unwrap()),
        ),
{
    match env.storage_backend {
        StorageBackend::Local => StoreConfig::Local { root: env.cdn_root.clone() },
        StorageBackend::S3 => {
            let s = env.s3.as_ref().unwrap();
            let endpoint = match &s.endpoint {
                Some(e) => Some(e.clone()),
                None => None,
            };
            StoreConfig::S3(
                S3Config {
                    endpoint,
                    region: s.region.clone(),
                    bucket: s.bucket.clone(),
                    access_key_id: s.access_key_id.clone(),
                    secret_access_key: s.secret_access_key.clone(),
                    force_path_style: s.force_path_style,
                },
            )
        },
    }
}

} // verus!
