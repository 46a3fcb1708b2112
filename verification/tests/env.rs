use rustyfiles::env::app::{
    optional_dimension, parse_allowed_hosts, Env, EnvError, EnvVars, ImageLimits, OriginMode,
    StorageBackend,
};
use rustyfiles::env::state::{storage_config, AppState, StoreConfig};

fn unset() -> EnvVars {
    EnvVars {
        bind_address: None,
        port: None,
        host: None,
        allowed_hosts: None,
        storage_backend: None,
        origin_mode: None,
        s3_endpoint: None,
        s3_region: None,
        s3_bucket: None,
        s3_access_key_id: None,
        s3_secret_access_key: None,
        s3_force_path_style: None,
        image_max_width: None,
        image_max_height: None,
        cdn_root: None,
    }
}

fn s(v: &str) -> Option<String> {
    Some(v.to_string())
}

#[test]
fn defaults_when_nothing_is_set() {
    let env = Env::new(&unset()).unwrap();
    assert_eq!(env.address, "127.0.0.1");
    assert_eq!(env.port, 41890);
    assert_eq!(env.host, "http://localhost/");
    assert!(env.allowed_hosts.is_empty());
    assert_eq!(env.storage_backend, StorageBackend::Local);
    assert_eq!(env.origin_mode, OriginMode::Remote);
    assert!(env.s3.is_none());
    assert_eq!(env.image_limits, ImageLimits::default());
}

#[test]
fn reads_every_variable() {
    let mut vars = unset();
    vars.bind_address = s("0.0.0.0");
    vars.port = s("8080");
    vars.host = s("https://example.com/");
    vars.allowed_hosts = s(" a.com, ,b.com ,");
    vars.storage_backend = s("  R2 ");
    vars.origin_mode = s("Bucket");
    vars.s3_endpoint = s("");
    vars.s3_bucket = s("b");
    vars.s3_access_key_id = s("k");
    vars.s3_secret_access_key = s("SECRET-REDACTED");
    vars.s3_force_path_style = s("FALSE");
    vars.image_max_width = s(" 640 ");
    vars.image_max_height = s("0");
    let env = Env::new(&vars).unwrap();
    assert_eq!(env.address, "0.0.0.0");
    assert_eq!(env.port, 8080);
    assert_eq!(env.host, "https://example.com/");
    assert_eq!(env.allowed_hosts, vec!["a.com".to_string(), "b.com".to_string()]);
    assert_eq!(env.storage_backend, StorageBackend::S3);
    assert_eq!(env.origin_mode, OriginMode::Bucket);
    let s3 = env.s3.unwrap();
    assert_eq!(s3.endpoint, None);
    assert_eq!(s3.region, "auto");
    assert_eq!(s3.bucket, "b");
    assert_eq!(s3.access_key_id, "k");
    assert_eq!(s3.secret_access_key, "SECRET-REDACTED");
    assert!(!s3.force_path_style);
    assert_eq!(env.image_limits.max_width, Some(640));
    assert_eq!(env.image_limits.max_height, None);
}

#[test]
fn unparseable_port_falls_back() {
    let mut vars = unset();
    vars.port = s("65536");
    assert_eq!(Env::new(&vars).unwrap().port, 41890);
    vars.port = s("+80");
    assert_eq!(Env::new(&vars).unwrap().port, 80);
    vars.port = s(" 80");
    assert_eq!(Env::new(&vars).unwrap().port, 41890);
}

#[test]
fn refuses_unknown_choices() {
    let mut vars = unset();
    vars.storage_backend = s(" gcs ");
    vars.origin_mode = s("nowhere");
    match Env::new(&vars) {
        Err(EnvError::InvalidStorageBackend(v)) => assert_eq!(v, "gcs"),
        other => panic!("unexpected {other:?}"),
    }
    vars.storage_backend = s("LOCAL");
    match Env::new(&vars) {
        Err(EnvError::InvalidOriginMode(v)) => assert_eq!(v, "nowhere"),
        other => panic!("unexpected {other:?}"),
    }
    vars.origin_mode = s("BUC\u{212A}ET");
    assert_eq!(Env::new(&vars).unwrap().origin_mode, OriginMode::Bucket);
}

#[test]
fn s3_needs_its_credentials() {
    let mut vars = unset();
    vars.storage_backend = s("s3");
    assert!(matches!(Env::new(&vars), Err(EnvError::MissingS3Bucket)));
    vars.s3_bucket = s("b");
    assert!(matches!(Env::new(&vars), Err(EnvError::MissingS3AccessKeyId)));
    vars.s3_access_key_id = s("k");
    assert!(matches!(Env::new(&vars), Err(EnvError::MissingS3SecretAccessKey)));
    vars.s3_secret_access_key = s("x");
    vars.s3_endpoint = s("https://r2.example");
    vars.s3_region = s("eu");
    let s3 = Env::new(&vars).unwrap().s3.unwrap();
    assert_eq!(s3.endpoint, s("https://r2.example"));
    assert_eq!(s3.region, "eu");
    assert!(s3.force_path_style);
}

#[test]
fn dimensions_and_hosts() {
    assert_eq!(optional_dimension(&s("\u{3000}12\t")), Some(12));
    assert_eq!(optional_dimension(&s("-1")), None);
    assert_eq!(optional_dimension(&None), None);
    assert!(parse_allowed_hosts(&s("")).is_empty());
    assert_eq!(parse_allowed_hosts(&s("x")), vec!["x".to_string()]);
}

#[test]
fn host_allow_list() {
    let mut state = AppState {
        host: "https://example.com/".to_string(),
        port: 0,
        address: "127.0.0.1".to_string(),
        allowed_hosts: Vec::new(),
        origin_mode: OriginMode::Remote,
        image_limits: ImageLimits::default(),
        storage: (),
    };
    assert!(state.is_host_allowed("https://anything"));
    state.allowed_hosts = vec!["https://a.com".to_string()];
    assert!(state.is_host_allowed("https://a.com"));
    assert!(!state.is_host_allowed("https://b.com"));
}

#[test]
fn state_from_configuration() {
    let env = Env::new(&unset()).unwrap();
    let state = AppState::from_env(env, 7u8);
    assert_eq!(state.host, "http://localhost/");
    assert_eq!(state.port, 41890);
    assert_eq!(state.address, "127.0.0.1");
    assert!(state.allowed_hosts.is_empty());
    assert_eq!(state.origin_mode, OriginMode::Remote);
    assert_eq!(state.storage, 7u8);
}

#[test]
fn store_follows_the_backend() {
    let env = Env::new(&unset()).unwrap();
    match storage_config(&env) {
        StoreConfig::Local { root } => assert_eq!(root, "cdn_root"),
        other => panic!("unexpected {other:?}"),
    }
    let mut vars = unset();
    vars.cdn_root = s("/var/cache/cdn");
    let env = Env::new(&vars).unwrap();
    assert_eq!(env.cdn_root, "/var/cache/cdn");
    match storage_config(&env) {
        StoreConfig::Local { root } => assert_eq!(root, "/var/cache/cdn"),
        other => panic!("unexpected {other:?}"),
    }
    let mut vars = unset();
    vars.storage_backend = s("r2");
    vars.s3_bucket = s("b");
    vars.s3_access_key_id = s("k");
    vars.s3_secret_access_key = s("x");
    vars.s3_region = s("auto");
    vars.s3_force_path_style = s("false");
    let env = Env::new(&vars).unwrap();
    match storage_config(&env) {
        StoreConfig::S3(c) => {
            assert_eq!(c.endpoint, None);
            assert_eq!(c.region, "auto");
            assert_eq!(c.bucket, "b");
            assert_eq!(c.access_key_id, "k");
            assert_eq!(c.secret_access_key, "x");
            assert!(!c.force_path_style);
        }
        other => panic!("unexpected {other:?}"),
    }
}
