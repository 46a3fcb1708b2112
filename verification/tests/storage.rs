use rustyfiles::storage::local::{local_served_headers, map_io, to_other, LocalStorage};
use rustyfiles::storage::s3::{
    exists_from_head, map_get_err, normalize_key, s3_served_headers, served_content_type,
    upload_content_type,
    HeadOutcome,
};
use rustyfiles::storage::{map_storage_err, StorageError};

#[test]
fn put_get_roundtrip_under_root() {
    let storage = LocalStorage::new("/tmp/root".to_string());
    let key = "files/example.com/docs/a.txt";
    assert_eq!(
        storage.resolve(key),
        Some("/tmp/root/files/example.com/docs/a.txt".to_string())
    );
}

/// A leading slash is normalized away rather than treated as an absolute
/// path that would escape the root.
#[test]
fn leading_slash_is_normalized() {
    let storage = LocalStorage::new("/tmp/root/".to_string());
    assert_eq!(
        storage.resolve("/files/h/a.txt"),
        Some("/tmp/root/files/h/a.txt".to_string())
    );
}

/// `..` segments must not let a read escape the cache root.
#[test]
fn traversal_read_is_rejected() {
    let storage = LocalStorage::new("/tmp/root".to_string());
    for key in [
        "files/h/../../../../../../../../etc/passwd",
        "../../../../etc/passwd",
        "files/../../secret",
    ] {
        assert!(
            matches!(storage.locate(key), Err(StorageError::NotFound)),
            "every operation must reject traversal key {key:?}"
        );
    }
}

/// `..` must not let a write escape the cache root.
#[test]
fn traversal_write_is_rejected() {
    let storage = LocalStorage::new("/tmp/root".to_string());
    let result = storage.locate("files/h/../../../../pwned.txt");
    assert!(matches!(result, Err(StorageError::NotFound)));
}

#[test]
fn dotted_names_are_not_traversal() {
    let storage = LocalStorage::new("".to_string());
    assert_eq!(storage.resolve("a/..b/c.."), Some("a/..b/c..".to_string()));
    assert_eq!(storage.resolve("/.."), None);
}

#[test]
fn storage_errors_answer_statuses() {
    assert_eq!(map_storage_err(&StorageError::NotFound), 404);
    assert_eq!(map_storage_err(&StorageError::Other("x".into())), 500);
    assert_eq!(StorageError::NotFound.message(), "not found");
    assert_eq!(StorageError::Other("disk".into()).message(), "disk");
    assert!(matches!(map_io(true, "gone".into()), StorageError::NotFound));
    assert!(matches!(map_io(false, "perm".into()), StorageError::Other(m) if m == "perm"));
    assert!(matches!(to_other("e".into()), StorageError::Other(m) if m == "e"));
}

#[test]
fn s3_keys_and_outcomes() {
    assert_eq!(normalize_key("//images/a.png"), "images/a.png");
    assert!(matches!(exists_from_head(HeadOutcome::Found), Ok(true)));
    assert!(matches!(exists_from_head(HeadOutcome::Missing), Ok(false)));
    assert!(matches!(
        exists_from_head(HeadOutcome::Failed("x".into())),
        Err(StorageError::Other(m)) if m == "x"
    ));
    assert!(matches!(map_get_err(true, "x".into()), StorageError::NotFound));
    assert!(matches!(map_get_err(false, "x".into()), StorageError::Other(_)));
}

#[test]
fn served_content_types() {
    assert_eq!(served_content_type(None, "images/a.png"), "image/png");
    assert_eq!(served_content_type(None, "files/a.unknownext"), "application/octet-stream");
    assert_eq!(served_content_type(Some("text/css".into()), "a.png"), "text/css");
    assert_eq!(
        served_content_type(Some("bad\nvalue".into()), "a.png"),
        "application/octet-stream"
    );
}

#[test]
fn upload_content_types() {
    assert_eq!(upload_content_type("images/a.png"), "image/png");
    assert_eq!(upload_content_type("files/s.css"), "text/css");
    assert_eq!(upload_content_type("files/noext"), "application/octet-stream");
}

#[test]
fn descending_before_climbing_stays_under_root() {
    let storage = LocalStorage::new("/tmp/root".to_string());
    assert_eq!(
        storage.resolve("files/h/a/../b.txt"),
        Some("/tmp/root/files/h/a/../b.txt".to_string())
    );
    assert_eq!(storage.resolve("./files//x/.."), Some("/tmp/root/./files//x/..".to_string()));
    assert_eq!(storage.resolve("./../x"), None);
    assert_eq!(storage.resolve("a/../../x"), None);
    assert!(matches!(storage.locate("a/b/../../../x"), Err(StorageError::NotFound)));
}

#[test]
fn served_headers() {
    let h = s3_served_headers(None, "images/a.png");
    assert_eq!(h.cache_control, "public, max-age=31536000");
    assert_eq!(h.content_type, "image/png");
    let h = s3_served_headers(Some("bad\nvalue".to_string()), "images/a.png");
    assert_eq!(h.content_type, "application/octet-stream");
    let h = s3_served_headers(Some("text/css".to_string()), "images/a.png");
    assert_eq!(h.content_type, "text/css");
    let h = local_served_headers("cdn_root/files/h/s.css");
    assert_eq!(h.cache_control, "public, max-age=31536000");
    assert_eq!(h.content_type, "text/css");
}

#[test]
fn serving_a_missing_s3_key_is_not_found() {
    assert!(matches!(map_get_err(true, "NoSuchKey".to_string()), StorageError::NotFound));
}
