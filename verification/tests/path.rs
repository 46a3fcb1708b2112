use rustyfiles::utils::path::{get_original_path, get_resize_width_from_path, object_key, parse_path};

#[test]
fn test_object_key() {
    // Remote (read-through cache): host segment disambiguates upstreams.
    assert_eq!(
        object_key("images", "example.com", "/photo.png", true),
        "images/example.com/photo.png"
    );
    assert_eq!(
        object_key("files", "example.com", "doc.pdf", true),
        "files/example.com/doc.pdf"
    );

    // Bucket-origin: no upstream, host segment dropped.
    assert_eq!(
        object_key("images", "example.com", "/photo.png", false),
        "images/photo.png"
    );
    assert_eq!(
        object_key("files", "example.com", "doc.pdf", false),
        "files/doc.pdf"
    );

    // Leading slash on path is normalized away in both modes.
    assert_eq!(
        object_key("images", "h", "///nested/a.png", true),
        "images/h/nested/a.png"
    );
}

#[test]
fn test_get_resize_width_from_path() {
    assert_eq!(
        get_resize_width_from_path("/path/to/file.w100.jpg"),
        Some(100)
    );
    assert_eq!(
        get_resize_width_from_path("/path/to/file.with.dot.w200.jpg"),
        Some(200)
    );
    assert_eq!(
        get_resize_width_from_path("/path/to/file.with.dot.w200w.jpg"),
        None
    );
    assert_eq!(
        get_resize_width_from_path("/path/to/file.with.dot.w300.jpg.webp"),
        Some(300)
    );
    assert_eq!(
        get_resize_width_from_path("/path/to/file.with.dot.300.jpg.webp"),
        None
    );
    assert_eq!(get_resize_width_from_path("/path/to/file.jpg"), None);
    assert_eq!(
        get_resize_width_from_path("/path/to/file.with.dot.jpg"),
        None
    );
}

#[test]
fn test_get_original_path() {
    let paths = vec![
        ["/path/to/file.w100.jpg", "/path/to/file.jpg"],
        ["/path/to/webp.w100.jpg.webp", "/path/to/webp.jpg"],
        ["/path/to/avif.w100.jpg.avif", "/path/to/avif.jpg"],
        [
            "/path/to/file.with.dot.w100.jpg",
            "/path/to/file.with.dot.jpg",
        ],
        [
            "/path/to/webp.with.dot.w100.jpg.webp",
            "/path/to/webp.with.dot.jpg",
        ],
        [
            "/path/to/avif.with.dot.w100.jpg.avif",
            "/path/to/avif.with.dot.jpg",
        ],
        ["/path/to/file.jpg", "/path/to/file.jpg"],
        ["/path/to/file.with.dot.jpg", "/path/to/file.with.dot.jpg"],
        [
            "/path/to/webp.with.dot.jpg.webp",
            "/path/to/webp.with.dot.jpg",
        ],
        [
            "/path/to/avif.with.dot.jpg.avif",
            "/path/to/avif.with.dot.jpg",
        ],
    ];

    for (_, path) in paths.iter().enumerate() {
        assert_eq!(
            get_original_path(path[0], get_resize_width_from_path(path[0]).is_some()),
            path[1]
        );
    }
}

#[test]
fn test_parse_path() {
    assert_eq!(
        parse_path("https://example.com/images/w100/path/to/image.jpg"),
        (
            Some("https://example.com".to_string()),
            "/images/w100/path/to/image.jpg".to_string()
        )
    );
    assert_eq!(
        parse_path("https://example.com/"),
        (Some("https://example.com".to_string()), "/".to_string())
    );
    assert_eq!(
        parse_path("https://example.com"),
        (Some("https://example.com".to_string()), "/".to_string())
    );
    assert_eq!(
        parse_path("/images/w100/path/to/image.jpg"),
        (None, "/images/w100/path/to/image.jpg".to_string())
    );
    assert_eq!(
        parse_path("images/w100/path/to/image.jpg"),
        (None, "/images/w100/path/to/image.jpg".to_string())
    );
}

#[test]
fn resize_width_edge_cases() {
    // The width piece must be `w` and digits only, and fit in a u32.
    assert_eq!(get_resize_width_from_path("/a.w.jpg"), None);
    assert_eq!(get_resize_width_from_path("/a.w+5.jpg"), None);
    assert_eq!(get_resize_width_from_path("/a.w4294967295.jpg"), Some(4294967295));
    assert_eq!(get_resize_width_from_path("/a.w4294967296.jpg"), None);
    assert_eq!(get_resize_width_from_path("/a.w٣.jpg"), None);
    // The first piece that asks for a width decides.
    assert_eq!(get_resize_width_from_path("/a.w10.w20.jpg"), Some(10));
    assert_eq!(get_resize_width_from_path("/a.wx.w20.jpg"), Some(20));
    assert_eq!(get_resize_width_from_path(""), None);
}

#[test]
fn original_path_without_directory() {
    assert_eq!(get_original_path("photo.w10.png", true), "photo.png");
    assert_eq!(get_original_path("photo.png.webp", false), "photo.png");
    assert_eq!(get_original_path("/dir.with.dots/photo", false), "/dir.with.dots/photo");
}

#[test]
fn parse_path_keeps_every_character() {
    let (host, path) = parse_path("http://h:8080/a/b?c=d");
    assert_eq!(host, Some("http://h:8080".to_string()));
    assert_eq!(path, "/a/b?c=d");
    let (host, path) = parse_path("");
    assert_eq!(host, None);
    assert_eq!(path, "/");
}

#[test]
fn object_key_keeps_inner_slashes() {
    assert_eq!(object_key("files", "h", "/a//b/", true), "files/h/a//b/");
    assert_eq!(object_key("files", "h", "", false), "files/");
}
