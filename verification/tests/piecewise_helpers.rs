use rustyfiles::utils::{get_original_path, get_resize_width_from_path};

#[test]
fn first_w_piece_decides_the_width() {
    assert_eq!(get_resize_width_from_path("/a.w100.jpg"), Some(100));
    assert_eq!(get_resize_width_from_path("/a.with.w200.jpg"), None);
    assert_eq!(get_resize_width_from_path("/a.w+7.jpg"), Some(7));
    assert_eq!(get_resize_width_from_path("/a.jpg"), None);
}

#[test]
fn original_path_drops_the_second_to_last_piece() {
    assert_eq!(get_original_path("/a/b.w100.jpg", false), "/a/b.jpg");
    assert_eq!(get_original_path("/a/b.jpg", false), ".jpg");
    assert_eq!(get_original_path("/a/b.w100.jpg", true), "/a/b.w100.jpg");
}
