use rustyfiles::utils::http::{cache_control_value, error_response};

#[test]
fn test_get_cache_header() {
    assert_eq!(cache_control_value(100), "public, max-age=100");
}

#[test]
fn test_get_cache_header_with_falsy_age() {
    assert_eq!(cache_control_value(0), "no-cache");
}

#[test]
fn http_test_response_error() {
    let response = error_response(404);
    assert_eq!(response.status, 404);
}

#[test]
fn test_response_error_with_cache() {
    let response = error_response(404);
    assert_eq!(response.cache_control, "no-cache");
}

#[test]
fn cache_header_for_a_year() {
    assert_eq!(cache_control_value(31536000), "public, max-age=31536000");
    assert_eq!(cache_control_value(u32::MAX), "public, max-age=4294967295");
    assert_eq!(cache_control_value(7), "public, max-age=7");
}
