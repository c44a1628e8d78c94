use edgelet_settings::error::{bad_request, not_found, server_error};

#[test]
fn bad_request_is_400_with_message() {
    let e = bad_request("x");
    assert_eq!(e.status_code, 400);
    assert_eq!(e.message, "x");
}

#[test]
fn not_found_is_404_with_message() {
    let e = not_found("y");
    assert_eq!(e.status_code, 404);
    assert_eq!(e.message, "y");
}

#[test]
fn server_error_is_500_with_message() {
    let e = server_error("z");
    assert_eq!(e.status_code, 500);
    assert_eq!(e.message, "z");
}

#[test]
fn empty_message_is_kept() {
    let e = bad_request("");
    assert_eq!(e.status_code, 400);
    assert_eq!(e.message, "");
}

#[test]
fn status_codes_reach_the_http_layer() {
    assert_eq!(bad_request("x").status(), http::StatusCode::BAD_REQUEST);
    assert_eq!(not_found("y").status(), http::StatusCode::NOT_FOUND);
    assert_eq!(server_error("z").status(), http::StatusCode::INTERNAL_SERVER_ERROR);
}
