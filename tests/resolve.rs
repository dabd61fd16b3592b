use imscale_service::paths::hidden_segment;
use imscale_service::text::chars_of;
use imscale_service::paths::{resolve_decoded, resolve_path, ServeError};

#[test]
fn empty_path_is_base() {
    assert_eq!(resolve_path("images", ""), Ok("images".to_string()));
}

#[test]
fn plain_path_is_joined() {
    assert_eq!(resolve_path("images", "a.png"), Ok("images/a.png".to_string()));
    assert_eq!(resolve_path("images", "sub/a.png"), Ok("images/sub/a.png".to_string()));
}

#[test]
fn base_with_trailing_separator() {
    assert_eq!(resolve_path("images/", "a.png"), Ok("images/a.png".to_string()));
}

#[test]
fn percent_encoding_is_decoded() {
    assert_eq!(resolve_path("images", "a%20b.png"), Ok("images/a b.png".to_string()));
}

#[test]
fn undecodable_path_is_kept_raw() {
    assert_eq!(resolve_path("images", "a%FF.png"), Ok("images/a%FF.png".to_string()));
}

#[test]
fn parent_escape_is_forbidden() {
    assert_eq!(resolve_path("images", "../secret"), Err(ServeError::Forbidden));
    assert_eq!(resolve_path("images", "sub/../../secret"), Err(ServeError::Forbidden));
    assert_eq!(resolve_path("images", ".."), Err(ServeError::Forbidden));
}

#[test]
fn encoded_parent_escape_is_forbidden() {
    assert_eq!(resolve_path("images", "%2e%2e/secret"), Err(ServeError::Forbidden));
    assert_eq!(resolve_path("images", "sub%2F..%2Fsecret"), Err(ServeError::Forbidden));
}

#[test]
fn absolute_path_is_forbidden() {
    assert_eq!(resolve_path("images", "/etc/passwd"), Err(ServeError::Forbidden));
    assert_eq!(resolve_path("images", "%2Fetc%2Fpasswd"), Err(ServeError::Forbidden));
}

#[test]
fn leading_dot_is_forbidden() {
    assert_eq!(resolve_path("images", ".hidden.png"), Err(ServeError::Forbidden));
    assert_eq!(resolve_path("images", "./a.png"), Err(ServeError::Forbidden));
}

#[test]
fn hidden_inner_segment_is_forbidden() {
    assert_eq!(resolve_path("images", "sub/.git/config"), Err(ServeError::Forbidden));
    assert_eq!(resolve_path("images", "sub/.hidden.png"), Err(ServeError::Forbidden));
}

#[test]
fn dot_inside_a_segment_is_allowed() {
    assert_eq!(resolve_path("images", "sub/a.b.png"), Ok("images/sub/a.b.png".to_string()));
}

#[test]
fn resolve_decoded_uses_the_decoded_text() {
    assert_eq!(
        resolve_decoded("images", "x", Some("y/z.png".to_string())),
        Ok("images/y/z.png".to_string())
    );
    assert_eq!(resolve_decoded("images", "x%FF", None), Ok("images/x%FF".to_string()));
    assert_eq!(
        resolve_decoded("images", "x", Some("../y".to_string())),
        Err(ServeError::Forbidden)
    );
}

#[test]
fn error_status_codes() {
    assert_eq!(ServeError::Forbidden.status_code(), 403);
    assert_eq!(ServeError::NotFound.status_code(), 404);
    assert_eq!(ServeError::InternalError.status_code(), 500);
}

#[test]
fn hidden_segment_scan() {
    assert_eq!(chars_of("a/b"), vec!['a', '/', 'b']);
    assert!(hidden_segment(&chars_of("a/.b")));
    assert!(hidden_segment(&chars_of(".a")));
    assert!(!hidden_segment(&chars_of("a.b/c.d")));
    assert!(!hidden_segment(&chars_of("")));
}

#[test]
fn raw_absolute_path_is_forbidden() {
    assert_eq!(resolve_decoded("images", "/x", Some("x".to_string())), Err(ServeError::Forbidden));
}
