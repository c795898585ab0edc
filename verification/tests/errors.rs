use url_shortener::text::{same_text, starts_with};
use url_shortener::url::is_valid_url;
use url_shortener::{redirect, Redirect, UrlShortener, UrlShortenerError};

#[test]
fn error_messages() {
    assert_eq!(UrlShortenerError::UrlNotFound.message(), "Short URL not found");
    assert_eq!(UrlShortenerError::InvalidUrl.message(), "Invalid URL provided");
    assert_eq!(
        UrlShortenerError::StorageError("disk full".to_string()).message(),
        "Storage error: disk full"
    );
    assert_eq!(UrlShortenerError::StorageError(String::new()).message(), "Storage error: ");
}

#[test]
fn json_failure_becomes_a_storage_error() {
    let failure = serde_json::from_str::<bool>("nope").unwrap_err();
    let shown = failure.to_string();
    match UrlShortenerError::from(failure) {
        UrlShortenerError::StorageError(cause) => assert_eq!(cause, shown),
        other => panic!("expected a storage error, got {:?}", other),
    }
}

#[test]
fn io_failure_becomes_a_storage_error() {
    let failure = std::io::Error::new(std::io::ErrorKind::PermissionDenied, "read-only volume");
    match UrlShortenerError::from(failure) {
        UrlShortenerError::StorageError(cause) => assert_eq!(cause, "read-only volume"),
        other => panic!("expected a storage error, got {:?}", other),
    }
}

#[test]
fn url_validation() {
    assert!(is_valid_url("http://a.com"));
    assert!(is_valid_url("https://a.com"));
    assert!(is_valid_url("http://"));
    assert!(!is_valid_url("ftp://x"));
    assert!(!is_valid_url("not a url"));
    assert!(!is_valid_url("http:/"));
    assert!(!is_valid_url("https:/a.com"));
    assert!(!is_valid_url("xhttp://a.com"));
    assert!(!is_valid_url(""));
}

#[test]
fn prefixes_are_compared_by_character() {
    assert!(starts_with("https://a.com", "https://"));
    assert!(starts_with("abc", ""));
    assert!(starts_with("abc", "abc"));
    assert!(!starts_with("ab", "abc"));
    assert!(!starts_with("abd", "abc"));
    assert!(starts_with("\u{e9}t\u{e9}", "\u{e9}"));
    assert!(!starts_with("\u{e9}t\u{e9}", "e"));
}

#[test]
fn texts_are_compared_by_character() {
    assert!(same_text("urls", "urls"));
    assert!(same_text("", ""));
    assert!(!same_text("urls", "url"));
    assert!(!same_text("url", "urls"));
    assert!(!same_text("urls", "Urls"));
}

#[test]
fn known_code_is_redirected() {
    let mut registry = UrlShortener::empty();
    registry.store("abc123".to_string(), "https://example.com/target".to_string());
    let answer = redirect(&registry, "abc123");
    assert_eq!(answer.status(), 301);
    match answer {
        Redirect::MovedPermanently { location } => assert_eq!(location, "https://example.com/target"),
        Redirect::NotFound => panic!("expected a redirect"),
    }
}

#[test]
fn unknown_code_is_not_found() {
    let mut registry = UrlShortener::empty();
    registry.store("abc123".to_string(), "https://example.com/target".to_string());
    let answer = redirect(&registry, "unknown");
    assert_eq!(answer.status(), 404);
    assert!(matches!(answer, Redirect::NotFound));
    assert!(matches!(redirect(&UrlShortener::empty(), "abc123"), Redirect::NotFound));
}
