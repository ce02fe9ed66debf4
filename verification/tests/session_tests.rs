//! Tests of session configuration helpers.

use robert_webdriver::normalize_url;

#[test]
fn test_normalize_url_adds_scheme() {
    assert_eq!(normalize_url("example.com"), "https://example.com");
    assert_eq!(normalize_url("example.com/a/b?c=d"), "https://example.com/a/b?c=d");
    assert_eq!(normalize_url(""), "https://");
}

#[test]
fn test_normalize_url_keeps_recognized_schemes() {
    assert_eq!(normalize_url("http://example.com"), "http://example.com");
    assert_eq!(normalize_url("https://example.com"), "https://example.com");
    assert_eq!(normalize_url("file:///tmp/page.html"), "file:///tmp/page.html");
    assert_eq!(normalize_url("about:blank"), "about:blank");
    assert_eq!(normalize_url("data:text/html,hi"), "data:text/html,hi");
}

#[test]
fn test_normalize_url_unrecognized_scheme_is_prefixed() {
    // Only the five recognized schemes pass through unchanged.
    assert_eq!(normalize_url("ftp://example.com"), "https://ftp://example.com");
}
