use rustypaste_cli::error::Error;
use rustypaste_cli::urls::retrieve_url;

#[test]
fn test_resolution_trailing_slash_idempotent() {
    let with_slash = retrieve_url("https://h/p/", "list").unwrap();
    let without_slash = retrieve_url("https://h/p", "list").unwrap();
    assert_eq!(with_slash, "https://h/p/list");
    assert_eq!(without_slash, "https://h/p/list");
    assert_eq!(with_slash, without_slash);
}

#[test]
fn test_resolution_keeps_last_segment() {
    assert_eq!(retrieve_url("https://host/paste", "list").unwrap(), "https://host/paste/list");
}

#[test]
fn test_resolution_version_endpoint() {
    assert_eq!(
        retrieve_url("https://example.com", "version").unwrap(),
        "https://example.com/version"
    );
}

#[test]
fn test_resolution_empty_address() {
    assert_eq!(retrieve_url("", "list"), Err(Error::NoServerAddressError));
}

#[test]
fn test_resolution_malformed_address() {
    let r = retrieve_url("not a url", "list");
    assert!(matches!(r, Err(Error::UrlParseError(_))));
}
