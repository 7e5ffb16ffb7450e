use rustypaste_cli::config::{Config, StyleConfig};
use rustypaste_cli::error::Error;
use rustypaste_cli::response::{classify_upload, ServerReply};
use rustypaste_cli::upload::{
    build_upload_request, descriptor_pad_width, effective_prettify, field_name, token_headers,
    upload_headers, UploadBody, UploadKind, UploadProgress, UploadResult, UploadTarget,
};

fn base_config() -> Config {
    let mut config = Config::default();
    config.server.address = "https://paste.example/".to_string();
    config
}

#[test]
fn test_field_name_table() {
    assert_eq!(field_name(UploadKind::File, true), "oneshot");
    assert_eq!(field_name(UploadKind::File, false), "file");
    assert_eq!(field_name(UploadKind::Stream, true), "oneshot");
    assert_eq!(field_name(UploadKind::Stream, false), "file");
    assert_eq!(field_name(UploadKind::UrlShorten, true), "oneshot_url");
    assert_eq!(field_name(UploadKind::UrlShorten, false), "url");
    assert_eq!(field_name(UploadKind::RemoteFetch, true), "remote");
    assert_eq!(field_name(UploadKind::RemoteFetch, false), "remote");
}

#[test]
fn test_build_file_request() {
    let config = base_config();
    let req =
        build_upload_request(&config, UploadTarget::FilePath("file.txt".to_string())).unwrap();
    assert_eq!(req.descriptor, "file.txt");
    assert_eq!(req.field_name, "file");
    assert!(req.file_name.is_none());
    assert_eq!(req.body, UploadBody::FilePath("file.txt".to_string()));
}

#[test]
fn test_build_file_request_oneshot() {
    let mut config = base_config();
    config.paste.oneshot = Some(true);
    let req =
        build_upload_request(&config, UploadTarget::FilePath("file.txt".to_string())).unwrap();
    assert_eq!(req.field_name, "oneshot");
}

#[test]
fn test_build_url_request() {
    let config = base_config();
    let req = build_upload_request(
        &config,
        UploadTarget::ShortenUrl("https://example.com/long".to_string()),
    )
    .unwrap();
    assert_eq!(req.descriptor, "https://example.com/long");
    assert_eq!(req.field_name, "url");
    assert_eq!(req.body, UploadBody::Text("https://example.com/long".to_string()));
}

#[test]
fn test_build_url_request_oneshot() {
    let mut config = base_config();
    config.paste.oneshot = Some(true);
    let req = build_upload_request(
        &config,
        UploadTarget::ShortenUrl("https://example.com/long".to_string()),
    )
    .unwrap();
    assert_eq!(req.field_name, "oneshot_url");
}

#[test]
fn test_build_url_request_malformed() {
    let config = base_config();
    let r = build_upload_request(&config, UploadTarget::ShortenUrl("not a url".to_string()));
    assert!(matches!(r, Err(Error::UrlParseError(_))));
}

#[test]
fn test_build_remote_request() {
    let mut config = base_config();
    config.paste.oneshot = Some(true);
    let req = build_upload_request(
        &config,
        UploadTarget::RemoteUrl("https://example.com/file.bin".to_string()),
    )
    .unwrap();
    assert_eq!(req.field_name, "remote");
    assert_eq!(req.body, UploadBody::Text("https://example.com/file.bin".to_string()));
}

#[test]
fn test_build_remote_request_malformed() {
    let config = base_config();
    let r = build_upload_request(&config, UploadTarget::RemoteUrl("::nope::".to_string()));
    assert!(matches!(r, Err(Error::UrlParseError(_))));
}

#[test]
fn test_build_request_empty_address() {
    let config = Config::default();
    let r = build_upload_request(&config, UploadTarget::FilePath("file.txt".to_string()));
    assert_eq!(r, Err(Error::NoServerAddressError));
}

#[test]
fn test_upload_headers_plain() {
    let config = base_config();
    let headers = upload_headers(&config, "boundary1234", Some(3));
    let pairs: Vec<(&str, &str)> =
        headers.iter().map(|h| (h.name.as_str(), h.value.as_str())).collect();
    assert_eq!(
        pairs,
        vec![
            ("Content-Type", "multipart/form-data; boundary=boundary1234"),
            ("Content-Length", "3"),
        ]
    );
}

#[test]
fn test_upload_headers_full() {
    let mut config = base_config();
    config.server.auth_token = Some("token123".to_string());
    config.paste.expire = Some("10min".to_string());
    config.paste.filename = Some("other.txt".to_string());
    let headers = upload_headers(&config, "b", None);
    let pairs: Vec<(&str, &str)> =
        headers.iter().map(|h| (h.name.as_str(), h.value.as_str())).collect();
    assert_eq!(
        pairs,
        vec![
            ("Content-Type", "multipart/form-data; boundary=b"),
            ("Authorization", "token123"),
            ("expire", "10min"),
            ("filename", "other.txt"),
        ]
    );
}

#[test]
fn test_token_headers() {
    assert!(token_headers(&None).is_empty());
    let headers = token_headers(&Some("deltoken".to_string()));
    assert_eq!(headers.len(), 1);
    assert_eq!(headers[0].name, "Authorization");
    assert_eq!(headers[0].value, "deltoken");
}

#[test]
fn test_upload_progress_accumulates() {
    let mut progress = UploadProgress::new(10);
    assert_eq!(progress.total, 10);
    assert_eq!(progress.uploaded, 0);
    assert_eq!(progress.record(3), 3);
    assert_eq!(progress.record(4), 7);
    assert_eq!(progress.uploaded, 7);
}

#[test]
fn test_effective_prettify() {
    assert!(!effective_prettify(false, &None));
    assert!(effective_prettify(true, &None));
    assert!(!effective_prettify(false, &Some(StyleConfig { prettify: false })));
    assert!(effective_prettify(false, &Some(StyleConfig { prettify: true })));
}

#[test]
fn test_descriptor_pad_width() {
    let empty: Vec<UploadResult<String>> = Vec::new();
    assert_eq!(descriptor_pad_width(&empty), 1);
    let results = vec![
        UploadResult("file.txt", Ok("id1".to_string())),
        UploadResult("stream", Err(Error::NoServerAddressError)),
        UploadResult("a-much-longer-name.tar.gz", Ok("id2".to_string())),
    ];
    assert_eq!(descriptor_pad_width(&results), 25);
}

#[test]
fn test_scenario_plain_file_upload() {
    // A default-style configuration uploading a 3-byte file: the field
    // is `file`, no expire or filename header is sent, and the mocked
    // one-line 200 response body comes back trimmed.
    let mut config = Config::default();
    config.server.address = "https://paste.example/".to_string();
    let req = build_upload_request(&config, UploadTarget::FilePath("abc.txt".to_string()))
        .unwrap();
    assert_eq!(req.field_name, "file");
    let headers = upload_headers(&config, "XWAVE", Some(3));
    assert!(headers.iter().all(|h| h.name != "expire" && h.name != "filename"));
    let reply = ServerReply::Received {
        status: 200,
        body: "https://paste.example/abc.txt\n".to_string(),
    };
    let outcome = UploadResult(req.descriptor.as_str(), classify_upload(&reply));
    assert_eq!(outcome.0, "abc.txt");
    assert_eq!(outcome.1, Ok("https://paste.example/abc.txt".to_string()));
}

#[test]
fn test_scenario_oneshot_stream_upload() {
    // The same configuration with one-shot on, uploading standard
    // input: the field is `oneshot` and the descriptor is `stream`.
    let mut config = Config::default();
    config.server.address = "https://paste.example/".to_string();
    config.paste.oneshot = Some(true);
    let req = build_upload_request(&config, UploadTarget::Stream(b"abc".to_vec())).unwrap();
    assert_eq!(req.field_name, "oneshot");
    assert_eq!(req.descriptor, "stream");
    assert_eq!(req.file_name.as_deref(), Some("file"));
    assert_eq!(req.body, UploadBody::Bytes(b"abc".to_vec()));
}
