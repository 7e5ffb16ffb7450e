use rustypaste_cli::error::Error;

#[test]
fn test_io_error_message() {
    assert_eq!(Error::IoError("broken pipe".to_string()).to_message(), "IO error: `broken pipe`");
}

#[test]
fn test_toml_error_message() {
    assert_eq!(
        Error::TomlError("bad key".to_string()).to_message(),
        "TOML parsing error: `bad key`"
    );
}

#[test]
fn test_request_error_message() {
    assert_eq!(
        Error::RequestError("connection refused".to_string()).to_message(),
        "Request error: `connection refused`"
    );
}

#[test]
fn test_upload_error_message() {
    assert_eq!(
        Error::UploadError("unknown error (status code: 418)".to_string()).to_message(),
        "Upload error: `unknown error (status code: 418)`"
    );
}

#[test]
fn test_delete_error_message() {
    assert_eq!(
        Error::DeleteError("file is not found".to_string()).to_message(),
        "Delete error: `file is not found`"
    );
}

#[test]
fn test_no_server_address_message() {
    assert_eq!(
        Error::NoServerAddressError.to_message(),
        "No rustypaste server address is given."
    );
}

#[test]
fn test_multipart_error_message() {
    assert_eq!(
        Error::MultipartIOError("no such file".to_string()).to_message(),
        "Multipart IO error: `no such file`"
    );
}

#[test]
fn test_url_parse_error_message() {
    assert_eq!(
        Error::UrlParseError("relative URL without a base".to_string()).to_message(),
        "URL parsing error: `relative URL without a base`"
    );
}

#[test]
fn test_template_parse_error_message() {
    assert_eq!(
        Error::TemplateParseError("bad placeholder".to_string()).to_message(),
        "Template parsing error: `bad placeholder`"
    );
}
