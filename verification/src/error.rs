//! The closed set of failures an operation can report.

use vstd::prelude::*;

verus! {

/// Custom error type.  Failures coming from outside components carry
/// the offending component's message as plain text.
#[derive(Debug, Clone, PartialEq)]
pub enum Error {
    /// Error that might occur while handling I/O operations.
    IoError(String),
    /// Error that might occur while parsing the configuration file.
    TomlError(String),
    /// Error that might occur while processing/sending requests.
    RequestError(String),
    /// Error that might occur while uploading files.
    UploadError(String),
    /// Error that might occur while deleting files from server.
    DeleteError(String),
    /// Error that might occur when no server address is provided.
    NoServerAddressError,
    /// Error that might occur during the preparation of the multipart data.
    MultipartIOError(String),
    /// Error that might occur during parsing URLs.
    UrlParseError(String),
    /// Error that might occur during parsing a progress bar template.
    TemplateParseError(String),
}

/// The one-line rendering of an error, as the binary prints it.
pub open spec fn spec_error_message(e: Error) -> Seq<char> {
    match e {
        Error::IoError(m) => "IO error: `"@ + m@ + "`"@,
        Error::TomlError(m) => "TOML parsing error: `"@ + m@ + "`"@,
        Error::RequestError(m) => "Request error: `"@ + m@ + "`"@,
        Error::UploadError(m) => "Upload error: `"@ + m@ + "`"@,
        Error::DeleteError(m) => "Delete error: `"@ + m@ + "`"@,
        Error::NoServerAddressError => "No rustypaste server address is given."@,
        Error::MultipartIOError(m) => "Multipart IO error: `"@ + m@ + "`"@,
        Error::UrlParseError(m) => "URL parsing error: `"@ + m@ + "`"@,
        Error::TemplateParseError(m) => "Template parsing error: `"@ + m@ + "`"@,
    }
}

fn quoted(prefix: &str, detail: &str) -> (r: String)
    ensures
        r@ == prefix@ + detail@ + "`"@,
{
    let mut s = prefix.to_owned();
    s.append(detail);
    s.append("`");
    proof {
        assert(s@ =~= prefix@ + detail@ + "`"@);
    }
    s
}

impl Error {
    /// Renders the error as the line the binary shows the user.
    pub fn to_message(&self) -> (r: String)
        ensures
            r@ == spec_error_message(*self),
    {
        match self {
            Error::IoError(m) => quoted("IO error: `", m.as_str()),
            Error::TomlError(m) => quoted("TOML parsing error: `", m.as_str()),
            Error::RequestError(m) => quoted("Request error: `", m.as_str()),
            Error::UploadError(m) => quoted("Upload error: `", m.as_str()),
            Error::DeleteError(m) => quoted("Delete error: `", m.as_str()),
            Error::NoServerAddressError => "No rustypaste server address is given.".to_owned(),
            Error::MultipartIOError(m) => quoted("Multipart IO error: `", m.as_str()),
            Error::UrlParseError(m) => quoted("URL parsing error: `", m.as_str()),
            Error::TemplateParseError(m) => quoted("Template parsing error: `", m.as_str()),
        }
    }
}

} // verus!
