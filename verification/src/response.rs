//! Classification of server responses into the error taxonomy.
//!
//! Each operation hands the transport's outcome over as a
//! [`ServerReply`] and receives the operation's result; the decision
//! tables live here, independent of any HTTP client.

use vstd::prelude::*;
use crate::error::Error;
use crate::text::{line_count, spec_dec, spec_line_count, spec_trim, trim_str, u64_to_dec};

verus! {

/// The outcome of one HTTP exchange, as the transport reported it.
#[derive(Debug, Clone, PartialEq)]
pub enum ServerReply {
    /// The transport delivered a response it did not treat as an error.
    Received {
        /// HTTP status code.
        status: u16,
        /// Full response body.
        body: String,
    },
    /// The transport delivered a response as a structured HTTP error.
    HttpError {
        /// HTTP status code.
        status: u16,
        /// Full response body.
        body: String,
    },
    /// The exchange failed below HTTP: connection, name resolution,
    /// timeout or TLS.
    Failed {
        /// The transport's own description of the failure.
        message: String,
    },
}

/// The ` (status code: N)` suffix appended to protocol error messages.
pub open spec fn spec_status_suffix(status: u16) -> Seq<char> {
    " (status code: "@ + spec_dec(status as nat) + ")"@
}

fn status_suffix(status: u16) -> (r: String)
    ensures
        r@ == spec_status_suffix(status),
{
    let mut s = " (status code: ".to_owned();
    s.append(u64_to_dec(status as u64).as_str());
    s.append(")");
    proof {
        assert(s@ =~= spec_status_suffix(status));
    }
    s
}

fn prefixed_status_message(prefix: &str, status: u16) -> (r: String)
    ensures
        r@ == prefix@ + spec_status_suffix(status),
{
    let mut s = prefix.to_owned();
    s.append(status_suffix(status).as_str());
    s
}

fn trimmed_status_message(body: &str, status: u16) -> (r: String)
    ensures
        r@ == spec_trim(body@) + spec_status_suffix(status),
{
    let mut s = trim_str(body);
    s.append(status_suffix(status).as_str());
    s
}

/// What an upload returns for each reply: a delivered body spanning
/// anything but one line can never be an identifier; a one-line body
/// is the identifier only under status 200; an HTTP error carries its
/// trimmed body and status; a transport failure is passed through.
pub fn classify_upload(reply: &ServerReply) -> (r: Result<String, Error>)
    ensures
        (match *reply {
            ServerReply::Received { status, body } => {
                if spec_line_count(body@) != 1 {
                    r matches Err(e) && e matches Error::UploadError(m)
                        && m@ == "server returned invalid body"@ + spec_status_suffix(status)
                } else if status == 200 {
                    r matches Ok(s) && s@ == spec_trim(body@)
                } else {
                    r matches Err(e) && e matches Error::UploadError(m)
                        && m@ == "unknown error"@ + spec_status_suffix(status)
                }
            },
            ServerReply::HttpError { status, body } => {
                r matches Err(e) && e matches Error::UploadError(m)
                    && m@ == spec_trim(body@) + spec_status_suffix(status)
            },
            ServerReply::Failed { message } => {
                r matches Err(e) && e matches Error::RequestError(m) && m == message
            },
        }),
{
    match reply {
        ServerReply::Received { status, body } => {
            let lines = line_count(body.as_str());
            if lines != 1 {
                Err(Error::UploadError(prefixed_status_message(
                    "server returned invalid body",
                    *status,
                )))
            } else if *status == 200 {
                Ok(trim_str(body.as_str()))
            } else {
                Err(Error::UploadError(prefixed_status_message("unknown error", *status)))
            }
        },
        ServerReply::HttpError { status, body } => {
            Err(Error::UploadError(trimmed_status_message(body.as_str(), *status)))
        },
        ServerReply::Failed { message } => Err(Error::RequestError(message.clone())),
    }
}

/// What a delete returns for each reply: a 2xx body, trimmed, is the
/// confirmation; a 404 error carries only its trimmed body, which
/// already names the failure; any other HTTP error carries the trimmed
/// body and the status; a transport failure is passed through.
pub fn classify_delete(reply: &ServerReply) -> (r: Result<String, Error>)
    ensures
        (match *reply {
            ServerReply::Received { status, body } => {
                if 200 <= status < 300 {
                    r matches Ok(s) && s@ == spec_trim(body@)
                } else {
                    r matches Err(e) && e matches Error::DeleteError(m)
                        && m@ == "unknown error"@ + spec_status_suffix(status)
                }
            },
            ServerReply::HttpError { status, body } => {
                if status == 404 {
                    r matches Err(e) && e matches Error::DeleteError(m)
                        && m@ == spec_trim(body@)
                } else {
                    r matches Err(e) && e matches Error::DeleteError(m)
                        && m@ == spec_trim(body@) + spec_status_suffix(status)
                }
            },
            ServerReply::Failed { message } => {
                r matches Err(e) && e matches Error::RequestError(m) && m == message
            },
        }),
{
    match reply {
        ServerReply::Received { status, body } => {
            if 200 <= *status && *status < 300 {
                Ok(trim_str(body.as_str()))
            } else {
                Err(Error::DeleteError(prefixed_status_message("unknown error", *status)))
            }
        },
        ServerReply::HttpError { status, body } => {
            if *status == 404 {
                Err(Error::DeleteError(trim_str(body.as_str())))
            } else {
                Err(Error::DeleteError(trimmed_status_message(body.as_str(), *status)))
            }
        },
        ServerReply::Failed { message } => Err(Error::RequestError(message.clone())),
    }
}

/// What a version or list query returns for each reply: any delivered
/// body, trimmed; an HTTP error or transport failure is a request
/// error.
pub fn classify_query(reply: &ServerReply) -> (r: Result<String, Error>)
    ensures
        (match *reply {
            ServerReply::Received { status, body } => {
                r matches Ok(s) && s@ == spec_trim(body@)
            },
            ServerReply::HttpError { status, body } => {
                r matches Err(e) && e matches Error::RequestError(m)
                    && m@ == spec_trim(body@) + spec_status_suffix(status)
            },
            ServerReply::Failed { message } => {
                r matches Err(e) && e matches Error::RequestError(m) && m == message
            },
        }),
{
    match reply {
        ServerReply::Received { status: _, body } => Ok(trim_str(body.as_str())),
        ServerReply::HttpError { status, body } => {
            Err(Error::RequestError(trimmed_status_message(body.as_str(), *status)))
        },
        ServerReply::Failed { message } => Err(Error::RequestError(message.clone())),
    }
}

} // verus!
