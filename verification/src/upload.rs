//! Construction of upload requests: the multipart field name, the
//! body source, the header set and the progress accounting, each a
//! pure function of the configuration and the caller's input.

use vstd::prelude::*;
use crate::config::{Config, StyleConfig};
use crate::error::Error;
use crate::text::spec_dec;
use crate::urls::{url_normal, url_parse_str};

verus! {

/// The shape of input being uploaded.
#[derive(Debug, Clone, Copy, PartialEq, Eq, Structural)]
pub enum UploadKind {
    /// A local file, read from disk by path.
    File,
    /// A literal URL the server should shorten.
    UrlShorten,
    /// A URL the server should itself download.
    RemoteFetch,
    /// A raw byte stream, such as standard input.
    Stream,
}

/// Whether the configuration asks for one-shot uploads.
pub open spec fn spec_oneshot(config: Config) -> bool {
    config.paste.oneshot == Some(true)
}

/// The multipart field name selected for an upload: a pure function
/// of the upload kind and the one-shot flag.
pub open spec fn spec_field_name(kind: UploadKind, oneshot: bool) -> Seq<char> {
    match kind {
        UploadKind::File => if oneshot { "oneshot"@ } else { "file"@ },
        UploadKind::Stream => if oneshot { "oneshot"@ } else { "file"@ },
        UploadKind::UrlShorten => if oneshot { "oneshot_url"@ } else { "url"@ },
        UploadKind::RemoteFetch => "remote"@,
    }
}

/// One-shot file and stream uploads select the `oneshot` field, plain
/// ones `file`; one-shot URL shortenings select `oneshot_url`, plain
/// ones `url`; remote fetches select `remote` whatever the flag says.
pub proof fn lemma_field_name_table(kind: UploadKind, oneshot: bool)
    ensures
        oneshot && (kind == UploadKind::File || kind == UploadKind::Stream)
            ==> spec_field_name(kind, oneshot) == "oneshot"@,
        !oneshot && (kind == UploadKind::File || kind == UploadKind::Stream)
            ==> spec_field_name(kind, oneshot) == "file"@,
        oneshot && kind == UploadKind::UrlShorten
            ==> spec_field_name(kind, oneshot) == "oneshot_url"@,
        !oneshot && kind == UploadKind::UrlShorten
            ==> spec_field_name(kind, oneshot) == "url"@,
        kind == UploadKind::RemoteFetch ==> spec_field_name(kind, oneshot) == "remote"@,
{
}

/// The multipart field name for an upload.
pub fn field_name(kind: UploadKind, oneshot: bool) -> (r: &'static str)
    ensures
        r@ == spec_field_name(kind, oneshot),
{
    match kind {
        UploadKind::File => if oneshot { "oneshot" } else { "file" },
        UploadKind::Stream => if oneshot { "oneshot" } else { "file" },
        UploadKind::UrlShorten => if oneshot { "oneshot_url" } else { "url" },
        UploadKind::RemoteFetch => "remote",
    }
}

/// What the caller asked to upload.
#[derive(Debug, Clone, PartialEq)]
pub enum UploadTarget {
    /// A local file, by path.
    FilePath(String),
    /// A URL the server should shorten.
    ShortenUrl(String),
    /// A URL the server should itself download.
    RemoteUrl(String),
    /// The bytes already drained from a caller-supplied stream.
    Stream(Vec<u8>),
}

/// Where the bytes of a multipart body come from.
#[derive(Debug, Clone, PartialEq)]
pub enum UploadBody {
    /// The named local file, read when the body is streamed.
    FilePath(String),
    /// The raw bytes of this text.
    Text(String),
    /// These bytes.
    Bytes(Vec<u8>),
}

/// Everything the transport needs to issue one upload, short of the
/// server address and the headers.
#[derive(Debug, Clone, PartialEq)]
pub struct UploadRequest {
    /// Descriptor paired with the outcome for display: the file path,
    /// the URL, or the literal token naming a stream.
    pub descriptor: String,
    /// Multipart field name.
    pub field_name: String,
    /// Multipart file name, where one is sent.
    pub file_name: Option<String>,
    /// Body source.
    pub body: UploadBody,
}

/// Builds the request description for one upload.  URL-valued targets
/// are validated before anything else may happen: a malformed URL is
/// rejected here, so no request is ever issued for one.  An empty
/// server address is rejected outright.
pub fn build_upload_request(config: &Config, target: UploadTarget) -> (r: Result<
    UploadRequest,
    Error,
>)
    ensures
        config.server.address@.len() == 0 ==> (r matches Err(e)
            && e == Error::NoServerAddressError),
        config.server.address@.len() > 0 ==> (match target {
            UploadTarget::FilePath(p) => {
                r matches Ok(q)
                    && q.descriptor == p
                    && q.field_name@ == spec_field_name(UploadKind::File, spec_oneshot(*config))
                    && q.file_name is None
                    && q.body == UploadBody::FilePath(p)
            },
            UploadTarget::ShortenUrl(u) => {
                if url_normal(u@) is Some {
                    r matches Ok(q)
                        && q.descriptor == u
                        && q.field_name@ == spec_field_name(
                        UploadKind::UrlShorten,
                        spec_oneshot(*config),
                    )
                        && q.file_name is None
                        && q.body == UploadBody::Text(u)
                } else {
                    r matches Err(e) && e matches Error::UrlParseError(_)
                }
            },
            UploadTarget::RemoteUrl(u) => {
                if url_normal(u@) is Some {
                    r matches Ok(q)
                        && q.descriptor == u
                        && q.field_name@ == spec_field_name(
                        UploadKind::RemoteFetch,
                        spec_oneshot(*config),
                    )
                        && q.file_name is None
                        && q.body == UploadBody::Text(u)
                } else {
                    r matches Err(e) && e matches Error::UrlParseError(_)
                }
            },
            UploadTarget::Stream(bytes) => {
                r matches Ok(q)
                    && q.descriptor@ == "stream"@
                    && q.field_name@ == spec_field_name(UploadKind::Stream, spec_oneshot(*config))
                    && (q.file_name matches Some(f) && f@ == "file"@)
                    && q.body == UploadBody::Bytes(bytes)
            },
        }),
{
    if config.server.address.as_str().unicode_len() == 0 {
        return Err(Error::NoServerAddressError);
    }
    let oneshot = config.paste.oneshot == Some(true);
    match target {
        UploadTarget::FilePath(p) => Ok(UploadRequest {
            descriptor: p.clone(),
            field_name: field_name(UploadKind::File, oneshot).to_owned(),
            file_name: None,
            body: UploadBody::FilePath(p),
        }),
        UploadTarget::ShortenUrl(u) => {
            if let Err(m) = url_parse_str(u.as_str()) {
                return Err(Error::UrlParseError(m));
            }
            Ok(UploadRequest {
                descriptor: u.clone(),
                field_name: field_name(UploadKind::UrlShorten, oneshot).to_owned(),
                file_name: None,
                body: UploadBody::Text(u),
            })
        },
        UploadTarget::RemoteUrl(u) => {
            if let Err(m) = url_parse_str(u.as_str()) {
                return Err(Error::UrlParseError(m));
            }
            Ok(UploadRequest {
                descriptor: u.clone(),
                field_name: field_name(UploadKind::RemoteFetch, oneshot).to_owned(),
                file_name: None,
                body: UploadBody::Text(u),
            })
        },
        UploadTarget::Stream(bytes) => Ok(UploadRequest {
            descriptor: "stream".to_owned(),
            field_name: field_name(UploadKind::Stream, oneshot).to_owned(),
            file_name: Some("file".to_owned()),
            body: UploadBody::Bytes(bytes),
        }),
    }
}

/// One HTTP header, name and value.
#[derive(Debug, Clone, PartialEq)]
pub struct Header {
    /// Header name.
    pub name: String,
    /// Header value.
    pub value: String,
}

/// The (name, value) views of a header sequence.
pub open spec fn spec_header_views(hs: Seq<Header>) -> Seq<(Seq<char>, Seq<char>)> {
    hs.map_values(|h: Header| (h.name@, h.value@))
}

/// The header set of an upload: the multipart content type with its
/// boundary, the content length when known, and the configured
/// authorization, expiration and filename values, in that order and
/// each only when present.
pub open spec fn spec_upload_headers(
    config: Config,
    boundary: Seq<char>,
    content_len: Option<u64>,
) -> Seq<(Seq<char>, Seq<char>)> {
    seq![("Content-Type"@, "multipart/form-data; boundary="@ + boundary)]
        + (match content_len {
        Some(n) => seq![("Content-Length"@, spec_dec(n as nat))],
        None => Seq::empty(),
    })
        + (match config.server.auth_token {
        Some(t) => seq![("Authorization"@, t@)],
        None => Seq::empty(),
    })
        + (match config.paste.expire {
        Some(e) => seq![("expire"@, e@)],
        None => Seq::empty(),
    })
        + (match config.paste.filename {
        Some(f) => seq![("filename"@, f@)],
        None => Seq::empty(),
    })
}

/// Assembles the headers of an upload request.
pub fn upload_headers(config: &Config, boundary: &str, content_len: Option<u64>) -> (r: Vec<
    Header,
>)
    ensures
        spec_header_views(r@) == spec_upload_headers(*config, boundary@, content_len),
{
    let mut hs: Vec<Header> = Vec::new();
    let mut content_type = "multipart/form-data; boundary=".to_owned();
    content_type.append(boundary);
    hs.push(Header { name: "Content-Type".to_owned(), value: content_type });
    if let Some(n) = content_len {
        hs.push(Header { name: "Content-Length".to_owned(), value: crate::text::u64_to_dec(n) });
    }
    if let Some(token) = &config.server.auth_token {
        hs.push(Header { name: "Authorization".to_owned(), value: token.clone() });
    }
    if let Some(expire) = &config.paste.expire {
        hs.push(Header { name: "expire".to_owned(), value: expire.clone() });
    }
    if let Some(filename) = &config.paste.filename {
        hs.push(Header { name: "filename".to_owned(), value: filename.clone() });
    }
    proof {
        assert(spec_header_views(hs@) =~= spec_upload_headers(*config, boundary@, content_len));
    }
    hs
}

/// The `Authorization` header alone, when a token is configured:
/// delete, version and list requests carry nothing else.
pub open spec fn spec_token_headers(token: Option<String>) -> Seq<(Seq<char>, Seq<char>)> {
    match token {
        Some(t) => seq![("Authorization"@, t@)],
        None => Seq::empty(),
    }
}

/// Assembles the header set of a delete, version or list request.
pub fn token_headers(token: &Option<String>) -> (r: Vec<Header>)
    ensures
        spec_header_views(r@) == spec_token_headers(*token),
{
    let mut hs: Vec<Header> = Vec::new();
    if let Some(t) = token {
        hs.push(Header { name: "Authorization".to_owned(), value: t.clone() });
    }
    proof {
        assert(spec_header_views(hs@) =~= spec_token_headers(*token));
    }
    hs
}

/// Wrapper around raw data and result.
#[derive(Debug)]
pub struct UploadResult<'a, T>(pub &'a str, pub Result<T, Error>);

/// Whether output is prettified: asked for on the command line, or
/// configured by style.
pub fn effective_prettify(flag: bool, style: &Option<StyleConfig>) -> (r: bool)
    ensures
        r == (flag || (style matches Some(s) && s.prettify)),
{
    flag || (match style {
        Some(s) => s.prettify,
        None => false,
    })
}

/// The widest descriptor among a batch's results.
pub open spec fn spec_max_descriptor<'a, T>(rs: Seq<UploadResult<'a, T>>) -> nat
    decreases rs.len(),
{
    if rs.len() == 0 {
        0
    } else {
        let w = spec_max_descriptor(rs.drop_last());
        let l = rs.last().0@.len();
        if l > w {
            l
        } else {
            w
        }
    }
}

/// The field width prettified result lines align their descriptors
/// to: the widest descriptor in the batch, or one for an empty batch.
pub open spec fn spec_descriptor_pad_width<'a, T>(rs: Seq<UploadResult<'a, T>>) -> nat {
    if rs.len() == 0 {
        1
    } else {
        spec_max_descriptor(rs)
    }
}

/// Computes the descriptor field width of a batch.
pub fn descriptor_pad_width<'a, T>(results: &Vec<UploadResult<'a, T>>) -> (r: usize)
    ensures
        r == spec_descriptor_pad_width(results@),
{
    if results.len() == 0 {
        return 1;
    }
    let mut w: usize = 0;
    let mut i: usize = 0;
    while i < results.len()
        invariant
            i <= results@.len(),
            w == spec_max_descriptor(results@.subrange(0, i as int)),
        decreases results@.len() - i,
    {
        proof {
            assert(results@.subrange(0, i + 1).drop_last() == results@.subrange(0, i as int));
            assert(results@.subrange(0, i + 1).last() == results@[i as int]);
        }
        let l = results[i].0.unicode_len();
        if l > w {
            w = l;
        }
        i = i + 1;
    }
    proof {
        assert(results@.subrange(0, results@.len() as int) == results@);
    }
    w
}

/// Byte accounting for an upload in flight: the indicator's position
/// equals the cumulative number of bytes the transport consumed, never
/// the number requested.
#[derive(Debug, Clone, Copy, PartialEq, Eq, Structural)]
pub struct UploadProgress {
    /// Total length to be uploaded; zero when unknown.
    pub total: u64,
    /// Bytes consumed so far.
    pub uploaded: u64,
}

impl UploadProgress {
    /// Fresh accounting for a body of the given total length.
    pub fn new(total: u64) -> (r: Self)
        ensures
            r.total == total,
            r.uploaded == 0,
    {
        UploadProgress { total, uploaded: 0 }
    }

    /// Accounts for one read of `bytes_read` bytes and returns the
    /// position the indicator must advance to.
    pub fn record(&mut self, bytes_read: usize) -> (position: u64)
        requires
            old(self).uploaded + bytes_read <= u64::MAX,
        ensures
            final(self).uploaded == old(self).uploaded + bytes_read,
            final(self).total == old(self).total,
            position == final(self).uploaded,
    {
        self.uploaded = self.uploaded + bytes_read as u64;
        self.uploaded
    }
}

} // verus!
