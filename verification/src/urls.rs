//! Endpoint URL resolution: the configured base address is parsed,
//! its path is given a trailing slash when it lacks one, and the
//! endpoint segment is joined onto it, so that joining `list` onto
//! `https://host/paste` yields `https://host/paste/list` and never
//! `https://host/list`.

use vstd::prelude::*;
use crate::error::Error;

verus! {

/// What `url::Url::parse` makes of a string: `None` when the string is
/// not an absolute URL, otherwise the parsed URL's serialization.
pub uninterp spec fn url_normal(s: Seq<char>) -> Option<Seq<char>>;

/// What `url::Url::path` returns for the URL serialised as `u`.
pub uninterp spec fn url_path_of(u: Seq<char>) -> Seq<char>;

/// What `url::Url::join` makes of `segment` against the URL serialised
/// as `u`: `None` when the join fails, otherwise the joined URL's
/// serialization.
pub uninterp spec fn url_join_of(u: Seq<char>, segment: Seq<char>) -> Option<Seq<char>>;

/// Relies on `url::Url::parse`, a pure function of the input string,
/// to validate and normalise an address, and on `url::Url::as_str`
/// for the parsed URL's serialization; `url_normal` names the outcome.
/// The `Err` case carries the parse error's message.
#[verifier::external_body]
pub(crate) fn url_parse_str(s: &str) -> (r: Result<String, String>)
    ensures
        r is Ok <==> url_normal(s@) is Some,
        (r matches Ok(n) ==> Some(n@) == url_normal(s@)),
{
    match url::Url::parse(s) {
        Ok(u) => Ok(u.as_str().to_string()),
        Err(e) => Err(e.to_string()),
    }
}

/// Relies on `url::Url::path`: the percent-encoded path of the URL
/// serialised as `u`, named by `url_path_of`.  The base is re-parsed
/// with `url::Url::parse`; a string that does not parse is the `Err`
/// case.
#[verifier::external_body]
fn url_path_str(u: &str) -> (r: Result<String, String>)
    ensures
        r is Ok <==> url_normal(u@) is Some,
        (r matches Ok(p) ==> p@ == url_path_of(u@)),
{
    match url::Url::parse(u) {
        Ok(x) => Ok(x.path().to_string()),
        Err(e) => Err(e.to_string()),
    }
}

/// Relies on `url::Url::join` resolving `segment` against the URL
/// serialised as `u`, and on `url::Url::as_str` for the result;
/// `url_join_of` names the outcome.  The base is re-parsed with
/// `url::Url::parse`; either failure is the `Err` case, carrying the
/// parse error's message.
#[verifier::external_body]
fn url_join_str(u: &str, segment: &str) -> (r: Result<String, String>)
    ensures
        r is Ok <==> (url_normal(u@) is Some && url_join_of(u@, segment@) is Some),
        (r matches Ok(j) ==> Some(j@) == url_join_of(u@, segment@)),
{
    match url::Url::parse(u) {
        Ok(x) => match x.join(segment) {
            Ok(j) => Ok(j.as_str().to_string()),
            Err(e) => Err(e.to_string()),
        },
        Err(e) => Err(e.to_string()),
    }
}

/// Whether a path already carries its trailing separator.
pub open spec fn spec_ends_with_slash(s: Seq<char>) -> bool {
    s.len() > 0 && s.last() == '/'
}

/// The URL that resolving `endpoint` against `address` must produce,
/// stated over the named outcomes of the URL library's operations.
pub open spec fn spec_resolved(address: Seq<char>, endpoint: Seq<char>) -> Option<Seq<char>> {
    match url_normal(address) {
        Option::None => Option::None,
        Option::Some(n) => {
            if url_normal(n) is None {
                Option::None
            } else {
                let base = if spec_ends_with_slash(url_path_of(n)) {
                    Option::Some(n)
                } else {
                    url_join_of(n, url_path_of(n) + "/"@)
                };
                match base {
                    Option::None => Option::None,
                    Option::Some(b) => {
                        if url_normal(b) is None {
                            Option::None
                        } else {
                            url_join_of(b, endpoint)
                        }
                    },
                }
            }
        },
    }
}

/// Returns a valid request URL for an endpoint, joined onto the server
/// address with a trailing-slash-safe join.  An empty address is
/// rejected outright; an address or join the URL library refuses is a
/// parse error.
pub fn retrieve_url(address: &str, endpoint: &str) -> (r: Result<String, Error>)
    ensures
        address@.len() == 0 ==> (r matches Err(e) && e == Error::NoServerAddressError),
        address@.len() > 0 ==> {
            &&& r is Ok <==> spec_resolved(address@, endpoint@) is Some
            &&& (r matches Ok(u) ==> Some(u@) == spec_resolved(address@, endpoint@))
            &&& (r matches Err(e) ==> e matches Error::UrlParseError(_))
        },
{
    if address.unicode_len() == 0 {
        return Err(Error::NoServerAddressError);
    }
    let n = match url_parse_str(address) {
        Ok(n) => n,
        Err(m) => {
            return Err(Error::UrlParseError(m));
        },
    };
    let p = match url_path_str(n.as_str()) {
        Ok(p) => p,
        Err(m) => {
            return Err(Error::UrlParseError(m));
        },
    };
    let plen = p.as_str().unicode_len();
    let base = if plen > 0 && p.as_str().get_char(plen - 1) == '/' {
        n
    } else {
        let mut seg = p;
        seg.append("/");
        match url_join_str(n.as_str(), seg.as_str()) {
            Ok(b) => b,
            Err(m) => {
                return Err(Error::UrlParseError(m));
            },
        }
    };
    match url_join_str(base.as_str(), endpoint) {
        Ok(u) => Ok(u),
        Err(m) => Err(Error::UrlParseError(m)),
    }
}

} // verus!
