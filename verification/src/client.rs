use vstd::prelude::*;
use vstd::string::{StrSliceExecFns, StringExecFns};

use crate::errors::{api_error_is, is_error_payload, EnergiaProError};
use crate::json::JsonValue;
use crate::text::{
    drop_leading_char, drop_trailing_char, is_blank, spec_is_blank, spec_trim, strip_leading_char,
    strip_trailing_char, str_eq, trim_str,
};

verus! {

/// Longest diagnostic excerpt of an error body, in characters.
pub const ERROR_BODY_SNIPPET_LIMIT: usize = 512;

/// Configuration options for the API client.
#[derive(Debug, Clone, PartialEq, Eq)]
pub struct ClientOptions {
    /// Base URL for requests to the API.
    pub base_url: String,
    /// Timeout for requests to the API, in seconds.
    pub timeout_secs: u64,
}

impl Default for ClientOptions {
    /// The vendor's production endpoint, with a 30-second timeout.
    fn default() -> (r: Self)
        ensures
            r.base_url@ == "https://web2.holdigaz.ch/espace-client-api/api"@,
            r.timeout_secs == 30,
    {
        ClientOptions {
            base_url: "https://web2.holdigaz.ch/espace-client-api/api".to_owned(),
            timeout_secs: 30,
        }
    }
}

impl ClientOptions {
    /// Set a custom base URL for requests to the API.
    pub fn with_base_url(self, base_url: &str) -> (r: Self)
        ensures
            r.base_url@ == base_url@,
            r.timeout_secs == self.timeout_secs,
    {
        ClientOptions { base_url: base_url.to_owned(), ..self }
    }

    /// Set a custom timeout, in seconds, for requests to the API.
    pub fn with_timeout(self, timeout_secs: u64) -> (r: Self)
        ensures
            r.timeout_secs == timeout_secs,
            r.base_url@ == self.base_url@,
    {
        ClientOptions { timeout_secs, ..self }
    }
}

/// The first failing credential check — blank username, then blank
/// secret key — or nothing when both pass.
pub open spec fn spec_validate_credentials(u: Seq<char>, k: Seq<char>) -> Option<Seq<char>> {
    if spec_is_blank(u) {
        Some("username cannot be empty"@)
    } else if spec_is_blank(k) {
        Some("secret_key cannot be empty"@)
    } else {
        None
    }
}

/// Check the credentials a client is built with: both must be
/// non-blank. No network call is ever made with rejected credentials.
pub fn validate_credentials(username: &str, secret_key: &str) -> (r: Result<(), EnergiaProError>)
    ensures
        match r {
            Ok(_) => spec_validate_credentials(username@, secret_key@) is None,
            Err(e) => e matches EnergiaProError::InvalidArgument(m) && Some(m@)
                == spec_validate_credentials(username@, secret_key@),
        },
{
    if is_blank(username) {
        return Err(EnergiaProError::InvalidArgument("username cannot be empty".to_owned()));
    }
    if is_blank(secret_key) {
        return Err(EnergiaProError::InvalidArgument("secret_key cannot be empty".to_owned()));
    }
    Ok(())
}

/// The scheme of `s` read as an absolute URL, or nothing when `s` is
/// not one.
pub uninterp spec fn url_scheme_of(s: Seq<char>) -> Option<Seq<char>>;

/// Relies on `url::Url::parse` and `url::Url::scheme`: parsing is a
/// pure function of the text, succeeding exactly on valid absolute
/// URLs, and the scheme is the parsed URL's scheme.
#[verifier::external_body]
fn parse_url_scheme(s: &str) -> (r: Option<String>)
    ensures
        match r {
            Some(scheme) => url_scheme_of(s@) == Some(scheme@),
            None => url_scheme_of(s@) is None,
        },
{
    match url::Url::parse(s) {
        Ok(u) => Some(u.scheme().to_owned()),
        Err(_) => None,
    }
}

/// What base-URL normalization yields before checking: the input
/// without surrounding whitespace and trailing slashes.
pub open spec fn spec_normalized_base(s: Seq<char>) -> Seq<char> {
    drop_trailing_char(spec_trim(s), '/')
}

/// Normalize the base URL: trim it, strip trailing slashes, and demand
/// a non-empty absolute URL whose scheme is exactly `https`. Each
/// failing check has its fixed message, checked in this order: empty,
/// not an absolute URL, not `https`.
pub fn normalize_base_url(base_url: &str) -> (r: Result<String, EnergiaProError>)
    ensures
        match r {
            Ok(n) => {
                &&& n@ == spec_normalized_base(base_url@)
                &&& n@.len() > 0
                &&& url_scheme_of(n@) == Some("https"@)
            },
            Err(e) => e matches EnergiaProError::InvalidArgument(m) && ({
                let n = spec_normalized_base(base_url@);
                if n.len() == 0 {
                    m@ == "base_url cannot be empty"@
                } else if url_scheme_of(n) is None {
                    m@ == "base_url must be a valid absolute URL"@
                } else {
                    m@ == "base_url must use https"@ && url_scheme_of(n) != Some("https"@)
                }
            }),
        },
{
    let trimmed = trim_str(base_url);
    let normalized = strip_trailing_char(trimmed, '/');
    if normalized.unicode_len() == 0 {
        return Err(EnergiaProError::InvalidArgument("base_url cannot be empty".to_owned()));
    }
    let scheme = match parse_url_scheme(normalized) {
        Some(scheme) => scheme,
        None => {
            return Err(EnergiaProError::InvalidArgument(
                "base_url must be a valid absolute URL".to_owned(),
            ));
        },
    };
    if !str_eq(scheme.as_str(), "https") {
        return Err(EnergiaProError::InvalidArgument("base_url must use https".to_owned()));
    }
    Ok(normalized.to_owned())
}

/// Construct the full URL for an API endpoint.
pub fn endpoint_url(base_url: &str, endpoint: &str) -> (r: String)
    ensures
        r@ == base_url@ + "/"@ + endpoint@,
{
    let mut out: String = base_url.to_owned();
    out.append("/");
    out.append(endpoint);
    out
}

/// Strip every leading UTF-8 byte order mark from the payload, as some
/// vendor responses are BOM-prefixed.
pub fn strip_utf8_bom(payload: &str) -> (r: &str)
    ensures
        r@ == drop_leading_char(payload@, '\u{feff}'),
{
    strip_leading_char(payload, '\u{feff}')
}

/// The diagnostic excerpt of an error body: the trimmed body itself
/// when short enough, its first characters with an ellipsis appended
/// when truncated, and a fixed placeholder when blank. Truncation
/// counts characters, never splitting a code point.
pub open spec fn spec_body_snippet(p: Seq<char>) -> Seq<char> {
    let t = spec_trim(p);
    if t.len() == 0 {
        "<empty response body>"@
    } else if t.len() <= ERROR_BODY_SNIPPET_LIMIT {
        t
    } else {
        t.subrange(0, ERROR_BODY_SNIPPET_LIMIT as int) + "..."@
    }
}

/// Produce the diagnostic excerpt of an error body.
pub fn error_body_snippet(payload: &str) -> (r: String)
    ensures
        r@ == spec_body_snippet(payload@),
{
    let trimmed = trim_str(payload);
    let n: usize = trimmed.unicode_len();
    if n == 0 {
        return "<empty response body>".to_owned();
    }
    if n <= ERROR_BODY_SNIPPET_LIMIT {
        return trimmed.to_owned();
    }
    let head = trimmed.substring_char(0, ERROR_BODY_SNIPPET_LIMIT);
    let mut out: String = head.to_owned();
    out.append("...");
    out
}

/// True when `e` is the HTTP-status error for this exchange: the given
/// status and endpoint, and the body's diagnostic excerpt.
pub open spec fn http_status_error_is(
    e: EnergiaProError,
    status: u16,
    endpoint: Seq<char>,
    body: Seq<char>,
) -> bool {
    e matches EnergiaProError::HttpStatus { status: st, endpoint: ep, body_snippet } && st
        == status && ep@ == endpoint && body_snippet@ == spec_body_snippet(body)
}

/// Map a non-success HTTP exchange to a typed error: the vendor error
/// when the body decodes into an error payload, and otherwise an
/// HTTP-status error carrying a bounded body excerpt. `parsed` is the
/// body decoded as JSON, where it is JSON at all.
pub fn map_non_success_response(
    status: u16,
    endpoint: String,
    payload: &str,
    parsed: Option<&JsonValue>,
) -> (r: EnergiaProError)
    ensures
        match parsed {
            Some(p) => {
                if is_error_payload(*p) {
                    api_error_is(r, *p)
                } else {
                    http_status_error_is(r, status, endpoint@, payload@)
                }
            },
            None => http_status_error_is(r, status, endpoint@, payload@),
        },
{
    if let Some(p) = parsed {
        if let Some(error) = EnergiaProError::from_api_payload(p) {
            return error;
        }
    }
    let body_snippet = error_body_snippet(payload);
    EnergiaProError::HttpStatus { status, endpoint, body_snippet }
}

} // verus!
