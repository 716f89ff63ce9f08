//! Judging a capability probe: what the metadata response's indicators must
//! hold before a ranged download may start.

use vstd::prelude::*;

use crate::decimal::{dec_value, parse_u64, parses_as_u64};
use crate::errors::FetchError;
use crate::strings::{str_eq, strip_quotes, without_quotes};

verus! {

/// What the capability probe of the server yielded: the total content
/// length, the server's consent to range requests, and the content digest
/// indicator when the server sent one.
#[derive(Debug)]
pub struct ProbeResult {
    /// Total length of the resource in bytes.
    pub content_length: u64,
    /// Whether the server accepts range requests; a probe only succeeds
    /// when it does.
    pub accepts_ranges: bool,
    /// The entity tag carried by the probe response, if any, as received.
    pub etag: Option<String>,
}

/// The message when the range-support indicator is absent.
pub open spec fn missing_accept_ranges_message() -> Seq<char> {
    "Server does not include Accept-Ranges header"@
}

/// The message when the total-length indicator is absent.
pub open spec fn missing_content_length_message() -> Seq<char> {
    "Server does not include Content-Length header"@
}

/// The message when the total-length indicator is not an unsigned integer.
pub open spec fn unparsable_content_length_message() -> Seq<char> {
    "Server returned Content-Length header that cannot be parsed to u64"@
}

/// The message when the server denies range support outright.
pub open spec fn ranges_denied_message() -> Seq<char> {
    "Server's Accept-Ranges header set to none"@
}

/// The message when verification was requested but no digest was probed.
pub open spec fn missing_etag_message() -> Seq<char> {
    "Server did not include ETag header"@
}

/// Decides the outcome of the capability probe from the metadata
/// response's indicators: the range-support value, the total-length value
/// and the optional entity tag, each as the header string when present.
///
/// Fails with a server-support error when the range-support indicator is
/// absent, when the total-length indicator is absent or not an unsigned
/// integer, or when the range-support indicator denies support outright.
pub fn probe_response(
    accept_ranges: &Option<String>,
    content_length: &Option<String>,
    etag: &Option<String>,
) -> (r: Result<ProbeResult, FetchError>)
    ensures
        ({
            match (accept_ranges, content_length) {
                (None, _) => r matches Err(e) && e matches FetchError::ServerSupportError(m)
                    && m@ == missing_accept_ranges_message(),
                (Some(_), None) => r matches Err(e) && e matches FetchError::ServerSupportError(m)
                    && m@ == missing_content_length_message(),
                (Some(a), Some(cl)) => if !parses_as_u64(cl@) {
                    r matches Err(e) && e matches FetchError::ServerSupportError(m) && m@
                        == unparsable_content_length_message()
                } else if a@ == "none"@ {
                    r matches Err(e) && e matches FetchError::ServerSupportError(m) && m@
                        == ranges_denied_message()
                } else {
                    r matches Ok(p) && p.content_length == dec_value(cl@) && p.accepts_ranges
                        && p.etag == *etag
                },
            }
        }),
{
    let ranges_header = match accept_ranges {
        None => {
            return Err(
                FetchError::ServerSupportError(
                    String::from_str("Server does not include Accept-Ranges header"),
                ),
            );
        },
        Some(a) => a,
    };
    let length_header = match content_length {
        None => {
            return Err(
                FetchError::ServerSupportError(
                    String::from_str("Server does not include Content-Length header"),
                ),
            );
        },
        Some(cl) => cl,
    };
    let length = match parse_u64(length_header.as_str()) {
        None => {
            return Err(
                FetchError::ServerSupportError(
                    String::from_str(
                        "Server returned Content-Length header that cannot be parsed to u64",
                    ),
                ),
            );
        },
        Some(v) => v,
    };
    proof {
        crate::decimal::lemma_dec_value_nonneg(length_header@);
    }
    if str_eq(ranges_header.as_str(), "none") {
        return Err(
            FetchError::ServerSupportError(
                String::from_str("Server's Accept-Ranges header set to none"),
            ),
        );
    }
    let tag = match etag {
        Some(t) => Some(t.clone()),
        None => None,
    };
    Ok(ProbeResult { content_length: length, accepts_ranges: true, etag: tag })
}

/// Settles the verification prerequisite once all ranges are done: when
/// verification was requested, a probed entity tag must exist, and its
/// quotes are stripped for digest comparison; when it was not, there is
/// nothing to check.
pub fn require_etag(check_etag: bool, etag: &Option<String>) -> (r: Result<
    Option<String>,
    FetchError,
>)
    ensures
        ({
            if !check_etag {
                r matches Ok(o) && o is None
            } else {
                match etag {
                    None => r matches Err(e) && e matches FetchError::ServerSupportError(m)
                        && m@ == missing_etag_message(),
                    Some(t) => r matches Ok(o) && o matches Some(s) && s@ == without_quotes(t@),
                }
            }
        }),
{
    if !check_etag {
        return Ok(None);
    }
    match etag {
        None => Err(
            FetchError::ServerSupportError(
                String::from_str("Server did not include ETag header"),
            ),
        ),
        Some(t) => Ok(Some(strip_quotes(t.as_str()))),
    }
}

} // verus!
