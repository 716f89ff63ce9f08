//! Validation of one range response, and the join of all per-range
//! outcomes into the overall download result.

use vstd::prelude::*;

use crate::decimal::{dec_seq, dec_value, parse_u64, parses_as_u64, u64_to_string};
use crate::errors::FetchError;
use crate::range::Range;
use crate::strings::str_eq;

verus! {

/// Options for one download.
#[derive(Debug)]
pub struct FetchOptions {
    /// The url to fetch from.
    pub url: String,
    /// An optional output location.
    pub output_option: Option<String>,
    /// The number of parallel fetches to execute.
    pub num_fetches: u64,
    /// Whether to check the downloaded file's digest against the server's
    /// entity tag.
    pub check_etag: bool,
    /// The number of times to attempt a failed chunk fetch.
    pub max_retries: u64,
}

/// The canonical content-range value a server must echo for a range:
/// `bytes {start}-{end}/{total}`.
pub open spec fn content_range_seq(start: u64, end: u64, total: u64) -> Seq<char> {
    "bytes "@ + dec_seq(start as int) + "-"@ + dec_seq(end as int) + "/"@ + dec_seq(total as int)
}

/// Builds the canonical content-range value for a range of a resource.
pub fn content_range_string(start: u64, end: u64, total: u64) -> (r: String)
    ensures
        r@ == content_range_seq(start, end, total),
{
    let mut s = String::from_str("bytes ");
    let start_digits = u64_to_string(start);
    s.append(start_digits.as_str());
    s.append("-");
    let end_digits = u64_to_string(end);
    s.append(end_digits.as_str());
    s.append("/");
    let total_digits = u64_to_string(total);
    s.append(total_digits.as_str());
    proof {
        assert(s@ =~= content_range_seq(start, end, total));
    }
    s
}

/// The message when a range request came back with a client error status.
pub open spec fn client_status_message() -> Seq<char> {
    "Range request failed with a client error status"@
}

/// The message when a range request came back with a server error status.
pub open spec fn server_status_message() -> Seq<char> {
    "Range request failed with a server error status"@
}

/// The message when a range response is not partial content.
pub open spec fn not_partial_content_message() -> Seq<char> {
    "Range response status code was not a 206"@
}

/// The message when a range response lacks its content-range indicator.
pub open spec fn missing_content_range_message() -> Seq<char> {
    "Range response did not include Content-Range header"@
}

/// The message when a range response lacks its content-length indicator.
pub open spec fn missing_range_length_message() -> Seq<char> {
    "Range response did not include Content-Length header"@
}

/// The message when a range response's length is not an unsigned integer.
pub open spec fn unparsable_range_length_message() -> Seq<char> {
    "Server returned Content-Length header that cannot be parsed to u64"@
}

/// The message when the echoed content-range differs from the request.
pub open spec fn content_range_mismatch_message() -> Seq<char> {
    "Range response Content-Range headers did not match expected"@
}

/// The message when the response length differs from the span's size.
pub open spec fn wrong_range_length_message() -> Seq<char> {
    "Range response Content-Length was incorrect"@
}

/// Validates one range response before its body may be written: the status
/// must be partial content, the echoed content-range must equal the
/// canonical form for the requested span, and the response length must
/// equal the span's size.
///
/// A 4xx status is a client-request failure, never retried; a 5xx status
/// is a transient failure, eligible for retry; every other deviation is a
/// server-support failure.
pub fn validate_range_response(
    range: Range,
    total_length: u64,
    status: u16,
    content_range: &Option<String>,
    content_length: &Option<String>,
) -> (r: Result<(), FetchError>)
    requires
        range.wf(),
        range.end < total_length,
    ensures
        ({
            if 400 <= status < 500 {
                r matches Err(e) && e matches FetchError::ClientRequestError {
                    status_code,
                    message,
                } && status_code == status && message@ == client_status_message()
            } else if 500 <= status < 600 {
                r matches Err(e) && e matches FetchError::TransientError {
                    status_code,
                    message,
                } && status_code == Some(status) && message@ == server_status_message()
            } else if status != 206 {
                r matches Err(e) && e matches FetchError::ServerSupportError(m) && m@
                    == not_partial_content_message()
            } else {
                match (content_range, content_length) {
                    (None, _) => r matches Err(e) && e matches FetchError::ServerSupportError(m)
                        && m@ == missing_content_range_message(),
                    (Some(_), None) => r matches Err(e) && e matches
                        FetchError::ServerSupportError(m) && m@ == missing_range_length_message(),
                    (Some(cr), Some(cl)) => if !parses_as_u64(cl@) {
                        r matches Err(e) && e matches FetchError::ServerSupportError(m) && m@
                            == unparsable_range_length_message()
                    } else if cr@ != content_range_seq(range.start, range.end, total_length) {
                        r matches Err(e) && e matches FetchError::ServerSupportError(m) && m@
                            == content_range_mismatch_message()
                    } else if dec_value(cl@) != range.byte_len() {
                        r matches Err(e) && e matches FetchError::ServerSupportError(m) && m@
                            == wrong_range_length_message()
                    } else {
                        r is Ok
                    },
                }
            }
        }),
{
    if 400 <= status && status < 500 {
        return Err(
            FetchError::ClientRequestError {
                status_code: status,
                message: String::from_str("Range request failed with a client error status"),
            },
        );
    }
    if 500 <= status && status < 600 {
        return Err(
            FetchError::TransientError {
                status_code: Some(status),
                message: String::from_str("Range request failed with a server error status"),
            },
        );
    }
    if status != 206 {
        return Err(
            FetchError::ServerSupportError(
                String::from_str("Range response status code was not a 206"),
            ),
        );
    }
    let echoed = match content_range {
        None => {
            return Err(
                FetchError::ServerSupportError(
                    String::from_str("Range response did not include Content-Range header"),
                ),
            );
        },
        Some(cr) => cr,
    };
    let length_header = match content_length {
        None => {
            return Err(
                FetchError::ServerSupportError(
                    String::from_str("Range response did not include Content-Length header"),
                ),
            );
        },
        Some(cl) => cl,
    };
    let length = match parse_u64(length_header.as_str()) {
        None => {
            return Err(
                FetchError::ServerSupportError(
                    String::from_str(
                        "Server returned Content-Length header that cannot be parsed to u64",
                    ),
                ),
            );
        },
        Some(v) => v,
    };
    let expected = content_range_string(range.start, range.end, total_length);
    if !str_eq(echoed.as_str(), expected.as_str()) {
        return Err(
            FetchError::ServerSupportError(
                String::from_str("Range response Content-Range headers did not match expected"),
            ),
        );
    }
    proof {
        crate::decimal::lemma_dec_value_nonneg(length_header@);
    }
    if length != range.end - range.start + 1 {
        return Err(
            FetchError::ServerSupportError(
                String::from_str("Range response Content-Length was incorrect"),
            ),
        );
    }
    Ok(())
}

/// Whether every per-range outcome succeeded.
pub open spec fn all_ok(outcomes: Seq<Result<(), FetchError>>) -> bool {
    forall|i: int| 0 <= i < outcomes.len() ==> (#[trigger] outcomes[i]) is Ok
}

/// The index of the first failed outcome (the length when none failed).
pub open spec fn first_failure(outcomes: Seq<Result<(), FetchError>>) -> int
    decreases outcomes.len(),
{
    if outcomes.len() == 0 {
        0
    } else if outcomes[0] is Err {
        0
    } else {
        1 + first_failure(outcomes.drop_first())
    }
}

/// The first failed outcome of a run with a failure is at the index
/// before which every outcome succeeded.
proof fn lemma_first_failure_at(outcomes: Seq<Result<(), FetchError>>, i: int)
    requires
        0 <= i < outcomes.len(),
        outcomes[i] is Err,
        forall|j: int| 0 <= j < i ==> (#[trigger] outcomes[j]) is Ok,
    ensures
        first_failure(outcomes) == i,
    decreases i,
{
    if i == 0 {
    } else {
        assert(outcomes[0] is Ok);
        let rest = outcomes.drop_first();
        assert(rest[i - 1] is Err);
        assert forall|j: int| 0 <= j < i - 1 implies (#[trigger] rest[j]) is Ok by {
            assert(rest[j] == outcomes[j + 1]);
        }
        lemma_first_failure_at(rest, i - 1);
    }
}

/// Joins the per-range outcomes, collected in range order, into the
/// overall result: success when every range succeeded, else the first
/// failure.
pub fn join_outcomes(outcomes: &Vec<Result<(), FetchError>>) -> (r: Result<(), FetchError>)
    ensures
        all_ok(outcomes@) ==> r is Ok,
        !all_ok(outcomes@) ==> ({
            let k = first_failure(outcomes@);
            &&& 0 <= k < outcomes@.len()
            &&& outcomes@[k] is Err
            &&& (forall|j: int| 0 <= j < k ==> (#[trigger] outcomes@[j]) is Ok)
            &&& r == outcomes@[k]
        }),
{
    let n = outcomes.len();
    let mut k: usize = 0;
    while k < n
        invariant
            0 <= k <= n,
            n == outcomes@.len(),
            forall|j: int| 0 <= j < k ==> (#[trigger] outcomes@[j]) is Ok,
        decreases n - k,
    {
        match &outcomes[k] {
            Ok(_) => {
                k = k + 1;
            },
            Err(e) => {
                proof {
                    lemma_first_failure_at(outcomes@, k as int);
                }
                return Err(e.duplicate());
            },
        }
    }
    Ok(())
}

} // verus!
