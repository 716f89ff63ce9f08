//! Core logic of a parallel HTTP range downloader.
//!
//! The library holds the decision and validation logic of the downloader:
//! planning byte ranges, judging a server's capability probe, validating
//! range responses, supervising retries, joining per-range outcomes,
//! modelling positional writes to the destination file, and checking the
//! completed content against a server-supplied digest.  Network and file
//! I/O live outside the library and hand it plain values.

pub mod decimal;
pub mod destination;
pub mod digest;
pub mod errors;
pub mod fetch;
pub mod path;
pub mod probe;
pub mod range;
pub mod retry;
pub mod strings;

pub use decimal::{parse_u64, u64_to_string};
pub use destination::write_at;
pub use digest::check_etag;
pub use errors::FetchError;
pub use fetch::{content_range_string, join_outcomes, validate_range_response, FetchOptions};
pub use path::parse_path;
pub use probe::{probe_response, require_etag, ProbeResult};
pub use range::{create_ranges, Range};
pub use retry::{RetryDecision, RetryState};
pub use strings::{join_path, str_eq, strip_quotes};
