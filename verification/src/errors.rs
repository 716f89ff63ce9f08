//! The closed error taxonomy of the downloader.

use vstd::prelude::*;

verus! {

/// Errors during a fetch, one variant per failure class.
///
/// `TransientError` covers network-level failures, timeouts and server 5xx
/// responses; it is the only class a retry may absorb.  `ClientRequestError`
/// covers server 4xx responses, which retrying cannot help.
#[derive(Debug, Clone)]
pub enum FetchError {
    /// The server's responses violate the range-request contract.
    ServerSupportError(String),
    /// Caller-supplied configuration is unusable.
    InvalidArgumentsError(String),
    /// The completed file failed integrity validation.
    ValidationError(String),
    /// A transient transport or server-side failure, retryable.
    TransientError {
        /// The response status, when the failure came with one.
        status_code: Option<u16>,
        /// A human-readable account of the failure.
        message: String,
    },
    /// The server reported a client error for a specific request; never retried.
    ClientRequestError {
        /// The 4xx response status.
        status_code: u16,
        /// A human-readable account of the failure.
        message: String,
    },
    /// A local filesystem failure.
    IoError(String),
}

impl FetchError {
    /// Whether a retry may absorb this failure.
    pub open spec fn retryable(self) -> bool {
        self matches FetchError::TransientError { .. }
    }

    /// Whether this failure came from a server-reported client error.
    pub open spec fn client_request(self) -> bool {
        self matches FetchError::ClientRequestError { .. }
    }

    /// The message carried by the error.
    pub open spec fn description_spec(self) -> Seq<char> {
        match self {
            FetchError::ServerSupportError(s) => s@,
            FetchError::InvalidArgumentsError(s) => s@,
            FetchError::ValidationError(s) => s@,
            FetchError::TransientError { message, .. } => message@,
            FetchError::ClientRequestError { message, .. } => message@,
            FetchError::IoError(s) => s@,
        }
    }

    /// Returns a value equal to this error.
    pub fn duplicate(&self) -> (r: FetchError)
        ensures
            r == *self,
    {
        match self {
            FetchError::ServerSupportError(s) => FetchError::ServerSupportError(s.clone()),
            FetchError::InvalidArgumentsError(s) => FetchError::InvalidArgumentsError(s.clone()),
            FetchError::ValidationError(s) => FetchError::ValidationError(s.clone()),
            FetchError::TransientError { status_code, message } => FetchError::TransientError {
                status_code: *status_code,
                message: message.clone(),
            },
            FetchError::ClientRequestError { status_code, message } => {
                FetchError::ClientRequestError {
                    status_code: *status_code,
                    message: message.clone(),
                }
            },
            FetchError::IoError(s) => FetchError::IoError(s.clone()),
        }
    }

    /// Returns whether a retry may absorb this failure.
    pub fn is_retryable(&self) -> (r: bool)
        ensures
            r == self.retryable(),
    {
        matches!(self, FetchError::TransientError { .. })
    }

    /// Returns the message carried by the error.
    pub fn description(&self) -> (r: &str)
        ensures
            r@ == self.description_spec(),
    {
        match self {
            FetchError::ServerSupportError(s) => s.as_str(),
            FetchError::InvalidArgumentsError(s) => s.as_str(),
            FetchError::ValidationError(s) => s.as_str(),
            FetchError::TransientError { message, .. } => message.as_str(),
            FetchError::ClientRequestError { message, .. } => message.as_str(),
            FetchError::IoError(s) => s.as_str(),
        }
    }
}

} // verus!
