//! What a single request to an upstream service came back with.
//!
//! The caller performs the request and reports the outcome; nothing here
//! retries, and every failure is final for the run.

use vstd::prelude::*;

verus! {

/// The report of one HTTP GET whose body was to be read as a document of
/// type `T`.
#[derive(Clone, Debug, PartialEq, Eq)]
pub enum Fetched<T> {
    /// No response arrived.
    Unreachable,
    /// A response arrived with this status code. `body` is the document that
    /// was read from it, or `None` where the body could not be read as one.
    Answered { status: u16, body: Option<T> },
}

/// Why an upstream document is not available.
#[derive(Clone, Copy, Debug, PartialEq, Eq, Structural)]
pub enum UpstreamFailure {
    /// No response arrived.
    Unreachable,
    /// The response carried a status code outside the success range.
    Status(u16),
    /// The response body was not a document of the expected shape.
    Malformed,
}

/// The success range of HTTP status codes.
pub open spec fn is_success(status: u16) -> bool {
    200 <= status <= 299
}

/// Whether `status` lies in the success range.
pub fn is_success_status(status: u16) -> (r: bool)
    ensures
        r == is_success(status),
{
    200 <= status && status <= 299
}

impl<T> Fetched<T> {
    /// The failure that this report stands for, if any. The status is judged
    /// before the body: a body that came with a failing status is never used.
    pub open spec fn failure(&self) -> Option<UpstreamFailure> {
        match self {
            Fetched::Unreachable => Some(UpstreamFailure::Unreachable),
            Fetched::Answered { status, body } => if !is_success(*status) {
                Some(UpstreamFailure::Status(*status))
            } else if body is None {
                Some(UpstreamFailure::Malformed)
            } else {
                None
            },
        }
    }

    /// The document of a report without failure.
    pub open spec fn document(&self) -> T
        recommends
            self.failure() is None,
    {
        self->body->0
    }

    /// The document, or the reason why there is none.
    pub fn body(&self) -> (r: Result<&T, UpstreamFailure>)
        ensures
            match r {
                Ok(doc) => self.failure() is None && *doc == self.document(),
                Err(e) => self.failure() == Some(e),
            },
    {
        match self {
            Fetched::Unreachable => Err(UpstreamFailure::Unreachable),
            Fetched::Answered { status, body } => {
                if !is_success_status(*status) {
                    Err(UpstreamFailure::Status(*status))
                } else {
                    match body {
                        Some(doc) => Ok(doc),
                        None => Err(UpstreamFailure::Malformed),
                    }
                }
            },
        }
    }
}

} // verus!
