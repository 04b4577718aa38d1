//! Error values surfaced by every operation of the library.

use vstd::prelude::*;

verus! {

/// Errors in contacting the remote metadata service.
#[derive(Debug, Clone)]
pub enum TvdbError {
    /// An internal error within this library.
    InternalError { reason: String },
    /// When looking up a nonexistent series (legacy generation only).
    SeriesNotFound,
    /// Error contacting the service (e.g. an HTTP failure).
    CommunicationError { reason: String },
    /// Malformed data in a response from the service.
    DataError { reason: String },
    /// User cancelled in some interactive fashion; never raised here.
    Cancelled,
}

/// Shortcut for some type wrapped in a `TvdbError`.
pub type TvdbResult<T> = Result<T, TvdbError>;

/// What `describe` returns for each error value.
pub open spec fn describe_spec(e: TvdbError) -> Seq<char> {
    match e {
        TvdbError::InternalError { reason } => "Internal error: "@ + reason@,
        TvdbError::SeriesNotFound => "Series not found"@,
        TvdbError::CommunicationError { reason } => "Communication error: "@ + reason@,
        TvdbError::DataError { reason } => "Data error: "@ + reason@,
        TvdbError::Cancelled => "Cancelled"@,
    }
}

impl TvdbError {
    /// A human-readable rendering of the error.
    pub fn describe(&self) -> (r: String)
        ensures
            r@ == describe_spec(*self),
    {
        match self {
            TvdbError::InternalError { reason } => {
                let mut s = "Internal error: ".to_owned();
                s.append(reason.as_str());
                s
            },
            TvdbError::SeriesNotFound => "Series not found".to_owned(),
            TvdbError::CommunicationError { reason } => {
                let mut s = "Communication error: ".to_owned();
                s.append(reason.as_str());
                s
            },
            TvdbError::DataError { reason } => {
                let mut s = "Data error: ".to_owned();
                s.append(reason.as_str());
                s
            },
            TvdbError::Cancelled => "Cancelled".to_owned(),
        }
    }
}

} // verus!
