//! Error taxonomy of the server core.
//!
//! `NotFound` is the only condition the resolver recovers from (it drives the
//! fallback chain); every other variant aborts resolution for the request.

use vstd::prelude::*;
use vstd::string::StringExecFns;

verus! {

/// An error raised while resolving a request or configuring the server.
///
/// `Backend` stands for a failure reported by the storage backend; the two
/// facts the core reads from such a failure are whether it is a not-found
/// condition and its human-readable text. `ParseUrl` reports a malformed
/// storage URL at startup.
#[derive(Debug)]
pub enum Error {
    Unknown,
    InvalidFile { message: String },
    Timeout,
    NotFound { file: String },
    Backend { not_found: bool, message: String },
    ParseUrl { message: String },
}

/// The mathematical shape of an error.
pub ghost enum ErrorV {
    Unknown,
    InvalidFile(Seq<char>),
    Timeout,
    NotFound(Seq<char>),
    Backend(bool, Seq<char>),
    ParseUrl(Seq<char>),
}

impl View for Error {
    type V = ErrorV;

    open spec fn view(&self) -> ErrorV {
        match self {
            Error::Unknown => ErrorV::Unknown,
            Error::InvalidFile { message } => ErrorV::InvalidFile(message@),
            Error::Timeout => ErrorV::Timeout,
            Error::NotFound { file } => ErrorV::NotFound(file@),
            Error::Backend { not_found, message } => ErrorV::Backend(*not_found, message@),
            Error::ParseUrl { message } => ErrorV::ParseUrl(message@),
        }
    }
}

/// The not-found test at the level of error shapes.
pub open spec fn errv_is_not_found(e: ErrorV) -> bool {
    match e {
        ErrorV::NotFound(_) => true,
        ErrorV::Backend(not_found, _) => not_found,
        _ => false,
    }
}

impl Error {
    /// True exactly for the errors that mean "the candidate is absent":
    /// a `NotFound` of the core itself, or a backend failure whose kind
    /// is not-found.
    pub fn is_not_found(&self) -> (r: bool)
        ensures
            r == self.spec_is_not_found(),
    {
        match self {
            Error::NotFound { .. } => true,
            Error::Backend { not_found, .. } => *not_found,
            _ => false,
        }
    }

    pub open spec fn spec_is_not_found(&self) -> bool {
        match self {
            Error::NotFound { .. } => true,
            Error::Backend { not_found, .. } => *not_found,
            _ => false,
        }
    }

    /// The HTTP status code the boundary translates this error into:
    /// 404 for the not-found conditions, 500 for `Unknown`, 408 for
    /// `Timeout`, and 400 for everything else.
    pub fn status_code(&self) -> (r: u16)
        ensures
            r == self.spec_status_code(),
    {
        if self.is_not_found() {
            404
        } else {
            match self {
                Error::Unknown => 500,
                Error::Timeout => 408,
                _ => 400,
            }
        }
    }

    pub open spec fn spec_status_code(&self) -> u16 {
        if self.spec_is_not_found() {
            404
        } else {
            match self {
                Error::Unknown => 500u16,
                Error::Timeout => 408u16,
                _ => 400u16,
            }
        }
    }

    /// The client-visible text of the error.
    pub fn message(&self) -> (r: String)
        ensures
            r@ == self.spec_message(),
    {
        match self {
            Error::Unknown => "An internal server error occurred".to_owned(),
            Error::InvalidFile { message } => "Invalid file: ".to_owned().concat(
                message.as_str(),
            ),
            Error::Timeout => "Request timed out".to_owned(),
            Error::NotFound { file } => "File not found: ".to_owned().concat(file.as_str()),
            Error::Backend { message, .. } => "Backend error: ".to_owned().concat(
                message.as_str(),
            ),
            Error::ParseUrl { message } => "Parse url error: ".to_owned().concat(
                message.as_str(),
            ),
        }
    }

    pub open spec fn spec_message(&self) -> Seq<char> {
        match self {
            Error::Unknown => "An internal server error occurred"@,
            Error::InvalidFile { message } => "Invalid file: "@ + message@,
            Error::Timeout => "Request timed out"@,
            Error::NotFound { file } => "File not found: "@ + file@,
            Error::Backend { message, .. } => "Backend error: "@ + message@,
            Error::ParseUrl { message } => "Parse url error: "@ + message@,
        }
    }
}

pub type ServeResult<T> = Result<T, Error>;

} // verus!
