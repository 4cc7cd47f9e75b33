//! What can go wrong while a request is handled.

use crate::status::Status;
use vstd::prelude::*;

verus! {

/// Why the file system refused to open or read a file.
#[derive(Clone, Copy, Debug, PartialEq, Eq, Structural)]
pub enum IoErrorKind {
    /// The file does not exist.
    NotFound,
    /// The file exists and may not be read.
    PermissionDenied,
    /// Anything else: a directory in place of a file, too many open
    /// files, a failing device.
    Other,
}

/// A failure that ends a request without a response of the server's own.
#[derive(Clone, Copy, Debug, PartialEq, Eq, Structural)]
pub enum Error {
    /// The error page could not be rendered from the template.
    Handlebars,
    /// The post-processing hook failed.
    Hook,
    /// An event arrived that the handler was not waiting for.
    UnexpectedEvent,
}

impl Error {
    /// A short description of the failure.
    pub open spec fn description_text(self) -> Seq<char> {
        match self {
            Error::Handlebars => "the error page template failed to render"@,
            Error::Hook => "the post-processing hook failed"@,
            Error::UnexpectedEvent => "the request handler got an event out of turn"@,
        }
    }

    /// A short description of the failure.
    pub fn description(self) -> (text: &'static str)
        ensures
            text@ == self.description_text(),
    {
        match self {
            Error::Handlebars => "the error page template failed to render",
            Error::Hook => "the post-processing hook failed",
            Error::UnexpectedEvent => "the request handler got an event out of turn",
        }
    }
}

/// The status that a failure to open a file is answered with: 404 when
/// the file does not exist, 500 for every other failure.
pub open spec fn status_of(kind: IoErrorKind) -> Status {
    match kind {
        IoErrorKind::NotFound => Status::NotFound,
        _ => Status::InternalServerError,
    }
}

/// Classifies a failure to open a file.
pub fn classify(kind: IoErrorKind) -> (status: Status)
    ensures
        status == status_of(kind),
{
    match kind {
        IoErrorKind::NotFound => Status::NotFound,
        _ => Status::InternalServerError,
    }
}

} // verus!
