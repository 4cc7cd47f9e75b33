//! The status codes that the server answers with.

use vstd::prelude::*;

verus! {

/// The status of a response.
#[derive(Clone, Copy, Debug, PartialEq, Eq, Structural)]
pub enum Status {
    /// 200: the file was found and read.
    Success,
    /// 404: the file does not exist.
    NotFound,
    /// 500: the request could not be resolved, or the file could not be
    /// opened or read.
    InternalServerError,
}

impl Status {
    /// The numeric status code.
    pub open spec fn code(self) -> int {
        match self {
            Status::Success => 200,
            Status::NotFound => 404,
            Status::InternalServerError => 500,
        }
    }

    /// The status line: the code, a space, and the reason phrase.
    pub open spec fn line(self) -> Seq<char> {
        match self {
            Status::Success => "200 OK"@,
            Status::NotFound => "404 Not Found"@,
            Status::InternalServerError => "500 Internal Server Error"@,
        }
    }

    /// The numeric status code.
    pub fn as_u16(self) -> (code: u16)
        ensures
            code == self.code(),
    {
        match self {
            Status::Success => 200,
            Status::NotFound => 404,
            Status::InternalServerError => 500,
        }
    }
}

/// The status line of `status`, printed by the `http` crate: the `Display`
/// of its `StatusCode` writes the code, a space, and the code's canonical
/// reason phrase. Trusted: that for the three codes of `Status` this is the
/// text that `Status::line` gives.
#[verifier::external_body]
pub(crate) fn status_line(status: Status) -> (line: String)
    ensures
        line@ == status.line(),
{
    let code = match status {
        Status::Success => http::StatusCode::OK,
        Status::NotFound => http::StatusCode::NOT_FOUND,
        Status::InternalServerError => http::StatusCode::INTERNAL_SERVER_ERROR,
    };
    format!("{}", code)
}

} // verus!
