//! Responses: the file served with its content type, and the error page.

use crate::error::{classify, status_of, Error, IoErrorKind};
use crate::mime::{file_path_mime, mime_of, Mime};
use crate::path::extension;
use crate::status::Status;
use crate::template::{error_page, render_error_html};
use vstd::prelude::*;
use vstd::utf8::encode_utf8;

verus! {

/// A response as the server builds it: a status, the two headers that it
/// sets, and the body.
#[derive(Debug)]
pub struct Response {
    pub status: Status,
    /// The `Content-Length` header.
    pub content_length: u64,
    /// The `Content-Type` header, where the response has one.
    pub content_type: Option<Mime>,
    pub body: Vec<u8>,
}

/// What a `Response` holds.
pub struct ResponseView {
    pub status: Status,
    pub content_length: int,
    pub content_type: Option<Mime>,
    pub body: Seq<u8>,
}

impl View for Response {
    type V = ResponseView;

    open spec fn view(&self) -> ResponseView {
        ResponseView {
            status: self.status,
            content_length: self.content_length as int,
            content_type: self.content_type,
            body: self.body@,
        }
    }
}

impl ResponseView {
    /// The `Content-Length` header gives the length of the body.
    pub open spec fn well_formed(self) -> bool {
        self.content_length == self.body.len()
    }
}

/// The response that serves `content`, read from the file at `path`:
/// status 200, the content's length, the content type of the path's
/// extension, and the content itself.
pub open spec fn file_response(content: Seq<u8>, path: Seq<char>) -> ResponseView {
    ResponseView {
        status: Status::Success,
        content_length: content.len() as int,
        content_type: Some(mime_of(extension(path))),
        body: content,
    }
}

/// The response that carries the error page `html` for `status`: the
/// page's bytes and their number, and no content type.
pub open spec fn error_page_response(status: Status, html: Seq<char>) -> ResponseView {
    ResponseView {
        status,
        content_length: encode_utf8(html).len() as int,
        content_type: None,
        body: encode_utf8(html),
    }
}

/// How an error with `status` is answered: with its error page, or not at
/// all where the page does not render.
pub open spec fn error_outcome(status: Status) -> Result<ResponseView, Error> {
    match error_page(status) {
        Some(html) => Ok(error_page_response(status, html)),
        None => Err(Error::Handlebars),
    }
}

/// What a built response, or the failure to build it, holds.
pub open spec fn outcome_view(r: Result<Response, Error>) -> Result<ResponseView, Error> {
    match r {
        Ok(response) => Ok(response@),
        Err(e) => Err(e),
    }
}

/// Builds the response that serves the content of the file at `path`.
pub fn respond_with_file(content: Vec<u8>, path: &str) -> (response: Response)
    ensures
        response@ == file_response(content@, path@),
        response@.well_formed(),
{
    Response {
        status: Status::Success,
        content_length: content.len() as u64,
        content_type: Some(file_path_mime(path)),
        body: content,
    }
}

/// Wraps a rendered error page into the response for `status`.
pub fn respond_with_page(status: Status, html: String) -> (response: Response)
    ensures
        response@ == error_page_response(status, html@),
        response@.well_formed(),
{
    let body = html.as_str().as_bytes_vec();
    Response { status, content_length: body.len() as u64, content_type: None, body }
}

/// Builds the error response for `status`: its page is rendered and
/// wrapped.
pub fn error_response(status: Status) -> (r: Result<Response, Error>)
    ensures
        outcome_view(r) == error_outcome(status),
        r matches Ok(response) ==> response@.well_formed(),
{
    match render_error_html(status) {
        Ok(html) => Ok(respond_with_page(status, html)),
        Err(e) => Err(e),
    }
}

/// Builds the response for a request that cannot be served: status 500.
pub fn internal_server_error() -> (r: Result<Response, Error>)
    ensures
        outcome_view(r) == error_outcome(Status::InternalServerError),
        r matches Ok(response) ==> response@.well_formed(),
{
    error_response(Status::InternalServerError)
}

/// Builds the response for a file that could not be opened: status 404
/// when it does not exist, status 500 otherwise.
pub fn handle_io_error(kind: IoErrorKind) -> (r: Result<Response, Error>)
    ensures
        outcome_view(r) == error_outcome(status_of(kind)),
        r matches Ok(response) ==> response@.well_formed(),
{
    match classify(kind) {
        Status::NotFound => error_response(Status::NotFound),
        _ => internal_server_error(),
    }
}

} // verus!
