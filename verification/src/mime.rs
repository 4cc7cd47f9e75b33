//! Content types, chosen by file extension.

use crate::path::{extension, path_extension};
use crate::text::str_eq;
use vstd::prelude::*;

verus! {

/// The content types that the server knows.
#[derive(Clone, Copy, Debug, PartialEq, Eq, Structural)]
pub enum Mime {
    TextHtml,
    TextCss,
    TextJavascript,
    ImageJpeg,
    TextMarkdown,
    ImagePng,
    ImageSvg,
    ApplicationWasm,
    TextPlain,
}

impl Mime {
    /// The content type as it is written in a `Content-Type` header.
    pub open spec fn text(self) -> Seq<char> {
        match self {
            Mime::TextHtml => "text/html"@,
            Mime::TextCss => "text/css"@,
            Mime::TextJavascript => "text/javascript"@,
            Mime::ImageJpeg => "image/jpeg"@,
            Mime::TextMarkdown => "text/markdown;charset=UTF-8"@,
            Mime::ImagePng => "image/png"@,
            Mime::ImageSvg => "image/svg+xml"@,
            Mime::ApplicationWasm => "application/wasm"@,
            Mime::TextPlain => "text/plain"@,
        }
    }

    /// The content type as it is written in a `Content-Type` header.
    pub fn as_str(self) -> (s: &'static str)
        ensures
            s@ == self.text(),
    {
        match self {
            Mime::TextHtml => "text/html",
            Mime::TextCss => "text/css",
            Mime::TextJavascript => "text/javascript",
            Mime::ImageJpeg => "image/jpeg",
            Mime::TextMarkdown => "text/markdown;charset=UTF-8",
            Mime::ImagePng => "image/png",
            Mime::ImageSvg => "image/svg+xml",
            Mime::ApplicationWasm => "application/wasm",
            Mime::TextPlain => "text/plain",
        }
    }
}

/// The content type for an extension. Extensions are compared as they are
/// written, letter case included; an extension that the table does not
/// hold, and a missing one, mean plain text.
pub open spec fn mime_of(extension: Option<Seq<char>>) -> Mime {
    match extension {
        Some(e) => if e == "html"@ {
            Mime::TextHtml
        } else if e == "css"@ {
            Mime::TextCss
        } else if e == "js"@ {
            Mime::TextJavascript
        } else if e == "jpg"@ {
            Mime::ImageJpeg
        } else if e == "md"@ {
            Mime::TextMarkdown
        } else if e == "png"@ {
            Mime::ImagePng
        } else if e == "svg"@ {
            Mime::ImageSvg
        } else if e == "wasm"@ {
            Mime::ApplicationWasm
        } else {
            Mime::TextPlain
        },
        None => Mime::TextPlain,
    }
}

/// The view of an optional string.
pub open spec fn view_of(s: Option<&str>) -> Option<Seq<char>> {
    match s {
        Some(e) => Some(e@),
        None => None,
    }
}

/// Looks an extension up in the content-type table.
pub fn mime_for(extension: Option<&str>) -> (mime: Mime)
    ensures
        mime == mime_of(view_of(extension)),
{
    match extension {
        Some(e) => if str_eq(e, "html") {
            Mime::TextHtml
        } else if str_eq(e, "css") {
            Mime::TextCss
        } else if str_eq(e, "js") {
            Mime::TextJavascript
        } else if str_eq(e, "jpg") {
            Mime::ImageJpeg
        } else if str_eq(e, "md") {
            Mime::TextMarkdown
        } else if str_eq(e, "png") {
            Mime::ImagePng
        } else if str_eq(e, "svg") {
            Mime::ImageSvg
        } else if str_eq(e, "wasm") {
            Mime::ApplicationWasm
        } else {
            Mime::TextPlain
        },
        None => Mime::TextPlain,
    }
}

/// The content type of the file that `path` names, by its extension.
pub fn file_path_mime(path: &str) -> (mime: Mime)
    ensures
        mime == mime_of(extension(path@)),
{
    mime_for(path_extension(path))
}

} // verus!
