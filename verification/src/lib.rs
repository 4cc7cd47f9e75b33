//! The request-handling core of a static-content HTTP server.
//!
//! A request path is resolved to a file path under a root directory; the
//! file's bytes are served with a content type chosen by extension, and a
//! failure becomes an HTML error page with a matching status.

pub mod config;
pub mod error;
pub mod handler;
pub mod mime;
pub mod path;
pub mod response;
pub mod status;
pub mod template;
pub mod text;
