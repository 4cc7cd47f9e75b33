//! The HTML page that error responses carry, rendered from a fixed
//! template.

use crate::error::Error;
use crate::status::{status_line, Status};
use vstd::prelude::*;

verus! {

/// The page template, in Handlebars syntax. `title` is escaped for HTML;
/// `body` is inserted as it is.
pub const HTML_TEMPLATE: &'static str =
    "<!DOCTYPE html>\n<html>\n<head>\n<meta charset=\"utf-8\">\n<title>{{title}}</title>\n</head>\n<body>\n{{{body}}}\n</body>\n</html>\n";

/// What a page is rendered from.
pub struct HtmlCfg {
    pub title: String,
    pub body: String,
}

/// `handlebars::RenderError`, the error of a rendering. It is carried, and
/// never looked into.
#[verifier::external_type_specification]
#[verifier::external_body]
pub struct ExRenderError(handlebars::RenderError);

/// What Handlebars renders from `template` for the data that holds `title`
/// and `body` under these two names, or `None` where it reports an error.
pub uninterp spec fn handlebars_rendered(
    template: Seq<char>,
    title: Seq<char>,
    body: Seq<char>,
) -> Option<Seq<char>>;

/// Renders `template` with `Handlebars::render_template` of the
/// `handlebars` crate, on a registry as `Handlebars::new` makes it, and on
/// `cfg` as a map from the names of its two fields to their strings.
/// Trusted: that the outcome depends on the template and the two strings
/// alone, so that it has a name. Only the page template is admitted.
#[verifier::external_body]
fn render_template(template: &str, cfg: &HtmlCfg) -> (r: Result<String, handlebars::RenderError>)
    requires
        template@ == HTML_TEMPLATE@,
    ensures
        match r {
            Ok(html) => handlebars_rendered(template@, cfg.title@, cfg.body@) == Some(html@),
            Err(_) => handlebars_rendered(template@, cfg.title@, cfg.body@) is None,
        },
{
    let mut data = std::collections::BTreeMap::new();
    data.insert("title", cfg.title.as_str());
    data.insert("body", cfg.body.as_str());
    handlebars::Handlebars::new().render_template(template, &data)
}

/// The page for `title` and `body`, if the template renders.
pub open spec fn page(title: Seq<char>, body: Seq<char>) -> Option<Seq<char>> {
    handlebars_rendered(HTML_TEMPLATE@, title, body)
}

/// The error page for `status`, if the template renders: its title is the
/// status line and its body is empty.
pub open spec fn error_page(status: Status) -> Option<Seq<char>> {
    page(status.line(), Seq::empty())
}

/// Renders the page for `cfg` from the template.
pub fn render_html(cfg: HtmlCfg) -> (r: Result<String, Error>)
    ensures
        match r {
            Ok(html) => page(cfg.title@, cfg.body@) == Some(html@),
            Err(e) => e == Error::Handlebars && page(cfg.title@, cfg.body@) is None,
        },
{
    match render_template(HTML_TEMPLATE, &cfg) {
        Ok(html) => Ok(html),
        Err(_) => Err(Error::Handlebars),
    }
}

/// Renders the error page for `status`.
pub fn render_error_html(status: Status) -> (r: Result<String, Error>)
    ensures
        match r {
            Ok(html) => error_page(status) == Some(html@),
            Err(e) => e == Error::Handlebars && error_page(status) is None,
        },
{
    render_html(HtmlCfg { title: status_line(status), body: String::new() })
}

/// Whether the template is sound: it renders the error page of every
/// status.
pub open spec fn template_is_valid() -> bool {
    forall|status: Status| (#[trigger] error_page(status)) is Some
}

/// Checks, by rendering them, that the template gives a page for every
/// status. A server that has checked this once when it started answers
/// every failed request with a page.
pub fn validate_template() -> (r: Result<(), Error>)
    ensures
        r is Ok <==> template_is_valid(),
        r matches Err(e) ==> e == Error::Handlebars,
{
    if let Err(e) = render_error_html(Status::Success) {
        return Err(e);
    }
    if let Err(e) = render_error_html(Status::NotFound) {
        return Err(e);
    }
    if let Err(e) = render_error_html(Status::InternalServerError) {
        return Err(e);
    }
    assert forall|status: Status| (#[trigger] error_page(status)) is Some by {
        match status {
            Status::Success => {},
            Status::NotFound => {},
            Status::InternalServerError => {},
        }
    }
    Ok(())
}

} // verus!
