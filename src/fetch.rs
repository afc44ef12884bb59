//! Decisions on a fetched page: its HTTP status, and its text form.
use vstd::prelude::*;
use crate::error::ToolError;

verus! {

/// The plain-text rendering of `html` at 80 columns, as `html2text::from_read` computes it.
pub uninterp spec fn text_of_html(html: Seq<char>) -> Seq<char>;

/// Whether `html2text::from_read` at 80 columns converts `html` without error.
pub uninterp spec fn html_converts(html: Seq<char>) -> bool;

/// Declares `html2text::Error`, the converter's error, carried opaque to its description.
#[verifier::external_type_specification]
#[verifier::external_body]
pub struct ExHtmlError(html2text::Error);

/// Relies on `html2text::from_read` with width 80: the text form of a page,
/// which depends on the HTML alone, or the converter's error; whether it
/// fails depends on the HTML alone too.
#[verifier::external_body]
fn html_to_text(html: &str) -> (r: Result<String, html2text::Error>)
    ensures
        r is Ok <==> html_converts(html@),
        r matches Ok(t) ==> t@ == text_of_html(html@),
{
    html2text::from_read(html.as_bytes(), 80)
}

/// Relies on the `Display` of `html2text::Error`: its description.
#[verifier::external_body]
fn describe_html_error(e: &html2text::Error) -> (r: String) {
    e.to_string()
}

/// An HTTP status in `200..300`.
pub open spec fn is_success(code: u16) -> bool {
    200 <= code < 300
}

/// Judges the status of a page response: `404` is a missing page, another
/// status outside `200..300` a failed fetch, described by `status_text`.
pub fn check_page_status(url: &str, code: u16, status_text: &String) -> (r: Result<(), ToolError>)
    ensures
        code == 404 ==> (r matches Err(ToolError::PageNotFound(u)) && u@ == url@),
        code != 404 && !is_success(code) ==> (r matches Err(ToolError::FetchStatus(s)) && s@
            == status_text@),
        code != 404 && is_success(code) ==> r is Ok,
{
    if code == 404 {
        Err(ToolError::PageNotFound(url.to_owned()))
    } else if code < 200 || code >= 300 {
        Err(ToolError::FetchStatus(status_text.clone()))
    } else {
        Ok(())
    }
}

/// The text form of a fetched page.
pub fn page_text(html: &str) -> (r: Result<String, ToolError>)
    ensures
        r is Ok <==> html_converts(html@),
        r matches Ok(t) ==> t@ == text_of_html(html@),
        r matches Err(e) ==> e is HtmlConversion,
{
    match html_to_text(html) {
        Ok(t) => Ok(t),
        Err(e) => Err(ToolError::HtmlConversion(describe_html_error(&e))),
    }
}

} // verus!
