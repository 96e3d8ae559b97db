//! Answering requests. A request either comes from a client that swaps
//! fragments into the page it shows, and then gets the bare fragment, or it
//! is a plain navigation, and then gets the fragment inside a complete page.
//! The same rule decides for every section and for the result of the
//! contact form. A path at which nothing is served gets a complete page of
//! its own, whoever asks.

pub mod contact;

use crate::markup::{is_document, strictly_within};
use crate::routes::{lemma_lookup_finds_only_own_path, Route};
use crate::structured_data::{StructuredData, StructuredDataView};
use crate::views::error_view::{not_found, not_found_markup};
use crate::views::layout::{lemma_page_wraps_content, page_markup, render_page_with_content};
use crate::views::{content_markup, lemma_content_is_fragment, lemma_not_found_is_document};
use vstd::prelude::*;

verus! {

/// Status of an answer that carries what was asked for.
pub const STATUS_OK: u16 = 200;

/// Status of the answer to a path at which nothing is served.
pub const STATUS_NOT_FOUND: u16 = 404;

/// The content type of every answer.
pub const HTML_CONTENT_TYPE: &'static str = "text/html; charset=utf-8";

/// An answer in HTML: the status to send, the content type to declare, and
/// the markup that is the body.
#[derive(Debug)]
pub struct Response {
    pub status: u16,
    pub content_type: &'static str,
    pub body: String,
}

/// A [`Response`] with its texts as sequences of characters.
pub struct ResponseView {
    pub status: u16,
    pub content_type: Seq<char>,
    pub body: Seq<char>,
}

impl Clone for Response {
    fn clone(&self) -> (copy: Self)
        ensures
            copy@ == self@,
    {
        Response {
            status: self.status,
            content_type: self.content_type,
            body: self.body.clone(),
        }
    }
}

impl View for Response {
    type V = ResponseView;

    open spec fn view(&self) -> ResponseView {
        ResponseView { status: self.status, content_type: self.content_type@, body: self.body@ }
    }
}

/// The body that answers a request for `fragment`, which belongs to
/// `section`: the fragment alone for a client that swaps it in (`is_htmx`),
/// the complete page around it for anyone else.
pub open spec fn negotiated(
    is_htmx: bool,
    section: Route,
    fragment: Seq<char>,
    data: StructuredDataView,
) -> Seq<char> {
    if is_htmx {
        fragment
    } else {
        page_markup(section, fragment, data)
    }
}

/// The answer that carries `fragment`, negotiated.
pub open spec fn fragment_response(
    is_htmx: bool,
    section: Route,
    fragment: Seq<char>,
    data: StructuredDataView,
) -> ResponseView {
    ResponseView {
        status: STATUS_OK,
        content_type: HTML_CONTENT_TYPE@,
        body: negotiated(is_htmx, section, fragment, data),
    }
}

/// The answer to a request to read the section `route`.
pub open spec fn section_response(route: Route, is_htmx: bool, data: StructuredDataView)
    -> ResponseView {
    fragment_response(is_htmx, route, content_markup(route), data)
}

/// The answer to a request for a path at which nothing is served. It
/// depends on nothing that the request carries.
pub open spec fn not_found_response() -> ResponseView {
    ResponseView {
        status: STATUS_NOT_FOUND,
        content_type: HTML_CONTENT_TYPE@,
        body: not_found_markup(),
    }
}

/// The answer to a request to read `path`.
pub open spec fn path_response(path: Seq<char>, is_htmx: bool, data: StructuredDataView)
    -> ResponseView {
    match Route::lookup(path) {
        Some(route) => section_response(route, is_htmx, data),
        None => not_found_response(),
    }
}

/// Answers with `fragment`, bare or wrapped in the page of `section`, as the
/// kind of request asks.
pub fn respond(is_htmx: bool, section: Route, fragment: String, data: &StructuredData) -> (response:
    Response)
    ensures
        response@ == fragment_response(is_htmx, section, fragment@, data@),
{
    let body = if is_htmx {
        fragment
    } else {
        render_page_with_content(section, fragment.as_str(), data)
    };
    Response { status: STATUS_OK, content_type: HTML_CONTENT_TYPE, body }
}

/// Answers a request to read `path`: with the section served there, or, where
/// the route table knows no such path, with the page that says so. That page
/// is always complete, also for a client that asked for a fragment.
pub fn handler(path: &str, is_htmx: bool, data: &StructuredData) -> (response: Response)
    ensures
        response@ == path_response(path@, is_htmx, data@),
{
    match Route::from_path(path) {
        Some(route) => route.handler(is_htmx, data),
        None => Response {
            status: STATUS_NOT_FOUND,
            content_type: HTML_CONTENT_TYPE,
            body: not_found(),
        },
    }
}

/// Whatever the fragment, what a fragment-swapping client gets stands
/// whole, and with more around it, in what a plain navigation gets; and the
/// latter is a document.
pub proof fn lemma_partial_within_full(
    section: Route,
    fragment: Seq<char>,
    data: StructuredDataView,
)
    ensures
        fragment_response(true, section, fragment, data).body == fragment,
        strictly_within(fragment, fragment_response(false, section, fragment, data).body),
        is_document(fragment_response(false, section, fragment, data).body),
{
    lemma_page_wraps_content(section, fragment, data);
}

/// For every section, the answer to a fragment-swapping client is a proper
/// part of the answer to a plain navigation, and only the latter is a
/// document.
pub proof fn lemma_section_partial_within_full(route: Route, data: StructuredDataView)
    ensures
        strictly_within(
            section_response(route, true, data).body,
            section_response(route, false, data).body,
        ),
        !is_document(section_response(route, true, data).body),
        is_document(section_response(route, false, data).body),
{
    lemma_page_wraps_content(route, content_markup(route), data);
    lemma_content_is_fragment(route);
}

/// A path that is no section's own is answered with the status of a missing
/// page and with a document, never with a bare fragment, whoever asks.
pub proof fn lemma_unknown_path_gets_document(
    path: Seq<char>,
    is_htmx: bool,
    data: StructuredDataView,
)
    requires
        forall|route: Route| route.path_spec() != path,
    ensures
        path_response(path, is_htmx, data) == not_found_response(),
        path_response(path, is_htmx, data).status == STATUS_NOT_FOUND,
        is_document(path_response(path, is_htmx, data).body),
{
    lemma_not_found_is_document();
}

/// A section's own path is answered with that section.
pub proof fn lemma_own_path_gets_section(route: Route, is_htmx: bool, data: StructuredDataView)
    ensures
        path_response(route.path_spec(), is_htmx, data) == section_response(route, is_htmx, data),
{
    lemma_lookup_finds_only_own_path(route.path_spec(), route);
}

} // verus!
