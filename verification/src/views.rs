//! What the site shows: the content of each section, the alerts of the
//! contact form, the page that answers an unknown path, and the shell that
//! makes a fragment a complete page.

pub mod about_view;
pub mod contact_view;
pub mod error_view;
pub mod experience_view;
pub mod home_view;
pub mod layout;
pub mod projects_view;

use crate::markup::{
    is_document, lemma_not_document, push_escaped, DOCTYPE_TEXT, DOCUMENT_OPEN,
};
use crate::routes::{lemma_path_is_plain, Route};
use vstd::prelude::*;
use vstd::string::StringExecFns;

verus! {

/// Opening tag of the frame that most sections share.
pub const SECTION_OPEN: &'static str = "<section class=\"section\">";

/// Closing tag of a section.
pub const SECTION_CLOSE: &'static str = "</section>";

/// Opens the address of a link.
pub const LINK_HREF: &'static str = " href=\"";

/// Opens the address from which a client fetches the fragment.
pub const LINK_GET: &'static str = "\" hx-get=\"";

/// Names the main element as the place of the swap, and has the client
/// show the path as the address of the page.
pub const LINK_TARGET: &'static str = "\" hx-target=\"main\" hx-push-url=\"true\"";

/// The attributes of a link to a section: the path for a plain click, and
/// the same path for a client that fetches the section and swaps it into
/// the main element of the page it shows.
pub open spec fn link_attributes(path: Seq<char>) -> Seq<char> {
    LINK_HREF@ + path + LINK_GET@ + path + LINK_TARGET@
}

/// Appends the attributes of a link to `route`, with the path taken from the
/// route table.
pub(crate) fn push_link_attributes(buffer: &mut String, route: Route)
    ensures
        final(buffer)@ == old(buffer)@ + link_attributes(route.path_spec()),
{
    let path = route.path();
    buffer.append(LINK_HREF);
    push_escaped(buffer, path);
    buffer.append(LINK_GET);
    push_escaped(buffer, path);
    buffer.append(LINK_TARGET);
    proof {
        lemma_path_is_plain(route);
        assert(buffer@ =~= old(buffer)@ + link_attributes(route.path_spec()));
    }
}

/// The content of a section, as the fragment that fills the main element of
/// a page.
pub open spec fn content_markup(route: Route) -> Seq<char> {
    match route {
        Route::Home => home_view::markup(),
        Route::About => about_view::markup(),
        Route::Contact => contact_view::markup(),
        Route::Experience => experience_view::markup(),
        Route::Projects => projects_view::markup(),
    }
}

/// Renders the content of `route`. The result depends on the section alone.
pub fn render(route: Route) -> (fragment: String)
    ensures
        fragment@ == content_markup(route),
{
    match route {
        Route::Home => home_view::render(),
        Route::About => about_view::render(),
        Route::Contact => contact_view::render(),
        Route::Experience => experience_view::render(),
        Route::Projects => projects_view::render(),
    }
}

/// The content of a section is a fragment: it does not open as a document
/// does.
pub proof fn lemma_content_is_fragment(route: Route)
    ensures
        !is_document(content_markup(route)),
{
    reveal_strlit("<section class=\"section\">");
    reveal_strlit("<section class=\"hero\">");
    let content = content_markup(route);
    assert(content[1] == 's');
    lemma_not_document(content);
}

/// Neither alert of the contact form is a document.
pub proof fn lemma_alert_is_fragment(text: Seq<char>)
    ensures
        !is_document(contact_view::success_markup(text)),
        !is_document(contact_view::error_markup(text)),
{
    reveal_strlit("<div class=\"alert alert-success\">");
    reveal_strlit("<div class=\"alert alert-error\">");
    assert(contact_view::success_markup(text)[1] == 'd');
    assert(contact_view::error_markup(text)[1] == 'd');
    lemma_not_document(contact_view::success_markup(text));
    lemma_not_document(contact_view::error_markup(text));
}

/// The page for an unknown path is a document.
pub proof fn lemma_not_found_is_document()
    ensures
        is_document(error_view::not_found_markup()),
{
    assert((DOCTYPE_TEXT@ + DOCUMENT_OPEN@).is_prefix_of(error_view::not_found_markup()));
}

} // verus!
