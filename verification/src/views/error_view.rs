//! The page that answers a path at which nothing is served.

use crate::markup::{doctype, push_escaped, DOCTYPE_TEXT, DOCUMENT_OPEN};
use crate::routes::{lemma_path_is_plain, Route};
use vstd::prelude::*;
use vstd::string::StringExecFns;

verus! {

/// Head and message, up to the address of the link that leads home.
pub const NOT_FOUND_OPEN: &'static str =
    "<meta charset=\"utf-8\">\
    <meta name=\"viewport\" content=\"width=device-width, initial-scale=1.0\">\
    <title>404 - Página no encontrada | Tu Nombre</title>\
    <meta http-equiv=\"X-Content-Type-Options\" content=\"nosniff\">\
    <meta http-equiv=\"X-Frame-Options\" content=\"DENY\">\
    <meta http-equiv=\"X-XSS-Protection\" content=\"1; mode=block\">\
    <script src=\"https://unpkg.com/htmx.org@2.0.3\" \
    integrity=\"sha384-0895/pl2MU10Hqc6jd4RvrthNlDiE9U1tWmX7WRESftEDRosgxNsQG/Ze9YMRzHq\" \
    crossorigin=\"anonymous\"></script>\
    <link rel=\"stylesheet\" href=\"/static/css/main.css\"></head><body><main class=\"error-main\">\
    <section class=\"section error-section\"><div class=\"container\">\
    <div class=\"content-card error-container\"><h1>404</h1>\
    <h2 class=\"error-title\">Página no encontrada</h2>\
    <p>Lo sentimos, la página que buscas no existe o ha sido movida.</p>\
    <div class=\"error-button-container\"><a href=\"";

/// The rest of the link, and the end of the document.
pub const NOT_FOUND_CLOSE: &'static str =
    "\" class=\"cta-button\">← Volver al inicio</a></div>\
    <div class=\"error-icon-container\">🔍</div></div></div></section></main></body></html>";

/// The page as markup: a complete document of its own, which does not use
/// the shell of the sections. Its one link leads home, at the path that the
/// route table gives.
pub open spec fn not_found_markup() -> Seq<char> {
    DOCTYPE_TEXT@ + DOCUMENT_OPEN@ + NOT_FOUND_OPEN@ + Route::Home.path_spec() + NOT_FOUND_CLOSE@
}

/// Renders the page. The result is the same on every call.
pub fn not_found() -> (page: String)
    ensures
        page@ == not_found_markup(),
{
    let mut page = String::from_str(doctype());
    page.append(DOCUMENT_OPEN);
    page.append(NOT_FOUND_OPEN);
    push_escaped(&mut page, Route::Home.path());
    page.append(NOT_FOUND_CLOSE);
    proof {
        lemma_path_is_plain(Route::Home);
    }
    page
}

} // verus!
