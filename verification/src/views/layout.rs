//! The page shell: what stands around a fragment to make it a complete
//! document. The head with its metadata and structured data, the navigation
//! bar with the active section marked, the main element that holds the
//! fragment, and the footer.

use crate::markup::{
    doctype, is_document, lemma_wrapped_strictly_within, occurs_at, occurs_in, push_preescaped,
    strictly_within, DOCTYPE_TEXT, DOCUMENT_OPEN,
};
use crate::routes::Route;
use crate::structured_data::{StructuredData, StructuredDataView};
use crate::views::{link_attributes, push_link_attributes};
use vstd::prelude::*;
use vstd::string::StringExecFns;

verus! {

/// The head down to the structured data: title, description, social cards,
/// icons and the content security policy.
pub const HEAD_OPEN: &'static str =
    "<meta charset=\"utf-8\">\
    <meta name=\"viewport\" content=\"width=device-width, initial-scale=1.0\">\
    <title>Tu Nombre - Desarrollador Full Stack</title>\
    <meta name=\"description\" content=\"Portfolio profesional de desarrollador full stack \
    especializado en Rust, JavaScript y tecnologías web modernas\">\
    <meta name=\"keywords\" content=\"desarrollador full stack, rust, javascript, programación, \
    portfolio, desarrollo web\">\
    <meta name=\"author\" content=\"Tu Nombre\"><meta name=\"robots\" content=\"index, follow\">\
    <meta name=\"language\" content=\"es\"><meta name=\"revisit-after\" content=\"7 days\">\
    <meta property=\"og:type\" content=\"website\">\
    <meta property=\"og:title\" content=\"Tu Nombre - Desarrollador Full Stack\">\
    <meta property=\"og:description\" content=\"Portfolio profesional de desarrollador full stack \
    especializado en Rust, JavaScript y tecnologías web modernas\">\
    <meta property=\"og:url\" content=\"https://tudominio.com\">\
    <meta property=\"og:site_name\" content=\"Tu Nombre Portfolio\">\
    <meta property=\"og:locale\" content=\"es_ES\">\
    <meta name=\"twitter:card\" content=\"summary_large_image\">\
    <meta name=\"twitter:title\" content=\"Tu Nombre - Desarrollador Full Stack\">\
    <meta name=\"twitter:description\" content=\"Portfolio profesional de desarrollador full stack \
    especializado en Rust, JavaScript y tecnologías web modernas\">\
    <meta name=\"twitter:creator\" content=\"@tuusuario\">\
    <link rel=\"icon\" type=\"image/x-icon\" href=\"/static/favicon.ico\">\
    <link rel=\"icon\" type=\"image/png\" sizes=\"32x32\" href=\"/static/favicon-32x32.png\">\
    <link rel=\"icon\" type=\"image/png\" sizes=\"16x16\" href=\"/static/favicon-16x16.png\">\
    <link rel=\"apple-touch-icon\" sizes=\"180x180\" href=\"/static/apple-touch-icon.png\">\
    <link rel=\"manifest\" href=\"/static/site.webmanifest\">\
    <meta name=\"theme-color\" content=\"#2563eb\">\
    <meta name=\"msapplication-TileColor\" content=\"#2563eb\">\
    <link rel=\"canonical\" href=\"https://tudominio.com\">\
    <meta http-equiv=\"Content-Security-Policy\" content=\"default-src 'self'; script-src 'self'; \
    style-src 'self' 'unsafe-inline'; img-src 'self' data: https:; connect-src 'self'; font-src \
    'self'; object-src 'none'; media-src 'self'; frame-src 'none'; base-uri 'self'; form-action \
    'self'\">";

/// Opening tag of a block of structured data.
pub const JSON_LD_OPEN: &'static str = "<script type=\"application/ld+json\">";

/// Closing tag of a block of structured data.
pub const JSON_LD_CLOSE: &'static str = "</script>";

/// The rest of the head: preloads, style sheets and scripts.
pub const HEAD_CLOSE: &'static str =
    "<link rel=\"preload\" href=\"/static/css/electric-eclipse/main.css\" as=\"style\">\
    <link rel=\"preload\" href=\"/static/css/electric-eclipse/light.css\" as=\"style\">\
    <link rel=\"preload\" href=\"/static/js/htmx.min.js\" as=\"script\">\
    <link rel=\"dns-prefetch\" href=\"//fonts.googleapis.com\">\
    <link rel=\"stylesheet\" href=\"/static/css/electric-eclipse/main.css\">\
    <link id=\"theme-stylesheet\" rel=\"stylesheet\" \
    href=\"/static/css/electric-eclipse/light.css\">\
    <script src=\"/static/js/theme-init.js\" defer></script>\
    <script src=\"/static/js/htmx.min.js\" defer></script></head>";

/// The body down to the navigation bar.
pub const BODY_OPEN: &'static str =
    "<body hx-boost=\"true\"><div class=\"background-layer\" aria-hidden=\"true\"></div><header>\
    <div class=\"container\"><nav>";

/// Between the brand link and the entries of the menu.
pub const MENU_OPEN: &'static str =
    "<div class=\"htmx-indicator\"><div class=\"loading-spinner\"></div></div>\
    <ul class=\"nav-links\" id=\"nav-links\">";

/// Closing tag of the menu.
pub const MENU_CLOSE: &'static str = "</ul>";

/// The controls beside the menu, and the end of the header.
pub const HEADER_CLOSE: &'static str =
    "<div class=\"nav-controls\">\
    <button class=\"theme-toggle\" id=\"theme-toggle\" aria-label=\"Toggle theme\">\
    <svg class=\"theme-icon-sun\" width=\"20\" height=\"20\" fill=\"currentColor\" viewBox=\"0 0 \
    20 20\">\
    <path fill-rule=\"evenodd\" d=\"M10 2a1 1 0 011 1v1a1 1 0 11-2 0V3a1 1 0 011-1zm4 8a4 4 0 11-8 \
    0 4 4 0 018 0zm-.464 4.95l.707.707a1 1 0 001.414-1.414l-.707-.707a1 1 0 00-1.414 \
    1.414zm2.12-10.607a1 1 0 010 1.414l-.706.707a1 1 0 11-1.414-1.414l.707-.707a1 1 0 011.414 \
    0zM17 11a1 1 0 100-2h-1a1 1 0 100 2h1zm-7 4a1 1 0 011 1v1a1 1 0 11-2 0v-1a1 1 0 011-1zM5.05 \
    6.464A1 1 0 106.465 5.05l-.708-.707a1 1 0 00-1.414 1.414l.707.707zm1.414 8.486l-.707.707a1 1 0 \
    01-1.414-1.414l.707-.707a1 1 0 011.414 1.414zM4 11a1 1 0 100-2H3a1 1 0 000 2h1z\" \
    clip-rule=\"evenodd\"></path></svg>\
    <svg class=\"theme-icon-moon\" width=\"20\" height=\"20\" fill=\"currentColor\" viewBox=\"0 0 \
    20 20\" style=\"display: none;\">\
    <path d=\"M17.293 13.293A8 8 0 016.707 2.707a8.001 8.001 0 1010.586 \
    10.586z\"></path></svg></button>\
    <button class=\"mobile-menu-toggle\" id=\"mobile-menu-toggle\" aria-label=\"Toggle navigation \
    menu\" aria-expanded=\"false\">\
    <span></span><span></span><span></span></button></div></nav></div></header>";

/// Opening tag of the main element, which holds the fragment.
pub const MAIN_OPEN: &'static str = "<main hx-history-elt>";

/// Closing tag of the main element.
pub const MAIN_CLOSE: &'static str = "</main>";

/// The footer and the end of the document.
pub const FOOTER: &'static str =
    "<footer><div class=\"container\"><p>Made by \
    <a href=\"https://arkaitz.dev\" \
    target=\"_arkaitzdev_website\">ArkaitzDev</a></p></div></footer>\
    <script src=\"/static/js/main.js\" defer></script></body></html>";

/// Class of the brand link, which leads home.
pub const BRAND_CLASS: &'static str = "logo";

/// Class of a link in the menu.
pub const ITEM_CLASS: &'static str = "nav-link";

/// What the class of a link gains where it leads to the active section.
pub const ACTIVE_MARK: &'static str = " active";

/// One link of the navigation bar.
#[derive(Clone, Copy, Debug, PartialEq, Eq, Structural)]
pub struct NavEntry {
    /// The section the link leads to.
    pub route: Route,
    /// Whether the page shows that section.
    pub active: bool,
}

/// The links of the navigation bar of a page that shows `active`: one for
/// each section of the route table, in the table's order, marked active
/// where the section is `active` itself.
pub open spec fn navigation(active: Route) -> Seq<NavEntry> {
    Seq::new(
        Route::table().len(),
        |i: int| (NavEntry { route: Route::table()[i], active: Route::table()[i] == active }),
    )
}

/// The text of the link to `route`.
pub open spec fn label_text(route: Route) -> Seq<char> {
    match route {
        Route::Home => "Tu Nombre"@,
        Route::About => "Sobre Mí"@,
        Route::Experience => "Experiencia"@,
        Route::Projects => "Proyectos"@,
        Route::Contact => "Contacto"@,
    }
}

/// The class attribute of a link: the class of its kind, followed by the
/// active mark where the entry is active, and there only.
pub open spec fn class_names(entry: NavEntry) -> Seq<char> {
    let kind = if entry.route == Route::Home {
        BRAND_CLASS@
    } else {
        ITEM_CLASS@
    };
    if entry.active {
        kind + ACTIVE_MARK@
    } else {
        kind
    }
}

/// One link as markup. The link home is the brand; every other link is an
/// item of the menu. The address comes from the route table.
pub open spec fn entry_markup(entry: NavEntry) -> Seq<char> {
    let path = entry.route.path_spec();
    if entry.route == Route::Home {
        "<a class=\""@ + class_names(entry) + "\""@ + link_attributes(path) + ">"@ + label_text(
            entry.route,
        ) + "</a>"@
    } else {
        "<li><a"@ + link_attributes(path) + " class=\""@ + class_names(entry) + "\">"@
            + label_text(entry.route) + "</a></li>"@
    }
}

/// The links in `entries` as markup, one after the other.
pub open spec fn entries_markup(entries: Seq<NavEntry>) -> Seq<char>
    decreases entries.len(),
{
    if entries.len() == 0 {
        Seq::empty()
    } else {
        entries_markup(entries.drop_last()) + entry_markup(entries.last())
    }
}

/// The navigation bar as markup: the first link, then the menu that holds
/// the others.
pub open spec fn navigation_markup(entries: Seq<NavEntry>) -> Seq<char>
    recommends
        entries.len() > 0,
{
    entry_markup(entries[0]) + MENU_OPEN@ + entries_markup(entries.skip(1)) + MENU_CLOSE@
}

/// A document of structured data as a block of the head. The document is
/// embedded as it is.
pub open spec fn json_ld_block(document: Seq<char>) -> Seq<char> {
    JSON_LD_OPEN@ + document + JSON_LD_CLOSE@
}

/// The head of every page, with both documents of `data` embedded.
pub open spec fn head_markup(data: StructuredDataView) -> Seq<char> {
    HEAD_OPEN@ + json_ld_block(data.website) + json_ld_block(data.person) + HEAD_CLOSE@
}

/// The header of a page that shows `active`, with its navigation bar.
pub open spec fn header_markup(active: Route) -> Seq<char> {
    BODY_OPEN@ + navigation_markup(navigation(active)) + HEADER_CLOSE@
}

/// What stands before the fragment in a page that shows `active`.
pub open spec fn page_opening(active: Route, data: StructuredDataView) -> Seq<char> {
    DOCTYPE_TEXT@ + DOCUMENT_OPEN@ + head_markup(data) + header_markup(active) + MAIN_OPEN@
}

/// What stands behind the fragment in every page.
pub open spec fn page_closing() -> Seq<char> {
    MAIN_CLOSE@ + FOOTER@
}

/// The complete page that shows `content` as the section `active`: the
/// document type, the head, the header, and the fragment, unchanged, as the
/// content of the main element, with the footer behind it.
pub open spec fn page_markup(active: Route, content: Seq<char>, data: StructuredDataView) -> Seq<
    char,
> {
    page_opening(active, data) + content + page_closing()
}

/// The text of the link to `route`.
pub fn label(route: Route) -> (text: &'static str)
    ensures
        text@ == label_text(route),
{
    match route {
        Route::Home => "Tu Nombre",
        Route::About => "Sobre Mí",
        Route::Experience => "Experiencia",
        Route::Projects => "Proyectos",
        Route::Contact => "Contacto",
    }
}

/// Builds the links of the navigation bar by going through the route table.
pub fn navigation_entries(active: Route) -> (entries: Vec<NavEntry>)
    ensures
        entries@ == navigation(active),
{
    let routes = Route::all();
    let mut entries: Vec<NavEntry> = Vec::new();
    let mut i: usize = 0;
    while i < routes.len()
        invariant
            i <= routes.len(),
            routes@ == Route::table(),
            entries.len() == i,
            forall|j: int|
                0 <= j < i ==> #[trigger] entries[j] == (NavEntry {
                    route: routes[j],
                    active: routes[j] == active,
                }),
        decreases routes.len() - i,
    {
        let route = routes[i];
        entries.push(NavEntry { route, active: route == active });
        i = i + 1;
    }
    assert(entries@ =~= navigation(active));
    entries
}

/// Appends one link of the navigation bar.
fn push_entry(buffer: &mut String, entry: NavEntry)
    ensures
        final(buffer)@ == old(buffer)@ + entry_markup(entry),
{
    let kind = if entry.route == Route::Home {
        BRAND_CLASS
    } else {
        ITEM_CLASS
    };
    let mut class = String::from_str(kind);
    if entry.active {
        class.append(ACTIVE_MARK);
    }
    assert(class@ == class_names(entry));
    if entry.route == Route::Home {
        buffer.append("<a class=\"");
        buffer.append(class.as_str());
        buffer.append("\"");
        push_link_attributes(buffer, entry.route);
        buffer.append(">");
        buffer.append(label(entry.route));
        buffer.append("</a>");
    } else {
        buffer.append("<li><a");
        push_link_attributes(buffer, entry.route);
        buffer.append(" class=\"");
        buffer.append(class.as_str());
        buffer.append("\">");
        buffer.append(label(entry.route));
        buffer.append("</a></li>");
    }
    assert(buffer@ =~= old(buffer)@ + entry_markup(entry));
}

/// Appends the navigation bar of a page that shows `active`.
fn push_navigation(buffer: &mut String, active: Route)
    ensures
        final(buffer)@ == old(buffer)@ + navigation_markup(navigation(active)),
{
    let entries = navigation_entries(active);
    let ghost menu = entries@.skip(1);
    push_entry(buffer, entries[0]);
    buffer.append(MENU_OPEN);
    let ghost before = buffer@;
    let mut i: usize = 1;
    assert(menu.take(0) =~= Seq::<NavEntry>::empty());
    while i < entries.len()
        invariant
            1 <= i <= entries.len(),
            menu == entries@.skip(1),
            buffer@ == before + entries_markup(menu.take(i - 1)),
        decreases entries.len() - i,
    {
        push_entry(buffer, entries[i]);
        proof {
            assert(menu.take(i as int).drop_last() =~= menu.take(i - 1));
            assert(menu.take(i as int).last() == entries[i as int]);
        }
        i = i + 1;
    }
    assert(menu.take(entries.len() - 1) =~= menu);
    buffer.append(MENU_CLOSE);
    assert(buffer@ =~= old(buffer)@ + navigation_markup(navigation(active)));
}

/// Appends one block of structured data.
fn push_json_ld(buffer: &mut String, document: &str)
    ensures
        final(buffer)@ == old(buffer)@ + json_ld_block(document@),
{
    buffer.append(JSON_LD_OPEN);
    push_preescaped(buffer, document);
    buffer.append(JSON_LD_CLOSE);
    assert(buffer@ =~= old(buffer)@ + json_ld_block(document@));
}

/// Appends the head.
fn push_head(buffer: &mut String, data: &StructuredData)
    ensures
        final(buffer)@ == old(buffer)@ + head_markup(data@),
{
    buffer.append(HEAD_OPEN);
    push_json_ld(buffer, data.website.as_str());
    push_json_ld(buffer, data.person.as_str());
    buffer.append(HEAD_CLOSE);
    assert(buffer@ =~= old(buffer)@ + head_markup(data@));
}

/// Wraps `content` in the page shell, with the link to `active` marked in the
/// navigation bar and the structured data of `data` embedded in the head.
pub fn render_page_with_content(active: Route, content: &str, data: &StructuredData) -> (page:
    String)
    ensures
        page@ == page_markup(active, content@, data@),
{
    let mut page = String::from_str(doctype());
    page.append(DOCUMENT_OPEN);
    push_head(&mut page, data);
    page.append(BODY_OPEN);
    push_navigation(&mut page, active);
    page.append(HEADER_CLOSE);
    page.append(MAIN_OPEN);
    push_preescaped(&mut page, content);
    page.append(MAIN_CLOSE);
    page.append(FOOTER);
    assert(page@ =~= page_markup(active, content@, data@));
    page
}

/// The class of a link ends in the active mark where the entry is active,
/// and there only: the mark in the markup tells which entry is active.
pub proof fn lemma_active_mark_shows(entry: NavEntry)
    ensures
        ACTIVE_MARK@.is_suffix_of(class_names(entry)) <==> entry.active,
{
    reveal_strlit("logo");
    reveal_strlit("nav-link");
    reveal_strlit(" active");
    let class = class_names(entry);
    let mark = ACTIVE_MARK@;
    if entry.active {
        assert(class.subrange(class.len() - mark.len(), class.len() as int) =~= mark);
    } else if mark.is_suffix_of(class) {
        let tail = class.subrange(class.len() - mark.len(), class.len() as int);
        assert(tail[6] == class[class.len() - 1]);
        assert(mark[6] == 'e');
    }
}

/// A page that shows `active` marks one link of its navigation bar as
/// active, and one only: the link that leads to `active`.
pub proof fn lemma_one_active_entry(active: Route)
    ensures
        exists|i: int|
            0 <= i < navigation(active).len() && (#[trigger] navigation(active)[i]).active,
        forall|i: int|
            0 <= i < navigation(active).len() && (#[trigger] navigation(active)[i]).active
                ==> navigation(active)[i].route == active,
        forall|i: int, j: int|
            0 <= i < navigation(active).len() && 0 <= j < navigation(active).len() && (
            #[trigger] navigation(active)[i]).active && (#[trigger] navigation(active)[j]).active
                ==> i == j,
{
    let entries = navigation(active);
    match active {
        Route::Home => assert(entries[0].active),
        Route::About => assert(entries[1].active),
        Route::Experience => assert(entries[2].active),
        Route::Projects => assert(entries[3].active),
        Route::Contact => assert(entries[4].active),
    }
}

/// The navigation bar links every section, each once, at the path that the
/// route table gives for it.
pub proof fn lemma_navigation_follows_table(active: Route)
    ensures
        navigation(active).len() == Route::table().len(),
        forall|i: int|
            0 <= i < Route::table().len() ==> (#[trigger] navigation(active)[i]).route
                == Route::table()[i],
{
}

/// A complete page is a document, and it holds its fragment whole, as the
/// content of the main element, with the shell around it.
pub proof fn lemma_page_wraps_content(active: Route, content: Seq<char>, data: StructuredDataView)
    ensures
        is_document(page_markup(active, content, data)),
        strictly_within(content, page_markup(active, content, data)),
        occurs_in(page_markup(active, content, data), MAIN_OPEN@ + content + MAIN_CLOSE@),
{
    reveal_strlit("<!DOCTYPE html>");
    let page = page_markup(active, content, data);
    assert((DOCTYPE_TEXT@ + DOCUMENT_OPEN@).is_prefix_of(page));
    lemma_wrapped_strictly_within(page_opening(active, data), content, page_closing());
    let element = MAIN_OPEN@ + content + MAIN_CLOSE@;
    let before = DOCTYPE_TEXT@ + DOCUMENT_OPEN@ + head_markup(data) + header_markup(active);
    let at = before.len() as int;
    assert(page.subrange(at, at + element.len()) =~= element);
    assert(occurs_at(page, element, at));
}

} // verus!
