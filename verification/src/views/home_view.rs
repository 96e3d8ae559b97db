//! The home section: the hero with its call to get in touch.

use crate::routes::Route;
use crate::views::{link_attributes, push_link_attributes};
use vstd::prelude::*;
use vstd::string::StringExecFns;

verus! {

/// Opening tag of the hero.
pub const HERO_OPEN: &'static str = "<section class=\"hero\">";

/// Title and introduction, up to the tag of the link that follows them.
pub const HERO_TEXT: &'static str =
    "<div class=\"container\"><div class=\"hero-content\">\
    <h1 class=\"hero-title\">Hola, soy Tu Nombre</h1>\
    <p class=\"hero-subtitle\">Desarrollador Full Stack</p>\
    <p class=\"hero-description\">Especializado en crear aplicaciones web modernas y eficientes \
    utilizando tecnologías como Rust, JavaScript, React, y Node.js. Apasionado por el código \
    limpio y las mejores prácticas de desarrollo.</p>\
    <a";

/// The rest of the link, and the end of the section.
pub const HERO_ACTION: &'static str =
    " class=\"btn btn-primary\">Contactar</a></div></div></section>";

/// The section as markup. Its one link leads to the contact section, at the
/// path that the route table gives.
pub open spec fn markup() -> Seq<char> {
    HERO_OPEN@ + HERO_TEXT@ + link_attributes(Route::Contact.path_spec()) + HERO_ACTION@
}

/// Renders the section. The result is the same on every call.
pub fn render() -> (fragment: String)
    ensures
        fragment@ == markup(),
{
    let mut fragment = String::from_str(HERO_OPEN);
    fragment.append(HERO_TEXT);
    push_link_attributes(&mut fragment, Route::Contact);
    fragment.append(HERO_ACTION);
    fragment
}

} // verus!
