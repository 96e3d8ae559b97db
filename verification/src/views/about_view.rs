//! The about section.

use crate::views::{SECTION_CLOSE, SECTION_OPEN};
use vstd::prelude::*;
use vstd::string::StringExecFns;

verus! {

/// Biography and skills, as the card that fills the section.
pub const ABOUT: &'static str =
    "<div class=\"container\"><div class=\"content-card\"><div class=\"about-grid\">\
    <div class=\"about-text\"><h2>Sobre Mí</h2>\
    <p>Soy un desarrollador full stack con más de 5 años de experiencia creando aplicaciones web \
    robustas y escalables. Mi pasión por la tecnología me lleva a estar siempre aprendiendo y \
    adoptando las últimas tendencias en desarrollo.</p>\
    <p>Me especializo en el desarrollo backend con Rust y Node.js, así como en frontend con React \
    y tecnologías web modernas. También tengo experiencia en DevOps, bases de datos y arquitectura \
    de software.</p>\
    <p>Cuando no estoy programando, disfruto contribuyendo a proyectos de código abierto, \
    escribiendo artículos técnicos y mentoreando a desarrolladores junior.</p></div>\
    <div class=\"about-image\"><div class=\"about-profile-placeholder\">👨‍💻</div></div></div>\
    <h3 class=\"skills-section-title\">Habilidades Técnicas</h3><div class=\"skills-grid\">\
    <div class=\"skill-category\"><h3>Backend</h3><ul class=\"skill-list\"><li>Rust</li>\
    <li>Node.js</li><li>Python</li><li>PostgreSQL</li><li>MongoDB</li><li>Redis</li></ul></div>\
    <div class=\"skill-category\"><h3>Frontend</h3><ul class=\"skill-list\"><li>React</li>\
    <li>TypeScript</li><li>HTML5/CSS3</li><li>Tailwind CSS</li><li>htmx</li>\
    <li>Vue.js</li></ul></div><div class=\"skill-category\"><h3>DevOps &amp; Tools</h3>\
    <ul class=\"skill-list\"><li>Docker</li><li>Kubernetes</li><li>AWS</li><li>Git</li>\
    <li>CI/CD</li><li>Linux</li></ul></div></div></div></div>";

/// The section as markup: the shared section frame around [`ABOUT`].
pub open spec fn markup() -> Seq<char> {
    SECTION_OPEN@ + ABOUT@ + SECTION_CLOSE@
}

/// Renders the section. The result is the same on every call.
pub fn render() -> (fragment: String)
    ensures
        fragment@ == markup(),
{
    let mut fragment = String::from_str(SECTION_OPEN);
    fragment.append(ABOUT);
    fragment.append(SECTION_CLOSE);
    fragment
}

} // verus!
