//! The experience section.

use crate::views::{SECTION_CLOSE, SECTION_OPEN};
use vstd::prelude::*;
use vstd::string::StringExecFns;

verus! {

/// Work history and education, as the card that fills the section.
pub const EXPERIENCE: &'static str =
    "<div class=\"container\"><div class=\"content-card\">\
    <h2 class=\"experience-title\">Experiencia Profesional</h2><div class=\"timeline\">\
    <div class=\"timeline-item\"><div class=\"timeline-date\">2022 - Presente</div>\
    <h3 class=\"timeline-title\">Senior Full Stack Developer</h3>\
    <div class=\"timeline-company\">TechCorp Solutions</div>\
    <p>Lidero el desarrollo de aplicaciones web de alto rendimiento utilizando Rust y React. \
    Implementé microservicios que mejoraron el rendimiento del sistema en un 40%. Mentoreo a un \
    equipo de 3 desarrolladores junior y coordino con equipos de diseño y producto.</p>\
    <ul class=\"timeline-item-list\"><li>Desarrollo de APIs REST con Rocket/Axum</li>\
    <li>Implementación de arquitectura de microservicios</li>\
    <li>Optimización de bases de datos PostgreSQL</li>\
    <li>Implementación de CI/CD con GitLab</li></ul></div><div class=\"timeline-item\">\
    <div class=\"timeline-date\">2020 - 2022</div>\
    <h3 class=\"timeline-title\">Full Stack Developer</h3>\
    <div class=\"timeline-company\">StartupXYZ</div>\
    <p>Desarrollé desde cero la plataforma principal de la empresa utilizando Node.js y React. \
    Participé en todas las fases del desarrollo, desde el diseño de la arquitectura hasta el \
    despliegue. La aplicación ahora maneja más de 10,000 usuarios activos mensuales.</p>\
    <ul class=\"timeline-item-list\"><li>Desarrollo frontend con React y TypeScript</li>\
    <li>APIs backend con Node.js y Express</li><li>Integración con servicios de terceros</li>\
    <li>Implementación de autenticación JWT</li></ul></div><div class=\"timeline-item\">\
    <div class=\"timeline-date\">2019 - 2020</div>\
    <h3 class=\"timeline-title\">Frontend Developer</h3>\
    <div class=\"timeline-company\">Digital Agency Pro</div>\
    <p>Especializado en crear interfaces de usuario atractivas y funcionales para clientes \
    diversos. Trabajé en más de 15 proyectos web, mejorando significativamente la experiencia de \
    usuario y las métricas de conversión.</p>\
    <ul class=\"timeline-item-list\"><li>Desarrollo de sitios web responsivos</li>\
    <li>Optimización de rendimiento web</li><li>Integración con CMS (WordPress, Strapi)</li>\
    <li>Implementación de diseños UX/UI</li></ul></div><div class=\"timeline-item\">\
    <div class=\"timeline-date\">2018 - 2019</div>\
    <h3 class=\"timeline-title\">Junior Web Developer</h3>\
    <div class=\"timeline-company\">WebDev Solutions</div>\
    <p>Comencé mi carrera profesional desarrollando sitios web corporativos y e-commerce. Aprendí \
    las bases del desarrollo web moderno y las mejores prácticas de la industria. Participé en la \
    migración de sistemas legacy a tecnologías modernas.</p>\
    <ul class=\"timeline-item-list\"><li>HTML5, CSS3 y JavaScript vanilla</li>\
    <li>Desarrollo de themes para WordPress</li><li>Mantenimiento de aplicaciones PHP</li>\
    <li>Testing y debugging de aplicaciones web</li></ul></div></div>\
    <div class=\"education-section\">\
    <h3 class=\"education-section-title\">Educación &amp; Certificaciones</h3>\
    <div class=\"education-grid\"><div class=\"education-item\">\
    <h4 class=\"education-item-title\">Ingeniería en Sistemas</h4>\
    <p class=\"education-item-subtitle\">Universidad Tecnológica</p>\
    <p class=\"education-item-date\">2014 - 2018</p></div><div class=\"education-item\">\
    <h4 class=\"education-item-title\">AWS Certified Developer</h4>\
    <p class=\"education-item-subtitle\">Amazon Web Services</p>\
    <p class=\"education-item-date\">2023</p></div><div class=\"education-item\">\
    <h4 class=\"education-item-title\">Rust Programming</h4>\
    <p class=\"education-item-subtitle\">The Rust Foundation</p>\
    <p class=\"education-item-date\">2022</p></div></div></div></div></div>";

/// The section as markup: the shared section frame around [`EXPERIENCE`].
pub open spec fn markup() -> Seq<char> {
    SECTION_OPEN@ + EXPERIENCE@ + SECTION_CLOSE@
}

/// Renders the section. The result is the same on every call.
pub fn render() -> (fragment: String)
    ensures
        fragment@ == markup(),
{
    let mut fragment = String::from_str(SECTION_OPEN);
    fragment.append(EXPERIENCE);
    fragment.append(SECTION_CLOSE);
    fragment
}

} // verus!
