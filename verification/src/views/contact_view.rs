//! The contact section: the form, and the alerts that answer a submission.

use crate::markup::{escaped, push_escaped};
use crate::views::{SECTION_CLOSE, SECTION_OPEN};
use vstd::prelude::*;
use vstd::string::StringExecFns;

verus! {

/// Contact details, the form and the availability notes, as the card that fills the section.
pub const CONTACT: &'static str =
    "<div class=\"container\"><div class=\"content-card\">\
    <h2 class=\"contact-section-title\">Contacto</h2><div class=\"contact-grid\">\
    <div class=\"contact-info\"><h3>¡Hablemos!</h3>\
    <p class=\"contact-info-text\">¿Tienes un proyecto en mente? ¿Buscas un desarrollador para tu \
    equipo? ¡Me encantaría escuchar sobre tu idea y cómo podemos trabajar juntos!</p>\
    <div class=\"contact-item\"><strong>📧 Email:</strong><span>tu.email@ejemplo.com</span></div>\
    <div class=\"contact-item\"><strong>📱 Teléfono:</strong><span>+34 123 456 789</span></div>\
    <div class=\"contact-item\"><strong>📍 Ubicación:</strong><span>Madrid, España</span></div>\
    <div class=\"contact-item\"><strong>💼 LinkedIn:</strong>\
    <a href=\"https://linkedin.com/in/tu-perfil\" \
    class=\"contact-link\">linkedin.com/in/tu-perfil</a></div>\
    <div class=\"contact-item\"><strong>🐙 GitHub:</strong>\
    <a href=\"https://github.com/tu-usuario\" \
    class=\"contact-link\">github.com/tu-usuario</a></div>\
    <div class=\"contact-info-section\">\
    <h4 class=\"contact-info-section-title\">¿Por qué trabajar conmigo?</h4>\
    <h4 class=\"contact-info-section-title\">¿Por qué trabajar conmigo?</h4>\
    <ul class=\"contact-info-list\">\
    <li class=\"contact-info-list-item\">✅ Código limpio y bien documentado</li>\
    <li class=\"contact-info-list-item\">✅ Comunicación clara y constante</li>\
    <li class=\"contact-info-list-item\">✅ Entrega puntual de proyectos</li>\
    <li class=\"contact-list-item-custom\">✅ Tecnologías modernas y escalables</li>\
    <li class=\"contact-list-item-custom\">✅ Soporte post-lanzamiento</li></ul></div></div>\
    <div class=\"contact-form\"><h3 class=\"contact-form-title\">Envíame un mensaje</h3>\
    <div id=\"contact-response\"></div>\
    <form hx-post=\"/contact\" hx-target=\"#contact-response\" hx-swap=\"innerHTML\">\
    <div class=\"form-group\"><label for=\"name\">Nombre *</label>\
    <input type=\"text\" id=\"name\" name=\"name\" required=\"true\" placeholder=\"Tu nombre \
    completo\" autocomplete=\"name\"></div>\
    <div class=\"form-group\"><label for=\"email\">Email *</label>\
    <input type=\"email\" id=\"email\" name=\"email\" required=\"true\" \
    placeholder=\"tu@email.com\" autocomplete=\"email\"></div>\
    <div class=\"form-group\"><label for=\"message\">Mensaje *</label>\
    <textarea id=\"message\" name=\"message\" required=\"true\" placeholder=\"Cuéntame sobre tu \
    proyecto o cómo puedo ayudarte...\" autocomplete=\"on\"></textarea></div>\
    <button type=\"submit\" class=\"cta-button contact-form-submit-button\">Enviar \
    Mensaje</button></form>\
    <p class=\"contact-form-footer-text\">Te responderé en menos de 24 horas</p></div></div>\
    <div class=\"availability-section\"><h3 \
    class=\"availability-section-title\">Disponibilidad</h3>\
    <div class=\"availability-grid\"><div class=\"availability-item availability-item-available\">\
    <h4 class=\"availability-item-title\">🟢 Disponible</h4>\
    <p class=\"availability-item-description\">Para proyectos freelance</p></div>\
    <div class=\"availability-item availability-item-consultancy\">\
    <h4 class=\"availability-item-title\">🟡 Consultoría</h4>\
    <p class=\"availability-item-description\">Revisión de código y arquitectura</p></div>\
    <div class=\"availability-item availability-item-mentoring\">\
    <h4 class=\"availability-item-title\">🔵 Mentoring</h4>\
    <p class=\"availability-item-description\">Para desarrolladores \
    junior</p></div></div></div></div></div>";

/// Opening tag of the alert for an accepted submission.
pub const SUCCESS_OPEN: &'static str = "<div class=\"alert alert-success\">";

/// From the title of the success alert to the point where the sender's name goes.
pub const SUCCESS_GREETING: &'static str =
    "<h4 class=\"alert-title\">¡Mensaje enviado con éxito!</h4><p>Gracias ";

/// From behind the sender's name to the end of the success alert, with the
/// offer to write again.
pub const SUCCESS_REST: &'static str =
    ", he recibido tu mensaje y te responderé muy pronto.</p>\
    <p class=\"alert-text-mt\">Mientras tanto, puedes seguirme en \
    <a href=\"https://linkedin.com/in/tu-perfil\" class=\"alert-link\">LinkedIn</a> o revisar mis \
    proyectos en \
    <a href=\"https://github.com/tu-usuario\" class=\"contact-github-link\">GitHub</a>.</p></div>\
    <div class=\"alert-action-container\"><p>¿Quieres enviar otro mensaje?</p>\
    <button hx-get=\"/contact\" hx-target=\"#contact-response\" hx-swap=\"innerHTML\" \
    class=\"cta-button alert-button\">Nuevo mensaje</button></div>";

/// Opening tag of the alert for a rejected submission.
pub const ERROR_OPEN: &'static str = "<div class=\"alert alert-error\">";

/// From the title of the error alert to the point where the reason goes.
pub const ERROR_TITLE: &'static str =
    "<h4 class=\"alert-title\">Error al enviar el mensaje</h4><p>";

/// From behind the reason to the end of the error alert, with the offer to
/// try again.
pub const ERROR_REST: &'static str =
    "</p></div><div class=\"alert-action-container\">\
    <p>Por favor, corrige el error e inténtalo de nuevo:</p>\
    <button hx-get=\"/contact\" hx-target=\"#contact-response\" hx-swap=\"innerHTML\" \
    class=\"cta-button alert-button\">Reintentar</button></div>";

/// The section as markup: the shared section frame around [`CONTACT`].
pub open spec fn markup() -> Seq<char> {
    SECTION_OPEN@ + CONTACT@ + SECTION_CLOSE@
}

/// The alert that confirms a submission and thanks the sender by `name`.
/// The name is text, not markup: it enters the alert escaped.
pub open spec fn success_markup(name: Seq<char>) -> Seq<char> {
    SUCCESS_OPEN@ + SUCCESS_GREETING@ + escaped(name) + SUCCESS_REST@
}

/// The alert that turns a submission down for the reason `message` gives.
/// The reason is text, not markup: it enters the alert escaped.
pub open spec fn error_markup(message: Seq<char>) -> Seq<char> {
    ERROR_OPEN@ + ERROR_TITLE@ + escaped(message) + ERROR_REST@
}

/// Renders the section. The result is the same on every call.
pub fn render() -> (fragment: String)
    ensures
        fragment@ == markup(),
{
    let mut fragment = String::from_str(SECTION_OPEN);
    fragment.append(CONTACT);
    fragment.append(SECTION_CLOSE);
    fragment
}

/// Renders the alert for an accepted submission.
pub fn render_success(name: &str) -> (fragment: String)
    ensures
        fragment@ == success_markup(name@),
{
    let mut fragment = String::from_str(SUCCESS_OPEN);
    fragment.append(SUCCESS_GREETING);
    push_escaped(&mut fragment, name);
    fragment.append(SUCCESS_REST);
    fragment
}

/// Renders the alert for a rejected submission.
pub fn render_error(error_message: &str) -> (fragment: String)
    ensures
        fragment@ == error_markup(error_message@),
{
    let mut fragment = String::from_str(ERROR_OPEN);
    fragment.append(ERROR_TITLE);
    push_escaped(&mut fragment, error_message);
    fragment.append(ERROR_REST);
    fragment
}

} // verus!
