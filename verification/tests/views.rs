use portfolio::routes::Route;
use portfolio::views::contact_view::{render_error, render_success};
use portfolio::views::error_view::not_found;
use portfolio::views::{
    about_view, contact_view, experience_view, home_view, projects_view, render,
};

const SECTIONS: [Route; 5] =
    [Route::Home, Route::About, Route::Contact, Route::Experience, Route::Projects];

#[test]
fn home_fragment_is_the_hero() {
    assert_eq!(
        home_view::render(),
        "<section class=\"hero\"><div class=\"container\"><div class=\"hero-content\"><h1 class=\"hero-title\">Hola, soy Tu Nombre</h1><p class=\"hero-subtitle\">Desarrollador Full Stack</p><p class=\"hero-description\">Especializado en crear aplicaciones web modernas y eficientes utilizando tecnologías como Rust, JavaScript, React, y Node.js. Apasionado por el código limpio y las mejores prácticas de desarrollo.</p><a href=\"/contact\" hx-get=\"/contact\" hx-target=\"main\" hx-push-url=\"true\" class=\"btn btn-primary\">Contactar</a></div></div></section>"
    );
}

#[test]
fn home_links_to_the_contact_section_by_its_path() {
    let link = format!(
        "<a href=\"{0}\" hx-get=\"{0}\" hx-target=\"main\" hx-push-url=\"true\" class=\"btn btn-primary\">",
        Route::Contact.path()
    );
    assert!(home_view::render().contains(&link));
}

#[test]
fn about_fragment_holds_biography_and_skills() {
    let fragment = about_view::render();
    assert!(fragment.starts_with(
        "<section class=\"section\"><div class=\"container\"><div class=\"content-card\"><div class=\"about-grid\"><div class=\"about-text\"><h2>Sobre Mí</h2><p>Soy un desarrollador full stack"
    ));
    assert!(fragment.contains("<h3>DevOps &amp; Tools</h3>"));
    assert!(fragment.contains("<div class=\"about-profile-placeholder\">👨‍💻</div>"));
    assert!(fragment.ends_with(
        "<li>CI/CD</li><li>Linux</li></ul></div></div></div></div></section>"
    ));
    assert_eq!(fragment.chars().count(), 1466);
}

#[test]
fn experience_fragment_holds_the_timeline() {
    let fragment = experience_view::render();
    assert!(fragment.starts_with(
        "<section class=\"section\"><div class=\"container\"><div class=\"content-card\"><h2 class=\"experience-title\">Experiencia Profesional</h2><div class=\"timeline\"><div class=\"timeline-item\"><div class=\"timeline-date\">2022 - Presente</div>"
    ));
    assert!(fragment.contains(
        "<h3 class=\"education-section-title\">Educación &amp; Certificaciones</h3>"
    ));
    assert!(fragment.ends_with("</div></div></section>"));
    assert_eq!(fragment.chars().count(), 3501);
}

#[test]
fn projects_fragment_holds_the_cards() {
    let fragment = projects_view::render();
    assert!(fragment.starts_with(
        "<section class=\"section\"><div class=\"container\"><div class=\"content-card\"><h2 class=\"projects-title\">Proyectos Destacados</h2><div class=\"projects-grid\"><div class=\"project-card\"><div class=\"project-image\">🚀 E-Commerce Platform</div>"
    ));
    assert_eq!(fragment.matches("<div class=\"project-card\">").count(), 6);
    assert!(fragment.contains(
        "<a href=\"/projects/demo/ecommerce-platform\" class=\"project-link\">Ver Demo</a>"
    ));
    assert!(fragment.ends_with(
        "<p class=\"opensource-item-description\">Múltiples crates y utilidades</p></div></div></div></div></div></section>"
    ));
    assert_eq!(fragment.chars().count(), 5475);
}

#[test]
fn contact_fragment_holds_the_form() {
    let fragment = contact_view::render();
    assert!(fragment.starts_with(
        "<section class=\"section\"><div class=\"container\"><div class=\"content-card\"><h2 class=\"contact-section-title\">Contacto</h2>"
    ));
    assert!(fragment.contains(
        "<div id=\"contact-response\"></div><form hx-post=\"/contact\" hx-target=\"#contact-response\" hx-swap=\"innerHTML\">"
    ));
    assert!(fragment.contains(
        "<input type=\"text\" id=\"name\" name=\"name\" required=\"true\" placeholder=\"Tu nombre completo\" autocomplete=\"name\">"
    ));
    assert!(fragment.contains(
        "<input type=\"email\" id=\"email\" name=\"email\" required=\"true\" placeholder=\"tu@email.com\" autocomplete=\"email\">"
    ));
    assert!(fragment.contains(
        "<textarea id=\"message\" name=\"message\" required=\"true\" placeholder=\"Cuéntame sobre tu proyecto o cómo puedo ayudarte...\" autocomplete=\"on\"></textarea>"
    ));
    assert_eq!(
        fragment
            .matches("<h4 class=\"contact-info-section-title\">¿Por qué trabajar conmigo?</h4>")
            .count(),
        2
    );
    assert!(fragment.ends_with("</div></div></div></div></section>"));
    assert_eq!(fragment.chars().count(), 3178);
}

#[test]
fn content_lookup_reaches_every_section() {
    assert_eq!(render(Route::Home), home_view::render());
    assert_eq!(render(Route::About), about_view::render());
    assert_eq!(render(Route::Contact), contact_view::render());
    assert_eq!(render(Route::Experience), experience_view::render());
    assert_eq!(render(Route::Projects), projects_view::render());
}

#[test]
fn content_is_the_same_on_every_call() {
    for route in SECTIONS {
        assert_eq!(render(route), render(route));
    }
}

#[test]
fn sections_differ_from_one_another() {
    for a in SECTIONS {
        for b in SECTIONS {
            assert_eq!(render(a) == render(b), a == b);
        }
    }
}

#[test]
fn content_is_a_fragment_without_document_wrapper() {
    for route in SECTIONS {
        let fragment = render(route);
        assert!(fragment.starts_with("<section class=\""));
        assert!(fragment.ends_with("</section>"));
        assert!(!fragment.contains("<!DOCTYPE"));
        assert!(!fragment.contains("<html"));
        assert!(!fragment.contains("<head"));
        assert!(!fragment.contains("<body"));
    }
}

#[test]
fn success_alert_thanks_by_name() {
    assert_eq!(
        render_success("Ana"),
        "<div class=\"alert alert-success\"><h4 class=\"alert-title\">¡Mensaje enviado con éxito!</h4><p>Gracias Ana, he recibido tu mensaje y te responderé muy pronto.</p><p class=\"alert-text-mt\">Mientras tanto, puedes seguirme en <a href=\"https://linkedin.com/in/tu-perfil\" class=\"alert-link\">LinkedIn</a> o revisar mis proyectos en <a href=\"https://github.com/tu-usuario\" class=\"contact-github-link\">GitHub</a>.</p></div><div class=\"alert-action-container\"><p>¿Quieres enviar otro mensaje?</p><button hx-get=\"/contact\" hx-target=\"#contact-response\" hx-swap=\"innerHTML\" class=\"cta-button alert-button\">Nuevo mensaje</button></div>"
    );
}

#[test]
fn success_alert_escapes_the_name() {
    let fragment = render_success("<script>alert(\"x\")</script> & co");
    assert!(fragment.contains(
        "<p>Gracias &lt;script&gt;alert(&quot;x&quot;)&lt;/script&gt; &amp; co, he recibido"
    ));
    assert!(!fragment.contains("<script"));
}

#[test]
fn error_alert_shows_the_reason() {
    assert_eq!(
        render_error("All fields are required."),
        "<div class=\"alert alert-error\"><h4 class=\"alert-title\">Error al enviar el mensaje</h4><p>All fields are required.</p></div><div class=\"alert-action-container\"><p>Por favor, corrige el error e inténtalo de nuevo:</p><button hx-get=\"/contact\" hx-target=\"#contact-response\" hx-swap=\"innerHTML\" class=\"cta-button alert-button\">Reintentar</button></div>"
    );
}

#[test]
fn error_alert_escapes_the_reason() {
    let fragment = render_error("a < b");
    assert!(fragment.contains("<p>a &lt; b</p>"));
}

#[test]
fn not_found_page_is_a_document_of_its_own() {
    assert_eq!(
        not_found(),
        "<!DOCTYPE html><html lang=\"es\"><head><meta charset=\"utf-8\"><meta name=\"viewport\" content=\"width=device-width, initial-scale=1.0\"><title>404 - Página no encontrada | Tu Nombre</title><meta http-equiv=\"X-Content-Type-Options\" content=\"nosniff\"><meta http-equiv=\"X-Frame-Options\" content=\"DENY\"><meta http-equiv=\"X-XSS-Protection\" content=\"1; mode=block\"><script src=\"https://unpkg.com/htmx.org@2.0.3\" integrity=\"sha384-0895/pl2MU10Hqc6jd4RvrthNlDiE9U1tWmX7WRESftEDRosgxNsQG/Ze9YMRzHq\" crossorigin=\"anonymous\"></script><link rel=\"stylesheet\" href=\"/static/css/main.css\"></head><body><main class=\"error-main\"><section class=\"section error-section\"><div class=\"container\"><div class=\"content-card error-container\"><h1>404</h1><h2 class=\"error-title\">Página no encontrada</h2><p>Lo sentimos, la página que buscas no existe o ha sido movida.</p><div class=\"error-button-container\"><a href=\"/\" class=\"cta-button\">← Volver al inicio</a></div><div class=\"error-icon-container\">🔍</div></div></div></section></main></body></html>"
    );
}
