//! The projects section.

use crate::views::{SECTION_CLOSE, SECTION_OPEN};
use vstd::prelude::*;
use vstd::string::StringExecFns;

verus! {

/// Featured projects and open-source work, as the card that fills the section.
pub const PROJECTS: &'static str =
    "<div class=\"container\"><div class=\"content-card\">\
    <h2 class=\"projects-title\">Proyectos Destacados</h2><div class=\"projects-grid\">\
    <div class=\"project-card\"><div class=\"project-image\">🚀 E-Commerce Platform</div>\
    <div class=\"project-content\"><h3 class=\"project-title\">Plataforma E-Commerce Avanzada</h3>\
    <p class=\"project-description\">Desarrollo completo de una plataforma de comercio electrónico \
    con procesamiento de pagos, gestión de inventario y panel de administración. Maneja más de \
    10,000 transacciones mensuales.</p>\
    <div class=\"project-tags\"><span class=\"tag\">Rust</span><span class=\"tag\">React</span>\
    <span class=\"tag\">PostgreSQL</span><span class=\"tag\">Stripe</span>\
    <span class=\"tag\">Docker</span></div><div class=\"project-links\">\
    <a href=\"/projects/demo/ecommerce-platform\" class=\"project-link\">Ver Demo</a>\
    <a href=\"/projects/code/ecommerce-platform\" \
    class=\"project-link\">Código</a></div></div></div>\
    <div class=\"project-card\"><div class=\"project-image\">📊 Analytics Dashboard</div>\
    <div class=\"project-content\">\
    <h3 class=\"project-title\">Dashboard de Analytics en Tiempo Real</h3>\
    <p class=\"project-description\">Sistema de análisis de datos en tiempo real con \
    visualizaciones interactivas. Procesa millones de eventos por día y proporciona insights \
    empresariales críticos a través de gráficos dinámicos.</p>\
    <div class=\"project-tags\"><span class=\"tag\">Node.js</span><span class=\"tag\">D3.js</span>\
    <span class=\"tag\">WebSockets</span><span class=\"tag\">MongoDB</span>\
    <span class=\"tag\">Redis</span></div><div class=\"project-links\">\
    <a href=\"/projects/demo/analytics-dashboard\" class=\"project-link\">Ver Demo</a>\
    <a href=\"/projects/code/analytics-dashboard\" \
    class=\"project-link\">Código</a></div></div></div>\
    <div class=\"project-card\"><div class=\"project-image\">🎯 Task Manager</div>\
    <div class=\"project-content\"><h3 class=\"project-title\">Gestor de Tareas Colaborativo</h3>\
    <p class=\"project-description\">Aplicación de gestión de proyectos con funcionalidades de \
    colaboración en tiempo real. Incluye chat integrado, notificaciones push y sincronización \
    offline-first.</p>\
    <div class=\"project-tags\"><span class=\"tag\">Rust</span><span class=\"tag\">Yew</span>\
    <span class=\"tag\">WebAssembly</span><span class=\"tag\">PWA</span>\
    <span class=\"tag\">GraphQL</span></div><div class=\"project-links\">\
    <a href=\"/projects/demo/task-manager\" class=\"project-link\">Ver Demo</a>\
    <a href=\"/projects/code/task-manager\" class=\"project-link\">Código</a></div></div></div>\
    <div class=\"project-card\"><div class=\"project-image\">🌐 API Gateway</div>\
    <div class=\"project-content\"><h3 class=\"project-title\">Microservices API Gateway</h3>\
    <p class=\"project-description\">Gateway de alta performance para arquitectura de \
    microservicios con rate limiting, autenticación, load balancing y monitoreo avanzado. Soporta \
    más de 100,000 requests por segundo.</p>\
    <div class=\"project-tags\"><span class=\"tag\">Rust</span><span class=\"tag\">Tokio</span>\
    <span class=\"tag\">gRPC</span><span class=\"tag\">Kubernetes</span>\
    <span class=\"tag\">Prometheus</span></div><div class=\"project-links\">\
    <a href=\"/projects/demo/api-gateway\" class=\"project-link\">Ver Demo</a>\
    <a href=\"/projects/code/api-gateway\" class=\"project-link\">Código</a></div></div></div>\
    <div class=\"project-card\"><div class=\"project-image\">📱 Mobile App</div>\
    <div class=\"project-content\"><h3 class=\"project-title\">App Móvil de Fitness</h3>\
    <p class=\"project-description\">Aplicación móvil multiplataforma para tracking de ejercicios \
    con integración de wearables, planes personalizados y comunidad social. Más de 50,000 usuarios \
    activos.</p>\
    <div class=\"project-tags\"><span class=\"tag\">React Native</span>\
    <span class=\"tag\">TypeScript</span><span class=\"tag\">Node.js</span>\
    <span class=\"tag\">Firebase</span><span class=\"tag\">ML Kit</span></div>\
    <div class=\"project-links\">\
    <a href=\"/projects/demo/mobile-app\" class=\"project-link\">Ver Demo</a>\
    <a href=\"/projects/code/mobile-app\" class=\"project-link\">Código</a></div></div></div>\
    <div class=\"project-card\"><div class=\"project-image\">🤖 AI Tool</div>\
    <div class=\"project-content\">\
    <h3 class=\"project-title\">Herramienta de IA para Code Review</h3>\
    <p class=\"project-description\">Sistema automatizado de revisión de código utilizando modelos \
    de lenguaje grandes. Analiza calidad, seguridad y mejores prácticas, reduciendo el tiempo de \
    review en un 60%.</p>\
    <div class=\"project-tags\"><span class=\"tag\">Python</span><span class=\"tag\">FastAPI</span>\
    <span class=\"tag\">OpenAI</span><span class=\"tag\">Docker</span>\
    <span class=\"tag\">GitHub Actions</span></div><div class=\"project-links\">\
    <a href=\"/projects/demo/ai-tool\" class=\"project-link\">Ver Demo</a>\
    <a href=\"/projects/code/ai-tool\" class=\"project-link\">Código</a></div></div></div></div>\
    <div class=\"opensource-section\"><h3 class=\"opensource-title\">Contribuciones Open \
    Source</h3>\
    <div class=\"opensource-grid\"><div class=\"opensource-item\">\
    <h4 class=\"opensource-item-title\">Rocket Framework</h4>\
    <p class=\"opensource-item-description\">Contribuciones al framework web de Rust</p></div>\
    <div class=\"opensource-item\"><h4 class=\"opensource-item-title\">Maud Templates</h4>\
    <p class=\"opensource-item-description\">Mejoras en el sistema de templates</p></div>\
    <div class=\"opensource-item\"><h4 class=\"opensource-item-title\">htmx Library</h4>\
    <p class=\"opensource-item-description\">Documentación y ejemplos</p></div>\
    <div class=\"opensource-item\"><h4 class=\"opensource-item-title\">Rust Ecosystem</h4>\
    <p class=\"opensource-item-description\">Múltiples crates y \
    utilidades</p></div></div></div></div></div>";

/// The section as markup: the shared section frame around [`PROJECTS`].
pub open spec fn markup() -> Seq<char> {
    SECTION_OPEN@ + PROJECTS@ + SECTION_CLOSE@
}

/// Renders the section. The result is the same on every call.
pub fn render() -> (fragment: String)
    ensures
        fragment@ == markup(),
{
    let mut fragment = String::from_str(SECTION_OPEN);
    fragment.append(PROJECTS);
    fragment.append(SECTION_CLOSE);
    fragment
}

} // verus!
