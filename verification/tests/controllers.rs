use portfolio::controllers::contact::{
    contact_submit, render_outcome, validate, ContactForm, ValidationError, ValidationOutcome,
    MIN_MESSAGE_CHARS,
};
use portfolio::controllers::{
    handler, respond, Response, HTML_CONTENT_TYPE, STATUS_NOT_FOUND, STATUS_OK,
};
use portfolio::routes::Route;
use portfolio::structured_data::StructuredData;
use portfolio::views::contact_view::{render_error, render_success};
use portfolio::views::error_view::not_found;
use portfolio::views::layout::render_page_with_content;
use portfolio::views::render;

const ALL_SECTIONS: [Route; 5] =
    [Route::Home, Route::About, Route::Contact, Route::Experience, Route::Projects];

const REQUIRED: &str = "All fields are required.";
const EMAIL: &str = "Please enter a valid email.";
const LENGTH: &str = "The message must be at least 10 characters.";

fn site_data() -> StructuredData {
    StructuredData { website: "{\"w\":1}".to_string(), person: "{\"p\":2}".to_string() }
}

fn form(name: &str, email: &str, message: &str) -> ContactForm {
    ContactForm {
        name: name.to_string(),
        email: email.to_string(),
        message: message.to_string(),
    }
}

fn rejected_with(outcome: ValidationOutcome) -> ValidationError {
    match outcome {
        ValidationOutcome::Invalid(error) => error,
        ValidationOutcome::Valid { .. } => panic!("expected a rejection"),
    }
}

fn accepted(outcome: ValidationOutcome) -> (String, String, String) {
    match outcome {
        ValidationOutcome::Valid { name, email, message } => (name, email, message),
        ValidationOutcome::Invalid(error) => panic!("rejected: {:?}", error),
    }
}

fn submit_partial(f: &ContactForm) -> Response {
    contact_submit(true, f, &site_data())
}

#[test]
fn partial_request_gets_the_bare_fragment() {
    for route in ALL_SECTIONS {
        let response = route.handler(true, &site_data());
        assert_eq!(response.status, 200);
        assert_eq!(response.content_type, "text/html; charset=utf-8");
        assert_eq!(response.body, render(route));
    }
}

#[test]
fn full_request_gets_the_complete_page() {
    for route in ALL_SECTIONS {
        let response = route.handler(false, &site_data());
        assert_eq!(response.status, 200);
        assert_eq!(response.content_type, "text/html; charset=utf-8");
        assert_eq!(
            response.body,
            render_page_with_content(route, &render(route), &site_data())
        );
    }
}

#[test]
fn fragment_is_a_proper_part_of_the_page() {
    for route in ALL_SECTIONS {
        let partial = route.handler(true, &site_data()).body;
        let full = route.handler(false, &site_data()).body;
        assert!(full.contains(&partial));
        assert!(full.len() > partial.len());
        assert!(full.starts_with("<!DOCTYPE html><html lang=\"es\"><head>"));
        assert!(!partial.contains("<!DOCTYPE"));
        assert!(!partial.contains("<html"));
        assert!(!partial.contains("<head"));
        assert!(full.contains(&format!("<main hx-history-elt>{}</main>", partial)));
    }
}

#[test]
fn respond_applies_the_same_rule_to_any_fragment() {
    let fragment = "<p>hola</p>".to_string();
    let partial = respond(true, Route::Projects, fragment.clone(), &site_data());
    assert_eq!(partial.status, STATUS_OK);
    assert_eq!(partial.content_type, HTML_CONTENT_TYPE);
    assert_eq!(partial.body, "<p>hola</p>");
    let full = respond(false, Route::Projects, fragment, &site_data());
    assert_eq!(full.status, STATUS_OK);
    assert_eq!(full.content_type, HTML_CONTENT_TYPE);
    assert_eq!(
        full.body,
        render_page_with_content(Route::Projects, "<p>hola</p>", &site_data())
    );
}

#[test]
fn handler_serves_each_section_at_its_path() {
    for route in ALL_SECTIONS {
        for is_htmx in [true, false] {
            let by_path = handler(route.path(), is_htmx, &site_data());
            let direct = route.handler(is_htmx, &site_data());
            assert_eq!(by_path.status, 200);
            assert_eq!(by_path.body, direct.body);
        }
    }
}

#[test]
fn unknown_path_gets_the_not_found_page_whoever_asks() {
    for path in ["/nope", "", "/about/", "/About", "/contact/form", "/static"] {
        for is_htmx in [true, false] {
            let response = handler(path, is_htmx, &site_data());
            assert_eq!(response.status, 404);
            assert_eq!(response.status, STATUS_NOT_FOUND);
            assert_eq!(response.content_type, "text/html; charset=utf-8");
            assert_eq!(response.body, not_found());
            assert!(response.body.starts_with("<!DOCTYPE html><html lang=\"es\"><head>"));
            assert!(response.body.ends_with("</body></html>"));
        }
    }
}

#[test]
fn messages_of_the_rules() {
    assert_eq!(ValidationError::MissingField.message(), REQUIRED);
    assert_eq!(ValidationError::InvalidEmail.message(), EMAIL);
    assert_eq!(ValidationError::MessageTooShort.message(), LENGTH);
    assert_eq!(MIN_MESSAGE_CHARS, 10);
}

#[test]
fn required_rule_comes_before_the_others() {
    let f = form("", "bad", "short");
    assert_eq!(rejected_with(validate(&f)), ValidationError::MissingField);
    assert_eq!(submit_partial(&f).body, render_error(REQUIRED));
}

#[test]
fn each_field_is_required() {
    let long = "Hello, this is long enough.";
    for f in [
        form("", "ana@example.com", long),
        form("Ana", "", long),
        form("Ana", "ana@example.com", ""),
        form("", "", ""),
    ] {
        assert_eq!(rejected_with(validate(&f)), ValidationError::MissingField);
    }
}

#[test]
fn field_of_white_space_counts_as_empty() {
    let long = "Hello, this is long enough.";
    for f in [
        form("   ", "ana@example.com", long),
        form("Ana", "\t\n", long),
        form("Ana", "ana@example.com", " \u{a0}\u{3000} "),
    ] {
        assert_eq!(rejected_with(validate(&f)), ValidationError::MissingField);
        assert_eq!(submit_partial(&f).body, render_error(REQUIRED));
    }
}

#[test]
fn valid_submission_is_accepted() {
    let f = form("Ana", "ana@example.com", "Hello, this is long enough.");
    let (name, email, message) = accepted(validate(&f));
    assert_eq!(name, "Ana");
    assert_eq!(email, "ana@example.com");
    assert_eq!(message, "Hello, this is long enough.");
    let response = submit_partial(&f);
    assert_eq!(response.status, 200);
    assert_eq!(response.body, render_success("Ana"));
    assert!(response.body.contains("Ana"));
    assert!(response.body.contains("<p>Gracias Ana, he recibido tu mensaje"));
}

#[test]
fn email_without_at_is_rejected() {
    let f = form("Ana", "ana-no-at", "Hello, this is long enough.");
    assert_eq!(rejected_with(validate(&f)), ValidationError::InvalidEmail);
    assert_eq!(submit_partial(&f).body, render_error(EMAIL));
}

#[test]
fn email_rule_comes_before_the_length_rule() {
    let f = form("Ana", "ana-no-at", "short");
    assert_eq!(rejected_with(validate(&f)), ValidationError::InvalidEmail);
}

#[test]
fn email_needs_no_more_than_an_at() {
    let f = form("Ana", "@", "Hello, this is long enough.");
    let (_, email, _) = accepted(validate(&f));
    assert_eq!(email, "@");
}

#[test]
fn message_of_nine_characters_is_too_short() {
    let f = form("Ana", "ana@example.com", "123456789");
    assert_eq!(rejected_with(validate(&f)), ValidationError::MessageTooShort);
    assert_eq!(submit_partial(&f).body, render_error(LENGTH));
    let short = form("Ana", "ana@example.com", "short");
    assert_eq!(rejected_with(validate(&short)), ValidationError::MessageTooShort);
}

#[test]
fn message_of_ten_characters_passes() {
    let f = form("Ana", "ana@example.com", "1234567890");
    let (_, _, message) = accepted(validate(&f));
    assert_eq!(message, "1234567890");
    assert_eq!(submit_partial(&f).body, render_success("Ana"));
}

#[test]
fn message_length_is_counted_after_trimming() {
    let f = form("Ana", "ana@example.com", "  123456789  ");
    assert_eq!(rejected_with(validate(&f)), ValidationError::MessageTooShort);
}

#[test]
fn message_length_is_counted_in_characters() {
    let nine = form("Ana", "ana@example.com", "ñññññññññ");
    assert_eq!("ñññññññññ".len(), 18);
    assert_eq!(rejected_with(validate(&nine)), ValidationError::MessageTooShort);
    let ten = form("Ana", "ana@example.com", "ññññññññññ");
    let (_, _, message) = accepted(validate(&ten));
    assert_eq!(message, "ññññññññññ");
}

#[test]
fn padding_around_fields_changes_nothing() {
    let padded = form(" Ana ", "\tana@example.com\n", "  Hello, this is long enough.  ");
    let plain = form("Ana", "ana@example.com", "Hello, this is long enough.");
    assert_eq!(accepted(validate(&padded)), accepted(validate(&plain)));
    for is_htmx in [true, false] {
        assert_eq!(
            contact_submit(is_htmx, &padded, &site_data()).body,
            contact_submit(is_htmx, &plain, &site_data()).body
        );
    }
    assert_eq!(submit_partial(&padded).body, render_success("Ana"));
}

#[test]
fn padding_does_not_change_a_rejection() {
    let padded = form(" Ana ", " ana-no-at ", " Hello, this is long enough. ");
    let plain = form("Ana", "ana-no-at", "Hello, this is long enough.");
    assert_eq!(rejected_with(validate(&padded)), rejected_with(validate(&plain)));
    assert_eq!(submit_partial(&padded).body, submit_partial(&plain).body);
}

#[test]
fn rejection_is_answered_with_success_status() {
    for f in [
        form("", "bad", "short"),
        form("Ana", "ana-no-at", "Hello, this is long enough."),
        form("Ana", "ana@example.com", "short"),
    ] {
        for is_htmx in [true, false] {
            let response = contact_submit(is_htmx, &f, &site_data());
            assert_eq!(response.status, 200);
            assert_eq!(response.content_type, "text/html; charset=utf-8");
        }
    }
}

#[test]
fn outcome_is_rendered_as_its_alert() {
    let valid = ValidationOutcome::Valid {
        name: "Ana".to_string(),
        email: "ana@example.com".to_string(),
        message: "Hello, this is long enough.".to_string(),
    };
    assert_eq!(render_outcome(&valid), render_success("Ana"));
    assert_eq!(
        render_outcome(&ValidationOutcome::Invalid(ValidationError::MissingField)),
        render_error(REQUIRED)
    );
    assert_eq!(
        render_outcome(&ValidationOutcome::Invalid(ValidationError::InvalidEmail)),
        render_error(EMAIL)
    );
    assert_eq!(
        render_outcome(&ValidationOutcome::Invalid(ValidationError::MessageTooShort)),
        render_error(LENGTH)
    );
}

#[test]
fn full_request_gets_the_alert_inside_the_contact_page() {
    let f = form("Ana", "ana@example.com", "Hello, this is long enough.");
    let response = contact_submit(false, &f, &site_data());
    assert_eq!(
        response.body,
        render_page_with_content(Route::Contact, &render_success("Ana"), &site_data())
    );
    let rejected = contact_submit(false, &form("", "", ""), &site_data());
    assert_eq!(
        rejected.body,
        render_page_with_content(Route::Contact, &render_error(REQUIRED), &site_data())
    );
    assert!(rejected.body.contains(" class=\"nav-link active\">Contacto</a>"));
}

#[test]
fn name_cannot_bring_markup_into_the_answer() {
    let f = form("<img src=x onerror=alert(1)>", "ana@example.com", "Hello, this is long.");
    let body = submit_partial(&f).body;
    assert!(body.contains("Gracias &lt;img src=x onerror=alert(1)&gt;, he recibido"));
    assert!(!body.contains("<img"));
}
