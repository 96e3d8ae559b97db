//! The contact form: what a submission must hold to be accepted, and the
//! answer it gets. Nothing is sent or stored: the answer is all that a
//! submission causes.

use crate::controllers::{fragment_response, respond, Response, ResponseView};
use crate::markup::{is_document, strictly_within};
use crate::routes::Route;
use crate::structured_data::{StructuredData, StructuredDataView};
use crate::text::{contains_char, lemma_trimmed_idempotent, trim, trimmed};
use crate::views::contact_view::{error_markup, render_error, render_success, success_markup};
use crate::views::layout::lemma_page_wraps_content;
use crate::views::lemma_alert_is_fragment;
use vstd::prelude::*;
use vstd::string::{StrSliceExecFns, StringExecFns};

verus! {

/// The least number of characters that a message must have.
pub const MIN_MESSAGE_CHARS: usize = 10;

/// The fields of the form, as they were submitted.
#[derive(Debug)]
pub struct ContactForm {
    pub name: String,
    pub email: String,
    pub message: String,
}

/// A [`ContactForm`] with its texts as sequences of characters.
pub struct Submission {
    pub name: Seq<char>,
    pub email: Seq<char>,
    pub message: Seq<char>,
}

impl View for ContactForm {
    type V = Submission;

    open spec fn view(&self) -> Submission {
        Submission { name: self.name@, email: self.email@, message: self.message@ }
    }
}

impl Clone for ContactForm {
    fn clone(&self) -> (copy: Self)
        ensures
            copy@ == self@,
    {
        ContactForm {
            name: self.name.clone(),
            email: self.email.clone(),
            message: self.message.clone(),
        }
    }
}

impl Submission {
    /// The submission with the white space around each field removed.
    pub open spec fn trimmed(self) -> Submission {
        Submission {
            name: trimmed(self.name),
            email: trimmed(self.email),
            message: trimmed(self.message),
        }
    }

    /// Whether a field is empty.
    pub open spec fn lacks_a_field(self) -> bool {
        self.name.len() == 0 || self.email.len() == 0 || self.message.len() == 0
    }
}

/// Why a submission is turned down.
#[derive(Clone, Copy, Debug, PartialEq, Eq, Structural)]
pub enum ValidationError {
    /// A field is empty, or holds white space only.
    MissingField,
    /// The address holds no `@`.
    InvalidEmail,
    /// The message is shorter than [`MIN_MESSAGE_CHARS`].
    MessageTooShort,
}

/// What validation makes of a submission.
#[derive(Debug)]
pub enum ValidationOutcome {
    /// The submission is accepted; the fields are held trimmed.
    Valid { name: String, email: String, message: String },
    /// The submission is turned down, for the first reason that applies.
    Invalid(ValidationError),
}

/// A [`ValidationOutcome`] with its texts as sequences of characters.
pub enum Outcome {
    Valid(Submission),
    Invalid(ValidationError),
}

impl View for ValidationOutcome {
    type V = Outcome;

    open spec fn view(&self) -> Outcome {
        match self {
            ValidationOutcome::Valid { name, email, message } => Outcome::Valid(
                Submission { name: name@, email: email@, message: message@ },
            ),
            ValidationOutcome::Invalid(error) => Outcome::Invalid(*error),
        }
    }
}

impl Clone for ValidationOutcome {
    fn clone(&self) -> (copy: Self)
        ensures
            copy@ == self@,
    {
        match self {
            ValidationOutcome::Valid { name, email, message } => ValidationOutcome::Valid {
                name: name.clone(),
                email: email.clone(),
                message: message.clone(),
            },
            ValidationOutcome::Invalid(error) => ValidationOutcome::Invalid(*error),
        }
    }
}

impl ValidationError {
    /// What the sender is told.
    pub open spec fn message_spec(self) -> Seq<char> {
        match self {
            ValidationError::MissingField => "All fields are required."@,
            ValidationError::InvalidEmail => "Please enter a valid email."@,
            ValidationError::MessageTooShort => "The message must be at least 10 characters."@,
        }
    }

    pub fn message(&self) -> (text: &'static str)
        ensures
            text@ == self.message_spec(),
    {
        match self {
            ValidationError::MissingField => "All fields are required.",
            ValidationError::InvalidEmail => "Please enter a valid email.",
            ValidationError::MessageTooShort => "The message must be at least 10 characters.",
        }
    }
}

/// The outcome for a submission. All three fields are trimmed first. Then
/// the rules apply in this order, and the first that fails decides: no field
/// may be empty; the address must hold an `@`; the message must have at
/// least ten characters, counted as characters and not as bytes.
pub open spec fn validation_outcome(form: Submission) -> Outcome {
    let fields = form.trimmed();
    if fields.lacks_a_field() {
        Outcome::Invalid(ValidationError::MissingField)
    } else if !fields.email.contains('@') {
        Outcome::Invalid(ValidationError::InvalidEmail)
    } else if fields.message.len() < MIN_MESSAGE_CHARS {
        Outcome::Invalid(ValidationError::MessageTooShort)
    } else {
        Outcome::Valid(fields)
    }
}

/// The alert that tells the sender of `outcome`.
pub open spec fn outcome_markup(outcome: Outcome) -> Seq<char> {
    match outcome {
        Outcome::Valid(fields) => success_markup(fields.name),
        Outcome::Invalid(error) => error_markup(error.message_spec()),
    }
}

/// The answer to a submission of the form.
pub open spec fn submission_response(form: Submission, is_htmx: bool, data: StructuredDataView)
    -> ResponseView {
    fragment_response(is_htmx, Route::Contact, outcome_markup(validation_outcome(form)), data)
}

/// Validates a submission.
pub fn validate(form: &ContactForm) -> (outcome: ValidationOutcome)
    ensures
        outcome@ == validation_outcome(form@),
{
    let name = trim(form.name.as_str());
    let email = trim(form.email.as_str());
    let message = trim(form.message.as_str());
    if name.unicode_len() == 0 || email.unicode_len() == 0 || message.unicode_len() == 0 {
        return ValidationOutcome::Invalid(ValidationError::MissingField);
    }
    if !contains_char(email, '@') {
        return ValidationOutcome::Invalid(ValidationError::InvalidEmail);
    }
    if message.unicode_len() < MIN_MESSAGE_CHARS {
        return ValidationOutcome::Invalid(ValidationError::MessageTooShort);
    }
    ValidationOutcome::Valid {
        name: String::from_str(name),
        email: String::from_str(email),
        message: String::from_str(message),
    }
}

/// Renders the alert that tells the sender of `outcome`.
pub fn render_outcome(outcome: &ValidationOutcome) -> (fragment: String)
    ensures
        fragment@ == outcome_markup(outcome@),
{
    match outcome {
        ValidationOutcome::Valid { name, .. } => render_success(name.as_str()),
        ValidationOutcome::Invalid(error) => render_error(error.message()),
    }
}

/// Answers a submission of the form: validates it, and sends the alert that
/// tells of the outcome, bare or inside the page of the contact section, as
/// the kind of request asks. A submission that is turned down is answered
/// like one that is accepted, with the status of success: the alert says
/// what is wrong.
pub fn contact_submit(is_htmx: bool, form: &ContactForm, data: &StructuredData) -> (response:
    Response)
    ensures
        response@ == submission_response(form@, is_htmx, data@),
{
    let outcome = validate(form);
    let fragment = render_outcome(&outcome);
    respond(is_htmx, Route::Contact, fragment, data)
}

/// White space around a field changes nothing: a submission and the same
/// submission with every field trimmed have one outcome, and so one answer.
pub proof fn lemma_validation_ignores_padding(form: Submission)
    ensures
        validation_outcome(form.trimmed()) == validation_outcome(form),
        forall|is_htmx: bool, data: StructuredDataView|
            #[trigger] submission_response(form.trimmed(), is_htmx, data) == submission_response(
                form,
                is_htmx,
                data,
            ),
{
    lemma_trimmed_idempotent(form.name);
    lemma_trimmed_idempotent(form.email);
    lemma_trimmed_idempotent(form.message);
    assert(form.trimmed().trimmed() == form.trimmed());
}

/// An empty field decides, whatever the other fields hold.
pub proof fn lemma_missing_field_comes_first(form: Submission)
    requires
        form.trimmed().lacks_a_field(),
    ensures
        validation_outcome(form) == Outcome::Invalid(ValidationError::MissingField),
{
}

/// An accepted submission is held trimmed, with every field filled, an `@`
/// in the address and a message of sufficient length.
pub proof fn lemma_valid_fields(form: Submission)
    requires
        validation_outcome(form) is Valid,
    ensures
        validation_outcome(form) == Outcome::Valid(form.trimmed()),
        !form.trimmed().lacks_a_field(),
        form.trimmed().email.contains('@'),
        form.trimmed().message.len() >= MIN_MESSAGE_CHARS,
{
}

/// The answer to a submission follows the rule of every other answer: what
/// a fragment-swapping client gets is an alert and no document, and it is a
/// proper part of the document that a plain navigation gets.
pub proof fn lemma_submission_partial_within_full(form: Submission, data: StructuredDataView)
    ensures
        strictly_within(
            submission_response(form, true, data).body,
            submission_response(form, false, data).body,
        ),
        !is_document(submission_response(form, true, data).body),
        is_document(submission_response(form, false, data).body),
{
    let alert = outcome_markup(validation_outcome(form));
    lemma_page_wraps_content(Route::Contact, alert, data);
    match validation_outcome(form) {
        Outcome::Valid(fields) => lemma_alert_is_fragment(fields.name),
        Outcome::Invalid(error) => lemma_alert_is_fragment(error.message_spec()),
    }
}

} // verus!
