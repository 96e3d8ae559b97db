//! Server-side rendering core of a personal portfolio site.
//!
//! Every section of the site can be answered in two ways: as a bare content
//! fragment, for a client that swaps it into the page it already shows, or as
//! a complete document, for a plain browser navigation. This crate holds the
//! route table, the content of each section, the page shell, the rule that
//! picks between the two answers, and the validation of the contact form.
//! It performs no I/O: a server hands it plain values and sends what comes
//! back.
//!
//! - [`routes`]: the sections and their paths.
//! - [`views`]: the markup of each section, of the alerts, of the page for an
//!   unknown path, and of the shell around a fragment.
//! - [`controllers`]: the answer to a request, and the contact form.
//! - [`structured_data`]: the JSON-LD documents that the page head embeds.
//! - [`markup`]: escaping, through `maud`, and what makes a document.
//! - [`text`]: white space and trimming.
//!
//! Contracts speak of texts as sequences of characters. Markup is built from
//! constant pieces and from escaped text; what a function returns is stated
//! as the concatenation that it is.

pub mod controllers;
pub mod markup;
pub mod routes;
pub mod structured_data;
pub mod text;
pub mod views;
