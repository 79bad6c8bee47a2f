//! Extraction engine for job-alert notification emails.
//!
//! The core turns the plaintext body of a provider-specific job-alert email
//! into a deduplicated set of structured job postings: a scanner locates
//! two-line candidates (a text line followed by a job-view URL line), a
//! classifier decides whether the text is noise, a title or a location, and a
//! posting store merges classified fragments into one record per posting id.

pub mod classify;
pub mod extract;
pub mod mail;
pub mod middleware;
pub mod notify;
pub mod notion;
pub mod numfmt;
pub mod poller;
pub mod scanner;
pub mod signature;
pub mod store;
pub mod text;
pub mod webhook;
pub mod worker;
