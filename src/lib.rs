//! Note analysis and reminder reconciliation.
//!
//! A note is handed to a language model, which answers with reminders to
//! create or update. This crate holds the verified core of that pipeline:
//! the prompt, the checks on the model's answer, and the reconciler, a state
//! machine that tells its host which store operation or outside call to make
//! next.
pub mod text;
pub mod store;
pub mod prompt;
pub mod response;
pub mod request;
mod clock;
pub mod reconciler;
pub mod laws;
