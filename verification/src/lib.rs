//! Admission of new subscribers to a mailing list.
//!
//! Untrusted form input is parsed into validated identity types, a pending
//! subscriber record and a single-use confirmation token are prepared, and a
//! small state machine decides every step of the admission workflow: what to
//! write, when to commit, what to send, and how to answer when a step fails.
//!
//! The crate performs no I/O. Whoever drives the workflow carries out each
//! action it asks for and reports the outcome back. A store and an outbox
//! that live in memory are part of the crate: they say what the actions
//! mean, and the workflow is proved against them.

pub mod domain;
pub mod email_client;
pub mod route;
pub mod startup;
pub mod store;
