//! The subscription route: its errors and the admission workflow.

pub mod admission;
pub mod error;
pub mod in_memory;
pub mod subscriptions;
