//! A small HTTP front door to a key-value store: the response rules of its
//! routes, the backend error classification and the startup decisions,
//! each with a proved contract.

pub mod response;
pub mod backend;
pub mod handlers;
pub mod startup;
