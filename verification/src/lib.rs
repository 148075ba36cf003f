//! Typed client core for the MongoDB Atlas Data API.
//!
//! Every supported database action is one stateless HTTP POST round trip.
//! This crate holds the verified part of such a client: deriving the action
//! URL from the configuration, assembling the fixed headers, building the
//! exact JSON request body for each action (optional fields are omitted when
//! absent, never serialized as null), and interpreting an HTTP response
//! (status code and body text) as a typed result or a descriptive error.
//! The network call itself is left to the caller.

pub mod client;
pub mod doc;
pub mod error;
pub mod json;
pub mod request;
pub mod response;
