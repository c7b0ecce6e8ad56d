//! An OpenFeature-style provider for the Flipt feature-flag service.
//!
//! The crate models the framework-facing vocabulary (contexts, resolved
//! values, evaluation errors) and the wire-facing vocabulary (evaluation
//! requests and responses) as plain data, and verifies the translation and
//! decision logic between them.  Network transport is left to the embedding
//! application, which feeds each remote outcome back into the verified
//! decision functions.

pub mod json;
pub mod models;
pub mod provider;
pub mod utils;
