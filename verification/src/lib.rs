//! A verified persistence core for a question-and-answer service.
//!
//! Two resources, questions and answers, are stored in a relational
//! fashion: every answer refers to an existing question. The library
//! validates identifiers before any store operation, translates
//! store-level failures into a small typed error set, and provides a
//! fully verified in-memory store implementing the data-access traits.

pub mod identifier;
pub mod laws;
pub mod models;
pub mod dao;
pub mod handlers;
pub mod translate;
pub mod store;

pub use models::DBError;
