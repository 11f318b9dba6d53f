//! A small catalogue of books kept in a document store.
//!
//! The library holds the rules of the catalogue: which requests are accepted,
//! what is asked of the store for each of them, and how the store's answers
//! become results. It performs no input or output itself: an operation is a
//! short conversation, in which the library names the next call to the store
//! and the caller hands back what the store answered.

pub mod entity;
pub mod entrypoint;
pub mod repository;
pub mod service;
