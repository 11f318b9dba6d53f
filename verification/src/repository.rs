//! What is asked of the document store, and how.

pub mod document;
pub mod mongo_repo;
pub mod shelf;
