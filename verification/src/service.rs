//! The rules of the catalogue, and what they promise of a store that works.

pub mod book_service;
pub mod guarantees;
