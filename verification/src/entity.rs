//! The records that travel between the client, the service and the store.

pub mod book;
pub mod book_id;
pub mod create_book;
pub mod error_data;
pub mod update_book;
