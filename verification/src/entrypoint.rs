//! What goes back to the client, and where the service listens.

pub mod routes;
pub mod server;
