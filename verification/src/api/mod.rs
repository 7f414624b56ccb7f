//! The HTTP API: its route modules.
pub mod routes;
