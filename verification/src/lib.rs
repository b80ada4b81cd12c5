//! Avatar redirect rules for a chat platform's users: request validation,
//! CDN URL derivation and response shaping, with machine-checked contracts.
//!
//! The crate decides and computes; it performs no I/O. A server built on it
//! reads a request, asks [`routes::handle_query`] whom to look up, looks the
//! user up, and hands the outcome to [`routes::respond`] for the reply.

pub mod avatar;
pub mod decimal;
pub mod format;
pub mod path;
pub mod request_id;
pub mod routes;
pub mod service;
pub mod text;
pub mod user;
