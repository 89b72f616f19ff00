//! A small multi-tenant content backend: registration with one-time email
//! codes, signed session tokens, and ownership-scoped articles and apps.
//!
//! The library holds the rules and the decisions. Each endpoint is a state
//! machine that asks for store round-trips and mail dispatch and turns what
//! comes back into a response; the caller performs the I/O.

pub mod api;
pub mod backend;
pub mod clock;
pub mod config;
pub mod handlers;
pub mod laws;
pub mod middleware;
pub mod models;
pub mod sql;
pub mod store;
pub mod text;
pub mod utils;
