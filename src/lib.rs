//! A small user-directory service: validation of new users, a users table,
//! lookups by identifier, and the mapping of outcomes to HTTP responses.

pub mod handlers;
pub mod ids;
pub mod models;
pub mod quoting;
pub mod services;
pub mod store;
pub mod text;
