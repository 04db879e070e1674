//! Identity and access core of a small multi-entity content service.
//!
//! The crate covers the credential manager (salted, memory-hard digests),
//! the identity uniqueness guard, the bearer-token authorization guard,
//! the generic repository contract over an in-memory table model, and the
//! statement builders of the storage adapter.  HTTP plumbing and the
//! execution of statements against a live database live outside the crate.

pub mod api;
pub mod bootstrap;
pub mod credentials;
pub mod db;
pub mod errors;
pub mod headers;
pub mod ids;
pub mod monsters;
pub mod repo;
pub mod response;
pub mod text;
pub mod user;
