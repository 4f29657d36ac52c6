//! A small todo service: create, read, update, delete, list and full-text
//! search over todo items, with a health check.
//!
//! The service layer validates requests, mints identifiers, merges updates
//! over existing records and translates persistence failures into
//! application errors. Persistence is reached through the [`repository`]
//! trait; an in-memory store implements it here, while a remote store can
//! implement it outside the verified core.

pub mod config;
pub mod domain;
pub mod error;
pub mod id;
pub mod repository;
pub mod response;
pub mod service;
pub mod text;
pub mod time;
pub mod validation;
