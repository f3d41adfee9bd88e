//! A todo-list service: request validation, an in-memory store with the
//! semantics of the single-statement queries the service issues, and the
//! shaping of every outcome into a uniform response envelope.

pub mod config;
pub mod error;
pub mod handler;
pub mod model;
pub mod response;
pub mod store;
