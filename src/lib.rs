//! Request handling for the locations resource of the HTTP API.
//!
//! Each endpoint is split in two verified halves: the query that it sends to
//! the storage layer, and the reply that it derives from what the storage
//! layer answered. Transport, serialization and logging live outside.
pub mod error;
pub mod id;
pub mod query;
pub mod controller;

pub use error::LocationsError;
pub use id::Id;
