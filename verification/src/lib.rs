//! Tusklet's workspace logic: database configurations and their validation,
//! the Docker commands that manage each database's container, the operations
//! the user runs, the rules the store applies, and what the interface shows.
pub mod docker;
pub mod interface;
pub mod model;
pub mod service;
pub mod store;
pub mod text;
