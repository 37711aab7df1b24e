//! A registry of server configuration records: the record model, an in-memory
//! record table, the create / list / update / delete service with its routing
//! and error answers, the stored attribute form of a record with its partial
//! update plan, and the pieces of the command-line client that decide rather
//! than perform I/O.

pub mod model;
pub mod store;
pub mod service;
pub mod laws;
pub mod config;
pub mod cli;
pub mod item;
