//! A command-line client core for a remote storage service: argument
//! resolution, persisted configuration records, and the request/response
//! protocol of the storage commands.
pub mod account;
pub mod args;
pub mod config;
pub mod error;
pub mod path;
pub mod storage;
