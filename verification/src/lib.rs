//! The decisions behind a terminal chat over an indexed code repository:
//! which providers a configuration resolves to, what an indexing or a query
//! run is assembled from, when a run may start, go on and stop, and what
//! the user interface is told. Nothing here reads a file, calls a provider
//! or draws on a terminal; the program around this library does, and hands
//! in what happened.

pub mod command;
pub mod config;
pub mod coordinator;
pub mod error;
pub mod indexing;
pub mod provider;
pub mod query;
pub mod repository;
pub mod run;
