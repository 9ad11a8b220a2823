//! The command-line client: its arguments and how it addresses the server.
pub mod api;
pub mod cli;
pub mod config;
