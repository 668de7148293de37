//! A bridge between a line-delimited JSON-RPC tool protocol and the Bareos
//! director console.
//!
//! The crate holds the decisions of that bridge: which console command a
//! request asks for, what is fed to the console, when a finished console run
//! counts as a success, and what the reply to each request looks like. Running
//! the console and moving lines in and out is left to the program around it.

pub mod bareos;
pub mod error;
pub mod json;
pub mod protocol;
pub mod server;
pub mod text;
pub mod tools;
pub mod wire;
