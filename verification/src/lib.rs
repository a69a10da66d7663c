//! Verified core of the restricted `ov` command-line client: the runtime
//! configuration it builds from the API key, the commands it dispatches and the
//! error reports it prints.

pub mod text;
pub mod output;
pub mod headers;
pub mod error;
pub mod config;
pub mod command;
pub mod report;
pub mod plan;
