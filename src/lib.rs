//! Command dispatch and execution core of an interactive shell.
pub mod error;
pub mod builtins;
pub mod commands;
pub mod config;
pub mod console;
pub mod dispatcher;
pub mod engine;
pub mod eval_errors;
pub mod exec_errors;
pub mod history;
pub mod listing;
pub mod parse;
pub mod parser;
pub mod path;
pub mod text;

pub use error::RushError;
