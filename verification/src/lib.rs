//! A supervisor library for a line-oriented JSON agent subprocess.
//!
//! The library holds the verified core of the supervisor: composing the
//! subprocess command line, classifying the events the subprocess prints,
//! accumulating bounded text and archive buffers, and deriving the final
//! success or failure verdict. All input and output stays with the
//! caller; the library works on plain values.

pub mod aggregate;
pub mod command;
pub mod config;
pub mod engine;
pub mod event;
pub mod laws;
pub mod models;
pub mod options;
pub mod prompt;
pub mod text;
pub mod verdict;
