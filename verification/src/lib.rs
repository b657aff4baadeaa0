//! A client for the Common Weakness Enumeration (CWE) REST API.
//!
//! The library holds everything that a command-line run decides: which
//! request a command makes, how a response is read, and what is written to
//! standard output. Sending the request and writing the output are left to
//! the caller.

pub mod cli;
pub mod client;
pub mod dispatch;
pub mod json;
pub mod path;
pub mod report;
pub mod template;
