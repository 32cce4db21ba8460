//! Core of a static-file HTTP/1.1 server.
//!
//! The crate verifies the parts of the server that decide things: the HTTP
//! status table, request-line parsing, response formatting, the MIME lookup,
//! the per-connection state machine, and the connection manager that enforces
//! the admission cap.  The surrounding event loop performs the socket and
//! file system calls and feeds their outcomes into these functions as plain
//! values.

pub mod config;
pub mod connection_manager;
pub mod http_status;
pub mod byte_scan;
pub mod connection;
pub mod content_type;
pub mod request_parser;
pub mod response;
pub mod static_files;
