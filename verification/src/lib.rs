//! An embeddable SMTP receiving server core: reply formatting, command
//! lexing, mail parsing, the per-connection state machine and the SPF and
//! DMARC record evaluators.

pub mod client_message;
pub mod command;
pub mod connection;
pub mod errors;
pub mod handle_connection;
pub mod headers;
pub mod mail;
pub mod message;
pub mod outside;
pub mod server;
pub mod status_code;
pub mod text;
pub mod utilities;
