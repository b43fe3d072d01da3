//! Rendering of the last HTTP response of a finished run: its body, optionally
//! preceded by its status line and headers, routed to an output destination.

pub mod decoding;
pub mod error;
pub mod http;
pub mod last_body;
pub mod position;
pub mod result;
pub mod sink;
pub mod text;

pub use last_body::write_last_body;
