//! Logger configuration: level filters, line formats, file rotation policy,
//! build metadata rendering and located error messages.

pub mod error_msg;
pub mod filter;
pub mod format;
pub mod level;
pub mod plan;
pub mod rotation;
pub mod version;
