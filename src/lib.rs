//! A job-style warehouse source: column types, connection descriptors, the
//! status-poll machine, the paginated row-major parser, and the conversion
//! tables that bind its type vocabulary to columnar destinations.

pub mod config;
pub mod errors;
pub mod poll;
pub mod typesystem;
pub mod page;
pub mod parser;
pub mod dispatch;
pub mod transport;
pub mod source;
