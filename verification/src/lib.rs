//! Decoding of captured network frames into normalized records, and the
//! rules by which a capture session routes each record to its sinks.

pub mod addr;
pub mod capture;
pub mod cli;
pub mod clock;
pub mod device;
pub mod frame;
pub mod headers;
pub mod inspect;
pub mod packet;
pub mod sink;
pub mod text;
