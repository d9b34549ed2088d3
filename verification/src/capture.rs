//! The producer side: frames in, feature records out.

pub mod channel;
pub mod parser;
pub mod pipeline;
pub mod sniffer;
pub mod types;
