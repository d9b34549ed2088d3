//! Dispatch of packets to one handler per IP version.

pub mod handler;
pub mod proto_ipv4;
pub mod proto_ipv6;
