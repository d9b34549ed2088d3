//! The handler of IPv4 packets.

use crate::capture::parser::IpAddress;
use crate::protocols::handler::ProtocolHandler;
use vstd::prelude::*;

verus! {

/// Takes the packets with an IPv4 address.
#[derive(Clone, Copy, Debug, PartialEq, Eq)]
pub struct Ipv4Handler;

impl ProtocolHandler for Ipv4Handler {
    open spec fn accepts(&self, addr: IpAddress) -> bool {
        addr is V4
    }

    fn handle(&self, addr: IpAddress, length: u32) -> (handled: bool) {
        match addr {
            IpAddress::V4(_) => true,
            IpAddress::V6(_) => false,
        }
    }
}

} // verus!
