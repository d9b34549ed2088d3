//! The handler of IPv6 packets.

use crate::capture::parser::IpAddress;
use crate::protocols::handler::ProtocolHandler;
use vstd::prelude::*;

verus! {

/// Takes the packets with an IPv6 address.
#[derive(Clone, Copy, Debug, PartialEq, Eq)]
pub struct Ipv6Handler;

impl ProtocolHandler for Ipv6Handler {
    open spec fn accepts(&self, addr: IpAddress) -> bool {
        addr is V6
    }

    fn handle(&self, addr: IpAddress, length: u32) -> (handled: bool) {
        match addr {
            IpAddress::V4(_) => false,
            IpAddress::V6(_) => true,
        }
    }
}

} // verus!
