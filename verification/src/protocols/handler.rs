//! The protocol manager: a table with one handler per IP version, and the
//! rule that picks the handler of a packet.

use crate::capture::parser::IpAddress;
use crate::protocols::proto_ipv4::Ipv4Handler;
use crate::protocols::proto_ipv6::Ipv6Handler;
use vstd::prelude::*;

verus! {

/// Place of the IPv4 handler in the manager's table.
pub const IPV4_SLOT: usize = 0;

/// Place of the IPv6 handler in the manager's table.
pub const IPV6_SLOT: usize = 1;

/// A handler of the packets of one protocol.
pub trait ProtocolHandler {
    /// Whether a packet with this address is one of this handler's.
    spec fn accepts(&self, addr: IpAddress) -> bool;

    /// Offers a packet of `length` bytes to the handler. Returns whether the
    /// handler took it.
    fn handle(&self, addr: IpAddress, length: u32) -> (handled: bool)
        ensures
            handled == self.accepts(addr),
    ;
}

/// The handlers there are: one per IP version.
#[derive(Clone, Copy, Debug, PartialEq, Eq)]
pub enum Handler {
    Ipv4(Ipv4Handler),
    Ipv6(Ipv6Handler),
}

impl ProtocolHandler for Handler {
    open spec fn accepts(&self, addr: IpAddress) -> bool {
        match self {
            Handler::Ipv4(handler) => handler.accepts(addr),
            Handler::Ipv6(handler) => handler.accepts(addr),
        }
    }

    fn handle(&self, addr: IpAddress, length: u32) -> (handled: bool) {
        match self {
            Handler::Ipv4(handler) => handler.handle(addr, length),
            Handler::Ipv6(handler) => handler.handle(addr, length),
        }
    }
}

/// The slot of the handler that a packet with this address goes to.
pub open spec fn slot_of(addr: IpAddress) -> usize {
    match addr {
        IpAddress::V4(_) => IPV4_SLOT,
        IpAddress::V6(_) => IPV6_SLOT,
    }
}

/// The table of handlers.
pub struct ProtocolManager {
    handlers: Vec<Handler>,
}

impl ProtocolManager {
    #[verifier::type_invariant]
    spec fn well_formed(self) -> bool {
        self.handlers@ == seq![Handler::Ipv4(Ipv4Handler), Handler::Ipv6(Ipv6Handler)]
    }

    /// The handlers, by slot.
    pub closed spec fn view(&self) -> Seq<Handler> {
        self.handlers@
    }

    /// A manager with the IPv4 handler in slot `IPV4_SLOT` and the IPv6
    /// handler in slot `IPV6_SLOT`.
    pub fn new() -> (manager: Self)
        ensures
            manager@ == seq![Handler::Ipv4(Ipv4Handler), Handler::Ipv6(Ipv6Handler)],
    {
        let mut handlers: Vec<Handler> = Vec::new();
        handlers.push(Handler::Ipv4(Ipv4Handler));
        handlers.push(Handler::Ipv6(Ipv6Handler));
        assert(handlers@ =~= seq![Handler::Ipv4(Ipv4Handler), Handler::Ipv6(Ipv6Handler)]);
        ProtocolManager { handlers }
    }

    /// Hands a packet of `length` bytes to the handler of its IP version.
    /// Returns the slot of that handler, which takes every packet it is
    /// handed.
    pub fn route_packets(&self, addr: IpAddress, length: u32) -> (slot: usize)
        ensures
            slot == slot_of(addr),
            self@[slot as int].accepts(addr),
    {
        proof {
            use_type_invariant(self);
        }
        let slot: usize = match addr {
            IpAddress::V4(_) => IPV4_SLOT,
            IpAddress::V6(_) => IPV6_SLOT,
        };
        let _ = self.handlers[slot].handle(addr, length);
        slot
    }
}

} // verus!
