//! Fixed-width addresses carried by the protocol layers: 6-byte hardware
//! (MAC) addresses and 4-byte IPv4 protocol addresses.

use vstd::prelude::*;

verus! {

/// A 6-byte Ethernet hardware address.
#[derive(Clone, Copy, PartialEq, Eq, Structural, Debug)]
pub struct MacAddr {
    pub o0: u8,
    pub o1: u8,
    pub o2: u8,
    pub o3: u8,
    pub o4: u8,
    pub o5: u8,
}

impl View for MacAddr {
    type V = Seq<u8>;

    open spec fn view(&self) -> Seq<u8> {
        seq![self.o0, self.o1, self.o2, self.o3, self.o4, self.o5]
    }
}

impl MacAddr {
    pub fn new(o0: u8, o1: u8, o2: u8, o3: u8, o4: u8, o5: u8) -> (r: MacAddr)
        ensures
            r@ == seq![o0, o1, o2, o3, o4, o5],
    {
        MacAddr { o0, o1, o2, o3, o4, o5 }
    }
}

/// A 4-byte IPv4 protocol address.
#[derive(Clone, Copy, PartialEq, Eq, Structural, Debug)]
pub struct Ipv4Address {
    pub o0: u8,
    pub o1: u8,
    pub o2: u8,
    pub o3: u8,
}

impl View for Ipv4Address {
    type V = Seq<u8>;

    open spec fn view(&self) -> Seq<u8> {
        seq![self.o0, self.o1, self.o2, self.o3]
    }
}

impl Ipv4Address {
    pub fn new(o0: u8, o1: u8, o2: u8, o3: u8) -> (r: Ipv4Address)
        ensures
            r@ == seq![o0, o1, o2, o3],
    {
        Ipv4Address { o0, o1, o2, o3 }
    }
}

/// An IPv4 socket address: the relay accepts a forwarding destination as
/// configuration, though the current decision logic never acts on it.
#[derive(Clone, Copy, PartialEq, Eq, Structural, Debug)]
pub struct SocketV4 {
    pub addr: Ipv4Address,
    pub port: u16,
}

} // verus!
