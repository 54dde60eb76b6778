//! Addresses, networks and the span that an iteration covers.

use vstd::arithmetic::power2::{lemma2_to64, lemma_pow2_pos, pow2};
use vstd::prelude::*;

verus! {

/// An IP address as the number its bytes spell in network order.
#[derive(Debug, Clone, Copy, PartialEq, Eq, Structural)]
pub enum IpAddress {
    V4(u32),
    V6(u128),
}

impl IpAddress {
    /// The number of bits of an address of this family.
    pub open spec fn width(self) -> nat {
        match self {
            IpAddress::V4(_) => 32,
            IpAddress::V6(_) => 128,
        }
    }

    /// The address as a number.
    pub open spec fn number(self) -> nat {
        match self {
            IpAddress::V4(bits) => bits as nat,
            IpAddress::V6(bits) => bits as nat,
        }
    }

    /// True for an IPv6 address.
    pub fn is_v6(&self) -> (yes: bool)
        ensures
            yes == (*self is V6),
    {
        match self {
            IpAddress::V4(_) => false,
            IpAddress::V6(_) => true,
        }
    }

    /// The number of bits of an address of this family.
    pub fn bit_count(&self) -> (bits: u8)
        ensures
            bits as nat == self.width(),
    {
        match self {
            IpAddress::V4(_) => 32,
            IpAddress::V6(_) => 128,
        }
    }
}

/// An address and a prefix length: the addresses of one family that agree
/// with it in their first `prefix_len` bits.
#[derive(Debug, Clone, Copy, PartialEq, Eq, Structural)]
pub struct Network {
    pub address: IpAddress,
    pub prefix_len: u8,
}

impl Network {
    /// A network is well formed when its prefix is no longer than its address.
    pub open spec fn wf(self) -> bool {
        self.prefix_len as nat <= self.address.width()
    }

    /// True when `address` lies in this network: it is of the same family and
    /// its first `prefix_len` bits are those of the network's address.
    pub open spec fn covers(self, address: IpAddress) -> bool {
        let rest = (self.address.width() - self.prefix_len) as nat;
        &&& self.wf()
        &&& (address is V4 <==> self.address is V4)
        &&& address.number() / pow2(rest) == self.address.number() / pow2(rest)
    }

    /// Makes the network of `address` with the given prefix length, or nothing
    /// where the prefix is longer than the address.
    pub fn new(address: IpAddress, prefix_len: u8) -> (made: Option<Network>)
        ensures
            made == if prefix_len as nat <= address.width() {
                Some(Network { address, prefix_len })
            } else {
                None
            },
            made matches Some(network) ==> network.wf(),
    {
        if prefix_len <= address.bit_count() {
            Some(Network { address, prefix_len })
        } else {
            None
        }
    }

    /// The whole address space that a database of the given IP version is
    /// walked over: all of IPv4 for version 4, all of IPv6 otherwise.
    pub fn full_span(ip_version: u16) -> (span: Network)
        ensures
            span == full_span_of(ip_version),
            span.wf(),
    {
        if ip_version == 4 {
            Network { address: IpAddress::V4(0), prefix_len: 0 }
        } else {
            Network { address: IpAddress::V6(0), prefix_len: 0 }
        }
    }
}

/// The span of a database of the given IP version.
pub open spec fn full_span_of(ip_version: u16) -> Network {
    if ip_version == 4 {
        Network { address: IpAddress::V4(0), prefix_len: 0 }
    } else {
        Network { address: IpAddress::V6(0), prefix_len: 0 }
    }
}

/// The span of a database covers every address of its family and none of the
/// other: all of IPv4 for version 4, all of IPv6 for any other version.
pub proof fn full_span_covers_its_family(ip_version: u16, address: IpAddress)
    ensures
        full_span_of(ip_version).covers(address) <==> (address is V4 <==> ip_version == 4),
{
    let span = full_span_of(ip_version);
    let rest = (span.address.width() - span.prefix_len) as nat;
    lemma_pow2_pos(rest);
    if address is V4 && ip_version == 4 {
        lemma2_to64();
    }
    if address is V6 && ip_version != 4 {
        lemma_pow2_128();
        assert(address.number() / pow2(128) == 0);
        assert(0nat / pow2(128) == 0);
    }
}

/// Two to the power of 128 is one more than the largest 128-bit number.
proof fn lemma_pow2_128()
    ensures
        pow2(128) == 0x1_0000_0000_0000_0000_0000_0000_0000_0000,
{
    lemma2_to64();
    vstd::arithmetic::power2::lemma_pow2_adds(64, 64);
}

} // verus!
