//! Address families, socket kinds and the fixed-layout address record that
//! the host takes in `connect` and `bind`.

use vstd::prelude::*;
use crate::error::Error;

verus! {

/// An IP endpoint, of either family.
#[allow(inconsistent_fields)]
#[derive(Copy, Clone, Debug, PartialEq, Eq)]
pub enum SocketAddr {
    V4 { ip: [u8; 4], port: u16 },
    V6 { ip: [u8; 16], port: u16 },
}

impl SocketAddr {
    pub open spec fn spec_port(&self) -> u16 {
        match *self {
            SocketAddr::V4 { port, .. } => port,
            SocketAddr::V6 { port, .. } => port,
        }
    }

    #[verifier::when_used_as_spec(spec_port)]
    pub fn port(&self) -> (p: u16)
        ensures
            p == self.spec_port(),
    {
        match *self {
            SocketAddr::V4 { port, .. } => port,
            SocketAddr::V6 { port, .. } => port,
        }
    }
}

#[derive(Copy, Clone, Debug, PartialEq, Eq, Structural)]
pub enum AddressFamily {
    Inet4,
    Inet6,
}

impl AddressFamily {
    /// The family's tag on the wire.
    pub open spec fn spec_tag(self) -> u8 {
        match self {
            AddressFamily::Inet4 => 0,
            AddressFamily::Inet6 => 1,
        }
    }

    #[verifier::when_used_as_spec(spec_tag)]
    pub fn tag(self) -> (t: u8)
        ensures
            t == self.spec_tag(),
    {
        match self {
            AddressFamily::Inet4 => 0,
            AddressFamily::Inet6 => 1,
        }
    }

    /// The family of an address.
    pub open spec fn of(addr: SocketAddr) -> AddressFamily {
        match addr {
            SocketAddr::V4 { .. } => AddressFamily::Inet4,
            SocketAddr::V6 { .. } => AddressFamily::Inet6,
        }
    }
}

impl From<&SocketAddr> for AddressFamily {
    fn from(addr: &SocketAddr) -> (family: Self) {
        match addr {
            SocketAddr::V4 { .. } => AddressFamily::Inet4,
            SocketAddr::V6 { .. } => AddressFamily::Inet6,
        }
    }
}

impl vstd::std_specs::convert::FromSpecImpl<&SocketAddr> for AddressFamily {
    open spec fn obeys_from_spec() -> bool {
        true
    }

    open spec fn from_spec(addr: &SocketAddr) -> Self {
        AddressFamily::of(*addr)
    }
}

#[derive(Copy, Clone, Debug, PartialEq, Eq, Structural)]
pub enum SocketType {
    Dgram,
    Stream,
}

impl SocketType {
    /// The kind's tag on the wire.
    pub open spec fn spec_tag(self) -> u8 {
        match self {
            SocketType::Dgram => 0,
            SocketType::Stream => 1,
        }
    }

    #[verifier::when_used_as_spec(spec_tag)]
    pub fn tag(self) -> (t: u8)
        ensures
            t == self.spec_tag(),
    {
        match self {
            SocketType::Dgram => 0,
            SocketType::Stream => 1,
        }
    }
}

#[derive(Copy, Clone, Debug, PartialEq, Eq, Structural)]
pub struct WasiAddressIPV4 {
    pub n0: u8,
    pub n1: u8,
    pub n2: u8,
    pub n3: u8,
}

#[derive(Copy, Clone, Debug, PartialEq, Eq, Structural)]
pub struct WasiAddressIPV4Port {
    pub addr: WasiAddressIPV4,
    pub port: u16,
}

/// The address record of the host ABI: the family, then the octets and the
/// port of an IPv4 endpoint.
#[derive(Copy, Clone, Debug, PartialEq, Eq, Structural)]
pub struct WasiAddress {
    pub kind: AddressFamily,
    pub addr: WasiAddressIPV4Port,
}

/// The wire form of an address: an IPv4 endpoint keeps its four octets, in
/// order, and its port; an IPv6 endpoint has none.
pub open spec fn encode(addr: SocketAddr) -> Result<WasiAddress, Error> {
    match addr {
        SocketAddr::V4 { ip, port } => Ok(
            WasiAddress {
                kind: AddressFamily::Inet4,
                addr: WasiAddressIPV4Port {
                    addr: WasiAddressIPV4 { n0: ip[0], n1: ip[1], n2: ip[2], n3: ip[3] },
                    port: port,
                },
            },
        ),
        SocketAddr::V6 { .. } => Err(Error::UnsupportedAddressFamily),
    }
}

/// The endpoint that a wire record stands for. A record tagged IPv6 stands
/// for none: its payload has room for an IPv4 endpoint only.
pub open spec fn decode(wire: WasiAddress) -> Result<SocketAddr, Error> {
    match wire.kind {
        AddressFamily::Inet4 => Ok(
            SocketAddr::V4 {
                ip: [wire.addr.addr.n0, wire.addr.addr.n1, wire.addr.addr.n2, wire.addr.addr.n3],
                port: wire.addr.port,
            },
        ),
        AddressFamily::Inet6 => Err(Error::UnsupportedAddressFamily),
    }
}

impl WasiAddress {
    /// Encodes `addr` for the host. Fails, without producing any record, on
    /// an IPv6 address.
    pub fn from_socket_addr(addr: &SocketAddr) -> (r: Result<WasiAddress, Error>)
        ensures
            r == encode(*addr),
    {
        let port: u16 = addr.port();
        match addr {
            SocketAddr::V4 { ip, .. } => Ok(
                WasiAddress {
                    kind: AddressFamily::Inet4,
                    addr: WasiAddressIPV4Port {
                        addr: WasiAddressIPV4 { n0: ip[0], n1: ip[1], n2: ip[2], n3: ip[3] },
                        port: port,
                    },
                },
            ),
            SocketAddr::V6 { .. } => Err(Error::UnsupportedAddressFamily),
        }
    }

    /// Decodes a record that the host filled in.
    pub fn to_socket_addr(&self) -> (r: Result<SocketAddr, Error>)
        ensures
            r == decode(*self),
    {
        match self.kind {
            AddressFamily::Inet4 => Ok(
                SocketAddr::V4 {
                    ip: [self.addr.addr.n0, self.addr.addr.n1, self.addr.addr.n2, self.addr.addr.n3],
                    port: self.addr.port,
                },
            ),
            AddressFamily::Inet6 => Err(Error::UnsupportedAddressFamily),
        }
    }
}

/// Decoding gives back every IPv4 address that was encoded.
pub proof fn lemma_decode_encode(addr: SocketAddr)
    requires
        addr is V4,
    ensures
        encode(addr) is Ok,
        decode(encode(addr).unwrap()) == Ok::<SocketAddr, Error>(addr),
{
    let back = decode(encode(addr).unwrap()).unwrap();
    assert(back->V4_ip =~= addr->V4_ip);
}

/// Encoding gives back every IPv4 record that was decoded.
pub proof fn lemma_encode_decode(wire: WasiAddress)
    requires
        wire.kind is Inet4,
    ensures
        decode(wire) is Ok,
        encode(decode(wire).unwrap()) == Ok::<WasiAddress, Error>(wire),
{
}

/// An address has a wire form exactly if it is an IPv4 address, and the
/// only failure is the unsupported family.
pub proof fn lemma_encode_rejects_ipv6(addr: SocketAddr)
    ensures
        addr is V6 <==> encode(addr) == Err::<WasiAddress, Error>(Error::UnsupportedAddressFamily),
        addr is V4 <==> encode(addr) is Ok,
        encode(addr) is Ok ==> encode(addr).unwrap().kind == AddressFamily::of(addr),
{
}

} // verus!
