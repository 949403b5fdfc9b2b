//! Addresses as plain values.

use vstd::prelude::*;

verus! {

/// An IP address: the number that its bytes spell in network order.
#[derive(Clone, Copy, Debug, PartialEq, Eq, Hash, Structural)]
pub enum IpAddr {
    V4(u32),
    V6(u128),
}

/// An IP address with a port. An IPv6 socket address also has a flow label and a scope.
#[derive(Clone, Copy, Debug, PartialEq, Eq, Hash, Structural)]
pub enum SocketAddr {
    V4 { ip4: u32, port: u16 },
    V6 { ip6: u128, port: u16, flowinfo: u32, scope_id: u32 },
}

/// An IP address on a named network.
#[derive(Debug, PartialEq, Eq, Hash)]
pub struct NetworkAddress {
    pub network: String,
    pub address: IpAddr,
}

/// Two to the power of 32: what separates the last four bytes of an IPv6 address.
pub const V4_SPAN: u128 = 0x1_0000_0000;

/// The first twelve bytes of an IPv6 address that stands for an IPv4 address.
pub const V4_MAPPED_PREFIX: u128 = 0xffff;

impl IpAddr {
    /// Whether this is an IPv6 address that stands for an IPv4 address.
    pub open spec fn is_v4_mapped(self) -> bool {
        self matches IpAddr::V6(n) && n / V4_SPAN == V4_MAPPED_PREFIX
    }

    /// The address with an IPv4-mapped IPv6 address written as the IPv4 address.
    pub open spec fn canonical(self) -> IpAddr {
        match self {
            IpAddr::V6(n) if n / V4_SPAN == V4_MAPPED_PREFIX => IpAddr::V4((n % V4_SPAN) as u32),
            _ => self,
        }
    }

    /// Writes an IPv4-mapped IPv6 address as the IPv4 address that it stands for.
    pub fn to_canonical(&self) -> (ip: IpAddr)
        ensures
            ip == self.canonical(),
            !ip.is_v4_mapped(),
    {
        match *self {
            IpAddr::V4(n) => IpAddr::V4(n),
            IpAddr::V6(n) => if n / V4_SPAN == V4_MAPPED_PREFIX {
                IpAddr::V4((n % V4_SPAN) as u32)
            } else {
                IpAddr::V6(n)
            },
        }
    }
}

impl SocketAddr {
    pub open spec fn spec_ip(&self) -> IpAddr {
        match *self {
            SocketAddr::V4 { ip4, .. } => IpAddr::V4(ip4),
            SocketAddr::V6 { ip6, .. } => IpAddr::V6(ip6),
        }
    }

    pub open spec fn spec_port(&self) -> u16 {
        match *self {
            SocketAddr::V4 { port, .. } => port,
            SocketAddr::V6 { port, .. } => port,
        }
    }

    pub open spec fn spec_new(ip: IpAddr, port: u16) -> SocketAddr {
        match ip {
            IpAddr::V4(n) => SocketAddr::V4 { ip4: n, port },
            IpAddr::V6(n) => SocketAddr::V6 { ip6: n, port, flowinfo: 0, scope_id: 0 },
        }
    }

    /// A socket address without flow label or scope.
    #[verifier::when_used_as_spec(spec_new)]
    pub fn new(ip: IpAddr, port: u16) -> (addr: SocketAddr)
        ensures
            addr == SocketAddr::new(ip, port),
    {
        match ip {
            IpAddr::V4(n) => SocketAddr::V4 { ip4: n, port },
            IpAddr::V6(n) => SocketAddr::V6 { ip6: n, port, flowinfo: 0, scope_id: 0 },
        }
    }

    /// The IP address.
    #[verifier::when_used_as_spec(spec_ip)]
    pub fn ip(&self) -> (ip: IpAddr)
        ensures
            ip == self.ip(),
    {
        match *self {
            SocketAddr::V4 { ip4, .. } => IpAddr::V4(ip4),
            SocketAddr::V6 { ip6, .. } => IpAddr::V6(ip6),
        }
    }

    /// The port.
    #[verifier::when_used_as_spec(spec_port)]
    pub fn port(&self) -> (port: u16)
        ensures
            port == self.port(),
    {
        match *self {
            SocketAddr::V4 { port, .. } => port,
            SocketAddr::V6 { port, .. } => port,
        }
    }

    /// The address with its IP address in canonical form, and without flow label or scope.
    pub open spec fn canonical(self) -> SocketAddr {
        SocketAddr::new(self.ip().canonical(), self.port())
    }
}

/// Writes the IP address of a socket address in canonical form.
pub fn to_canonical(addr: SocketAddr) -> (canonical: SocketAddr)
    ensures
        canonical == addr.canonical(),
{
    SocketAddr::new(addr.ip().to_canonical(), addr.port())
}

impl NetworkAddress {
    /// Whether both name the same address of the same network.
    pub open spec fn same(self, other: NetworkAddress) -> bool {
        self.network@ == other.network@ && self.address == other.address
    }

    /// Compares two network addresses.
    pub fn is_same(&self, other: &NetworkAddress) -> (same: bool)
        ensures
            same == self.same(*other),
    {
        self.address == other.address && self.network == other.network
    }
}

impl Clone for NetworkAddress {
    fn clone(&self) -> (copy: Self)
        ensures
            copy == *self,
    {
        NetworkAddress { network: self.network.clone(), address: self.address }
    }
}

/// The canonical form of an address is its own canonical form, keeps the port, and is no
/// IPv4-mapped address.
pub proof fn lemma_canonical_is_canonical(addr: SocketAddr)
    ensures
        addr.canonical().canonical() == addr.canonical(),
        addr.canonical().port() == addr.port(),
        !addr.canonical().ip().is_v4_mapped(),
{
}

/// An IPv6 address that stands for an IPv4 address is written as that IPv4 address, for each IPv4
/// address there is.
pub proof fn lemma_mapped_address_is_written_short(n: u32)
    ensures
        IpAddr::V6((0xffff_0000_0000int + n) as u128).is_v4_mapped(),
        IpAddr::V6((0xffff_0000_0000int + n) as u128).canonical() == IpAddr::V4(n),
{
}

/// Every other address is written as it is.
pub proof fn lemma_unmapped_address_is_kept(ip: IpAddr)
    requires
        ip matches IpAddr::V6(n) ==> n < 0xffff_0000_0000 || 0xffff_ffff_ffff < n,
    ensures
        !ip.is_v4_mapped(),
        ip.canonical() == ip,
{
}

/// A socket address gives back the IP address and the port that it is made of, whatever its flow
/// label and scope are. One made of nothing else has neither.
pub proof fn lemma_socket_address_keeps_its_parts(
    ip4: u32,
    ip6: u128,
    port: u16,
    flowinfo: u32,
    scope_id: u32,
)
    ensures
        (SocketAddr::V4 { ip4, port }).ip() == IpAddr::V4(ip4),
        (SocketAddr::V4 { ip4, port }).port() == port,
        (SocketAddr::V6 { ip6, port, flowinfo, scope_id }).ip() == IpAddr::V6(ip6),
        (SocketAddr::V6 { ip6, port, flowinfo, scope_id }).port() == port,
        SocketAddr::new(IpAddr::V4(ip4), port) == (SocketAddr::V4 { ip4, port }),
        SocketAddr::new(IpAddr::V6(ip6), port) == (SocketAddr::V6 {
            ip6,
            port,
            flowinfo: 0,
            scope_id: 0,
        }),
{
}

/// The canonical form of a socket address is made of the canonical form of its IP address and of
/// its port alone.
pub proof fn lemma_canonical_socket_address(addr: SocketAddr, port: u16, n: u32)
    ensures
        addr.canonical() == SocketAddr::new(addr.ip().canonical(), addr.port()),
        addr.ip() == IpAddr::V6((0xffff_0000_0000int + n) as u128) ==> addr.canonical() == (
        SocketAddr::V4 { ip4: n, port: addr.port() }),
        SocketAddr::new(IpAddr::V4(n), port).canonical() == (SocketAddr::V4 { ip4: n, port }),
{
}

/// Two addresses are the same only where both the network and the IP address agree.
pub proof fn lemma_same_address(a: NetworkAddress, b: NetworkAddress)
    ensures
        a.same(b) <==> (a.address == b.address && a.network@ == b.network@),
        a.same(b) == b.same(a),
        a.same(a),
{
}

} // verus!
