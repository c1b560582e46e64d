use vstd::prelude::*;

verus! {

/// An IP address: four octets for version 4, eight 16-bit segments for
/// version 6.
#[derive(Clone, Copy, Debug, PartialEq, Eq)]
pub enum IpAddr {
    V4([u8; 4]),
    V6([u16; 8]),
}

/// A socket address. A version 6 address also carries its flow label and
/// scope id, as the operating system reports them.
#[derive(Clone, Copy, Debug, PartialEq, Eq)]
pub enum SocketAddr {
    V4 { octets: [u8; 4], port: u16 },
    V6 { segments: [u16; 8], port: u16, flowinfo: u32, scope_id: u32 },
}

impl SocketAddr {
    /// The address of `ip` and `port`; a version 6 address gets flow label
    /// and scope id 0.
    pub open spec fn spec_new(ip: IpAddr, port: u16) -> SocketAddr {
        match ip {
            IpAddr::V4(o) => SocketAddr::V4 { octets: o, port },
            IpAddr::V6(s) => SocketAddr::V6 { segments: s, port, flowinfo: 0, scope_id: 0 },
        }
    }

    /// The IP part of the address.
    pub open spec fn spec_ip(&self) -> IpAddr {
        match *self {
            SocketAddr::V4 { octets, .. } => IpAddr::V4(octets),
            SocketAddr::V6 { segments, .. } => IpAddr::V6(segments),
        }
    }

    /// The port of the address.
    pub open spec fn spec_port(&self) -> u16 {
        match *self {
            SocketAddr::V4 { port, .. } => port,
            SocketAddr::V6 { port, .. } => port,
        }
    }

    /// The address of `ip` and `port`.
    #[verifier::when_used_as_spec(spec_new)]
    pub fn new(ip: IpAddr, port: u16) -> (a: SocketAddr)
        ensures
            a == SocketAddr::spec_new(ip, port),
    {
        match ip {
            IpAddr::V4(o) => SocketAddr::V4 { octets: o, port },
            IpAddr::V6(s) => SocketAddr::V6 { segments: s, port, flowinfo: 0, scope_id: 0 },
        }
    }

    /// The IP part of the address.
    #[verifier::when_used_as_spec(spec_ip)]
    pub fn ip(&self) -> (ip: IpAddr)
        ensures
            ip == self.spec_ip(),
    {
        match self {
            SocketAddr::V4 { octets, .. } => IpAddr::V4(*octets),
            SocketAddr::V6 { segments, .. } => IpAddr::V6(*segments),
        }
    }

    /// The port of the address.
    #[verifier::when_used_as_spec(spec_port)]
    pub fn port(&self) -> (port: u16)
        ensures
            port == self.spec_port(),
    {
        match self {
            SocketAddr::V4 { port, .. } => *port,
            SocketAddr::V6 { port, .. } => *port,
        }
    }
}

/// The address a client dials for new workers before the server has named
/// one: `0.0.0.0:65535`.
pub open spec fn spec_placeholder_worker() -> SocketAddr {
    SocketAddr::V4 { octets: [0u8, 0u8, 0u8, 0u8], port: 65535 }
}

/// The address a client dials for new workers before the server has named
/// one: `0.0.0.0:65535`.
pub fn placeholder_worker() -> (a: SocketAddr)
    ensures
        a == spec_placeholder_worker(),
        a == (SocketAddr::V4 { octets: [0u8, 0u8, 0u8, 0u8], port: 65535 }),
{
    SocketAddr::V4 { octets: [0u8, 0u8, 0u8, 0u8], port: 65535 }
}

/// Before the server names a worker address, a client dials port 65535 on
/// the unspecified IPv4 address 0.0.0.0.
pub proof fn lemma_placeholder_worker()
    ensures
        spec_placeholder_worker() == (SocketAddr::V4 { octets: [0u8, 0u8, 0u8, 0u8], port: 65535 }),
        spec_placeholder_worker().spec_port() == 65535,
        spec_placeholder_worker().spec_ip() == IpAddr::V4([0u8, 0u8, 0u8, 0u8]),
{
}

/// An address built from an IP and a port has that IP and that port; a
/// version 4 address is exactly its octets and port, and a version 6 one
/// gets flow label and scope id 0.
pub proof fn lemma_new_keeps_ip_and_port(ip: IpAddr, port: u16, octets: [u8; 4], segments: [u16; 8])
    ensures
        SocketAddr::spec_new(ip, port).spec_ip() == ip,
        SocketAddr::spec_new(ip, port).spec_port() == port,
        SocketAddr::spec_new(IpAddr::V4(octets), port) == (SocketAddr::V4 { octets, port }),
        SocketAddr::spec_new(IpAddr::V6(segments), port) == (SocketAddr::V6 {
            segments,
            port,
            flowinfo: 0,
            scope_id: 0,
        }),
{
}

/// The IP of an address is its own octets (or segments) and its port is its
/// own port, whatever they are.
pub proof fn lemma_parts_of_address(octets: [u8; 4], segments: [u16; 8], port: u16, flowinfo: u32, scope_id: u32)
    ensures
        (SocketAddr::V4 { octets, port }).spec_ip() == IpAddr::V4(octets),
        (SocketAddr::V4 { octets, port }).spec_port() == port,
        (SocketAddr::V6 { segments, port, flowinfo, scope_id }).spec_ip() == IpAddr::V6(segments),
        (SocketAddr::V6 { segments, port, flowinfo, scope_id }).spec_port() == port,
{
}

/// Rebuilding an address from its IP and port changes nothing, except that a
/// version 6 address loses its flow label and scope id.
pub proof fn lemma_rebuild_address(a: SocketAddr)
    ensures
        a is V4 ==> SocketAddr::spec_new(a.spec_ip(), a.spec_port()) == a,
        a is V6 ==> SocketAddr::spec_new(a.spec_ip(), a.spec_port()) == (SocketAddr::V6 {
            segments: a->segments,
            port: a->V6_port,
            flowinfo: 0,
            scope_id: 0,
        }),
{
}

} // verus!
