//! Network addresses, held as the numbers they are made of, and the
//! constructor calls that rebuild them.
use vstd::prelude::*;
use crate::protocol::CompileConst;
use crate::text::{append_nat, join, join_strings, nat_text, views};

verus! {

/// An IPv4 address: four octets, most significant first.
#[derive(Clone, Copy, Debug, PartialEq, Eq)]
pub struct Ipv4Addr {
    pub octets: [u8; 4],
}

/// An IPv6 address: eight 16-bit segments, most significant first.
#[derive(Clone, Copy, Debug, PartialEq, Eq)]
pub struct Ipv6Addr {
    pub segments: [u16; 8],
}

/// An address of either family.
#[derive(Clone, Copy, Debug, PartialEq, Eq)]
pub enum IpAddr {
    V4(Ipv4Addr),
    V6(Ipv6Addr),
}

/// An IPv4 address and a port.
#[derive(Clone, Copy, Debug, PartialEq, Eq)]
pub struct SocketAddrV4 {
    pub ip: Ipv4Addr,
    pub port: u16,
}

/// An IPv6 address, a port, the flow information and the scope id.
#[derive(Clone, Copy, Debug, PartialEq, Eq)]
pub struct SocketAddrV6 {
    pub ip: Ipv6Addr,
    pub port: u16,
    pub flowinfo: u32,
    pub scope_id: u32,
}

/// A socket address of either family.
#[derive(Clone, Copy, Debug, PartialEq, Eq)]
pub enum SocketAddr {
    V4(SocketAddrV4),
    V6(SocketAddrV6),
}

impl Ipv4Addr {
    /// The address `a.b.c.d`.
    pub fn new(a: u8, b: u8, c: u8, d: u8) -> (r: Ipv4Addr)
        ensures
            r.octets@ == seq![a, b, c, d],
    {
        Ipv4Addr { octets: [a, b, c, d] }
    }
}

impl Ipv6Addr {
    /// The address with the given eight segments.
    pub fn new(a: u16, b: u16, c: u16, d: u16, e: u16, f: u16, g: u16, h: u16) -> (r: Ipv6Addr)
        ensures
            r.segments@ == seq![a, b, c, d, e, f, g, h],
    {
        Ipv6Addr { segments: [a, b, c, d, e, f, g, h] }
    }
}

impl SocketAddr {
    /// The socket address of the family of `ip`; the flow information and
    /// scope id of an IPv6 one are zero.
    pub fn new(ip: IpAddr, port: u16) -> (r: SocketAddr)
        ensures
            r.ip_spec() == ip,
            r.port_spec() == port,
            r matches SocketAddr::V6(v6) ==> v6.flowinfo == 0 && v6.scope_id == 0,
    {
        match ip {
            IpAddr::V4(a) => SocketAddr::V4(SocketAddrV4 { ip: a, port }),
            IpAddr::V6(a) => SocketAddr::V6(SocketAddrV6 { ip: a, port, flowinfo: 0, scope_id: 0 }),
        }
    }

    /// The address of this socket address.
    pub open spec fn ip_spec(&self) -> IpAddr {
        match self {
            SocketAddr::V4(a) => IpAddr::V4(a.ip),
            SocketAddr::V6(a) => IpAddr::V6(a.ip),
        }
    }

    /// The port of this socket address.
    pub open spec fn port_spec(&self) -> u16 {
        match self {
            SocketAddr::V4(a) => a.port,
            SocketAddr::V6(a) => a.port,
        }
    }

    /// The address of this socket address.
    pub fn ip(&self) -> (r: IpAddr)
        ensures
            r == self.ip_spec(),
    {
        match self {
            SocketAddr::V4(a) => IpAddr::V4(a.ip),
            SocketAddr::V6(a) => IpAddr::V6(a.ip),
        }
    }

    /// The port of this socket address.
    pub fn port(&self) -> (r: u16)
        ensures
            r == self.port_spec(),
    {
        match self {
            SocketAddr::V4(a) => a.port,
            SocketAddr::V6(a) => a.port,
        }
    }
}

/// The numerals of the numbers, comma-separated.
pub open spec fn numerals_text(s: Seq<nat>) -> Seq<char> {
    join(s.map_values(|n: nat| nat_text(n)), ","@)
}

/// The numeral of `n`.
fn numeral(n: u128) -> (r: String)
    ensures
        r@ == nat_text(n as nat),
{
    let mut r = String::new();
    append_nat(&mut r, n);
    assert(r@ =~= nat_text(n as nat));
    r
}

/// The literal of an IPv4 address with the given octets.
pub open spec fn ipv4_text(octets: Seq<u8>) -> Seq<char> {
    "core::net::Ipv4Addr::new("@ + numerals_text(octets.map_values(|b: u8| b as nat)) + ")"@
}

/// The literal of an IPv6 address with the given segments.
pub open spec fn ipv6_text(segments: Seq<u16>) -> Seq<char> {
    "core::net::Ipv6Addr::new("@ + numerals_text(segments.map_values(|s: u16| s as nat)) + ")"@
}

/// The literal of an address of either family.
pub open spec fn ip_text(ip: IpAddr) -> Seq<char> {
    match ip {
        IpAddr::V4(a) => "core::net::IpAddr::V4("@ + ipv4_text(a.octets@) + ")"@,
        IpAddr::V6(a) => "core::net::IpAddr::V6("@ + ipv6_text(a.segments@) + ")"@,
    }
}

/// The literal of an IPv4 socket address.
pub open spec fn socket_v4_text(a: SocketAddrV4) -> Seq<char> {
    "core::net::SocketAddrV4::new("@ + ipv4_text(a.ip.octets@) + ", "@ + nat_text(a.port as nat)
        + ")"@
}

/// The literal of an IPv6 socket address.
pub open spec fn socket_v6_text(a: SocketAddrV6) -> Seq<char> {
    "core::net::SocketAddrV6::new("@ + ipv6_text(a.ip.segments@) + ", "@ + nat_text(a.port as nat)
        + ", "@ + nat_text(a.flowinfo as nat) + ", "@ + nat_text(a.scope_id as nat) + ")"@
}

/// The literal of a socket address of either family. An IPv4 one is built
/// from its address and port; an IPv6 one wraps the literal of its
/// family-specific form, so that its flow information and scope id are kept.
pub open spec fn socket_text(a: SocketAddr) -> Seq<char> {
    match a {
        SocketAddr::V4(v4) => "core::net::SocketAddr::new("@ + ip_text(IpAddr::V4(v4.ip)) + ", "@
            + nat_text(v4.port as nat) + ")"@,
        SocketAddr::V6(v6) => "core::net::SocketAddr::V6("@ + socket_v6_text(v6) + ")"@,
    }
}

impl CompileConst for Ipv4Addr {
    open spec fn type_text() -> Seq<char> {
        "core::net::Ipv4Addr"@
    }

    open spec fn val_text(&self) -> Seq<char> {
        ipv4_text(self.octets@)
    }

    open spec fn definition_text(attrs: Seq<char>, vis: Seq<char>) -> Seq<char> {
        Seq::empty()
    }

    fn const_type() -> (r: String) {
        String::from_str("core::net::Ipv4Addr")
    }

    fn const_val(&self) -> (r: String) {
        let mut parts: Vec<String> = Vec::new();
        let mut i: usize = 0;
        let ghost nums = self.octets@.map_values(|b: u8| b as nat).map_values(|n: nat| nat_text(n));
        while i < 4
            invariant
                i <= 4,
                self.octets@.len() == 4,
                nums == self.octets@.map_values(|b: u8| b as nat).map_values(|n: nat| nat_text(n)),
                views(parts@) =~= nums.subrange(0, i as int),
            decreases 4 - i,
        {
            let n = numeral(self.octets[i] as u128);
            let ghost prev = parts@;
            parts.push(n);
            assert(views(parts@) =~= views(prev).push(n@));
            assert(nums.subrange(0, i + 1) =~= nums.subrange(0, i as int).push(nums[i as int]));
            i = i + 1;
        }
        assert(nums.subrange(0, 4) =~= nums);
        let mut r = String::from_str("core::net::Ipv4Addr::new(");
        let inner = join_strings(&parts, ",");
        r.append(inner.as_str());
        r.append(")");
        assert(r@ =~= ipv4_text(self.octets@));
        r
    }

    fn const_definition(_attrs: &str, _vis: &str) -> (r: String) {
        String::new()
    }
}

impl CompileConst for Ipv6Addr {
    open spec fn type_text() -> Seq<char> {
        "core::net::Ipv6Addr"@
    }

    open spec fn val_text(&self) -> Seq<char> {
        ipv6_text(self.segments@)
    }

    open spec fn definition_text(attrs: Seq<char>, vis: Seq<char>) -> Seq<char> {
        Seq::empty()
    }

    fn const_type() -> (r: String) {
        String::from_str("core::net::Ipv6Addr")
    }

    fn const_val(&self) -> (r: String) {
        let mut parts: Vec<String> = Vec::new();
        let mut i: usize = 0;
        let ghost nums = self.segments@.map_values(|s: u16| s as nat).map_values(
            |n: nat| nat_text(n),
        );
        while i < 8
            invariant
                i <= 8,
                self.segments@.len() == 8,
                nums == self.segments@.map_values(|s: u16| s as nat).map_values(
                    |n: nat| nat_text(n),
                ),
                views(parts@) =~= nums.subrange(0, i as int),
            decreases 8 - i,
        {
            let n = numeral(self.segments[i] as u128);
            let ghost prev = parts@;
            parts.push(n);
            assert(views(parts@) =~= views(prev).push(n@));
            assert(nums.subrange(0, i + 1) =~= nums.subrange(0, i as int).push(nums[i as int]));
            i = i + 1;
        }
        assert(nums.subrange(0, 8) =~= nums);
        let mut r = String::from_str("core::net::Ipv6Addr::new(");
        let inner = join_strings(&parts, ",");
        r.append(inner.as_str());
        r.append(")");
        assert(r@ =~= ipv6_text(self.segments@));
        r
    }

    fn const_definition(_attrs: &str, _vis: &str) -> (r: String) {
        String::new()
    }
}

impl CompileConst for IpAddr {
    open spec fn type_text() -> Seq<char> {
        "core::net::IpAddr"@
    }

    open spec fn val_text(&self) -> Seq<char> {
        ip_text(*self)
    }

    open spec fn definition_text(attrs: Seq<char>, vis: Seq<char>) -> Seq<char> {
        Seq::empty()
    }

    fn const_type() -> (r: String) {
        String::from_str("core::net::IpAddr")
    }

    fn const_val(&self) -> (r: String) {
        match self {
            IpAddr::V4(a) => {
                let mut r = String::from_str("core::net::IpAddr::V4(");
                let inner = a.const_val();
                r.append(inner.as_str());
                r.append(")");
                assert(r@ =~= ip_text(*self));
                r
            },
            IpAddr::V6(a) => {
                let mut r = String::from_str("core::net::IpAddr::V6(");
                let inner = a.const_val();
                r.append(inner.as_str());
                r.append(")");
                assert(r@ =~= ip_text(*self));
                r
            },
        }
    }

    fn const_definition(_attrs: &str, _vis: &str) -> (r: String) {
        String::new()
    }
}

impl CompileConst for SocketAddrV4 {
    open spec fn type_text() -> Seq<char> {
        "core::net::SocketAddrV4"@
    }

    open spec fn val_text(&self) -> Seq<char> {
        socket_v4_text(*self)
    }

    open spec fn definition_text(attrs: Seq<char>, vis: Seq<char>) -> Seq<char> {
        Seq::empty()
    }

    fn const_type() -> (r: String) {
        String::from_str("core::net::SocketAddrV4")
    }

    fn const_val(&self) -> (r: String) {
        let mut r = String::from_str("core::net::SocketAddrV4::new(");
        let ip = self.ip.const_val();
        r.append(ip.as_str());
        r.append(", ");
        append_nat(&mut r, self.port as u128);
        r.append(")");
        assert(r@ =~= socket_v4_text(*self));
        r
    }

    fn const_definition(_attrs: &str, _vis: &str) -> (r: String) {
        String::new()
    }
}

impl CompileConst for SocketAddrV6 {
    open spec fn type_text() -> Seq<char> {
        "core::net::SocketAddrV6"@
    }

    open spec fn val_text(&self) -> Seq<char> {
        socket_v6_text(*self)
    }

    open spec fn definition_text(attrs: Seq<char>, vis: Seq<char>) -> Seq<char> {
        Seq::empty()
    }

    fn const_type() -> (r: String) {
        String::from_str("core::net::SocketAddrV6")
    }

    fn const_val(&self) -> (r: String) {
        let mut r = String::from_str("core::net::SocketAddrV6::new(");
        let ip = self.ip.const_val();
        r.append(ip.as_str());
        r.append(", ");
        append_nat(&mut r, self.port as u128);
        r.append(", ");
        append_nat(&mut r, self.flowinfo as u128);
        r.append(", ");
        append_nat(&mut r, self.scope_id as u128);
        r.append(")");
        assert(r@ =~= socket_v6_text(*self));
        r
    }

    fn const_definition(_attrs: &str, _vis: &str) -> (r: String) {
        String::new()
    }
}

impl CompileConst for SocketAddr {
    open spec fn type_text() -> Seq<char> {
        "core::net::SocketAddr"@
    }

    open spec fn val_text(&self) -> Seq<char> {
        socket_text(*self)
    }

    open spec fn definition_text(attrs: Seq<char>, vis: Seq<char>) -> Seq<char> {
        Seq::empty()
    }

    fn const_type() -> (r: String) {
        String::from_str("core::net::SocketAddr")
    }

    fn const_val(&self) -> (r: String) {
        match self {
            SocketAddr::V4(a) => {
                let mut r = String::from_str("core::net::SocketAddr::new(");
                let ip = IpAddr::V4(a.ip);
                let ip_val = ip.const_val();
                r.append(ip_val.as_str());
                r.append(", ");
                append_nat(&mut r, a.port as u128);
                r.append(")");
                assert(r@ =~= socket_text(*self));
                r
            },
            SocketAddr::V6(a) => {
                let mut r = String::from_str("core::net::SocketAddr::V6(");
                let inner = a.const_val();
                r.append(inner.as_str());
                r.append(")");
                assert(r@ =~= socket_text(*self));
                r
            },
        }
    }

    fn const_definition(_attrs: &str, _vis: &str) -> (r: String) {
        String::new()
    }
}

} // verus!
