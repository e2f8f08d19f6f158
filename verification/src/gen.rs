//! Building the output source text: a fully-qualified constructor call
//! for the decoded address or socket, rendered from plain octets,
//! segments, port, flow info and scope id.

use vstd::prelude::*;

use crate::render::{dec_digits, format_decimal};
use vstd::string::StringExecFns;

verus! {

/// An IP address as the generator consumes it: four octets, or eight
/// segments.
#[derive(Clone, Copy, Debug, PartialEq, Eq)]
pub enum IpRepr {
    V4([u8; 4]),
    V6([u16; 8]),
}

/// A socket address as the generator consumes it.
#[derive(Clone, Copy, Debug, PartialEq, Eq)]
pub enum SocketRepr {
    V4 { octets: [u8; 4], port: u16 },
    V6 { segments: [u16; 8], port: u16, flow_info: u32, scope_id: u32 },
}

/// The constructor text for an IPv4 address with the given octets.
pub open spec fn ipv4_text(octets: [u8; 4]) -> Seq<char> {
    "std::net::Ipv4Addr::new("@ + dec_digits(octets[0] as nat) + ", "@ + dec_digits(
        octets[1] as nat,
    ) + ", "@ + dec_digits(octets[2] as nat) + ", "@ + dec_digits(octets[3] as nat) + ")"@
}

/// The constructor text for an IPv6 address with the given segments.
pub open spec fn ipv6_text(segments: [u16; 8]) -> Seq<char> {
    "std::net::Ipv6Addr::new("@ + dec_digits(segments[0] as nat) + ", "@ + dec_digits(
        segments[1] as nat,
    ) + ", "@ + dec_digits(segments[2] as nat) + ", "@ + dec_digits(segments[3] as nat) + ", "@
        + dec_digits(segments[4] as nat) + ", "@ + dec_digits(segments[5] as nat) + ", "@
        + dec_digits(segments[6] as nat) + ", "@ + dec_digits(segments[7] as nat) + ")"@
}

/// The constructor text for an IPv4 socket address.
pub open spec fn socketv4_text(octets: [u8; 4], port: u16) -> Seq<char> {
    "std::net::SocketAddrV4::new("@ + ipv4_text(octets) + ","@ + dec_digits(port as nat) + ")"@
}

/// The constructor text for an IPv6 socket address.
pub open spec fn socketv6_text(
    segments: [u16; 8],
    port: u16,
    flow_info: u32,
    scope_id: u32,
) -> Seq<char> {
    "std::net::SocketAddrV6::new("@ + ipv6_text(segments) + ","@ + dec_digits(port as nat) + ","@
        + dec_digits(flow_info as nat) + ","@ + dec_digits(scope_id as nat) + ")"@
}

/// The constructor text for an IP address of either family.
pub open spec fn ip_text(addr: IpRepr) -> Seq<char> {
    match addr {
        IpRepr::V4(octets) => "std::net::IpAddr::V4("@ + ipv4_text(octets) + ")"@,
        IpRepr::V6(segments) => "std::net::IpAddr::V6("@ + ipv6_text(segments) + ")"@,
    }
}

/// The constructor text for a socket address of either family.
pub open spec fn ip_socket_text(socket: SocketRepr) -> Seq<char> {
    match socket {
        SocketRepr::V4 { octets, port } => "std::net::SocketAddr::V4("@ + socketv4_text(
            octets,
            port,
        ) + ")"@,
        SocketRepr::V6 { segments, port, flow_info, scope_id } => "std::net::SocketAddr::V6("@
            + socketv6_text(segments, port, flow_info, scope_id) + ")"@,
    }
}

/// Render the constructor call for an IPv4 address.
pub fn generate_ipv4_stream(octets: &[u8; 4]) -> (s: String)
    ensures
        s@ == ipv4_text(*octets),
{
    let mut s = "std::net::Ipv4Addr::new(".to_owned();
    s.append(format_decimal(octets[0] as u128).as_str());
    s.append(", ");
    s.append(format_decimal(octets[1] as u128).as_str());
    s.append(", ");
    s.append(format_decimal(octets[2] as u128).as_str());
    s.append(", ");
    s.append(format_decimal(octets[3] as u128).as_str());
    s.append(")");
    proof {
        assert(s@ =~= ipv4_text(*octets));
    }
    s
}

/// Render the constructor call for an IPv6 address.
pub fn generate_ipv6_stream(segments: &[u16; 8]) -> (s: String)
    ensures
        s@ == ipv6_text(*segments),
{
    let mut s = "std::net::Ipv6Addr::new(".to_owned();
    s.append(format_decimal(segments[0] as u128).as_str());
    s.append(", ");
    s.append(format_decimal(segments[1] as u128).as_str());
    s.append(", ");
    s.append(format_decimal(segments[2] as u128).as_str());
    s.append(", ");
    s.append(format_decimal(segments[3] as u128).as_str());
    s.append(", ");
    s.append(format_decimal(segments[4] as u128).as_str());
    s.append(", ");
    s.append(format_decimal(segments[5] as u128).as_str());
    s.append(", ");
    s.append(format_decimal(segments[6] as u128).as_str());
    s.append(", ");
    s.append(format_decimal(segments[7] as u128).as_str());
    s.append(")");
    proof {
        assert(s@ =~= ipv6_text(*segments));
    }
    s
}

/// Render the constructor call for an IPv4 socket address.
pub fn generate_ipv4_socket_stream(octets: &[u8; 4], port: u16) -> (s: String)
    ensures
        s@ == socketv4_text(*octets, port),
{
    let mut s = "std::net::SocketAddrV4::new(".to_owned();
    s.append(generate_ipv4_stream(octets).as_str());
    s.append(",");
    s.append(format_decimal(port as u128).as_str());
    s.append(")");
    proof {
        assert(s@ =~= socketv4_text(*octets, port));
    }
    s
}

/// Render the constructor call for an IPv6 socket address.
pub fn generate_ipv6_socket_stream(
    segments: &[u16; 8],
    port: u16,
    flow_info: u32,
    scope_id: u32,
) -> (s: String)
    ensures
        s@ == socketv6_text(*segments, port, flow_info, scope_id),
{
    let mut s = "std::net::SocketAddrV6::new(".to_owned();
    s.append(generate_ipv6_stream(segments).as_str());
    s.append(",");
    s.append(format_decimal(port as u128).as_str());
    s.append(",");
    s.append(format_decimal(flow_info as u128).as_str());
    s.append(",");
    s.append(format_decimal(scope_id as u128).as_str());
    s.append(")");
    proof {
        assert(s@ =~= socketv6_text(*segments, port, flow_info, scope_id));
    }
    s
}

/// Render the constructor call for an IP address of either family.
pub fn generate_ip_stream(addr: &IpRepr) -> (s: String)
    ensures
        s@ == ip_text(*addr),
{
    match addr {
        IpRepr::V4(octets) => {
            let mut s = "std::net::IpAddr::V4(".to_owned();
            s.append(generate_ipv4_stream(octets).as_str());
            s.append(")");
            proof {
                assert(s@ =~= ip_text(*addr));
            }
            s
        },
        IpRepr::V6(segments) => {
            let mut s = "std::net::IpAddr::V6(".to_owned();
            s.append(generate_ipv6_stream(segments).as_str());
            s.append(")");
            proof {
                assert(s@ =~= ip_text(*addr));
            }
            s
        },
    }
}

/// Render the constructor call for a socket address of either family.
pub fn generate_ip_socket_stream(socket: &SocketRepr) -> (s: String)
    ensures
        s@ == ip_socket_text(*socket),
{
    match socket {
        SocketRepr::V4 { octets, port } => {
            let mut s = "std::net::SocketAddr::V4(".to_owned();
            s.append(generate_ipv4_socket_stream(octets, *port).as_str());
            s.append(")");
            proof {
                assert(s@ =~= ip_socket_text(*socket));
            }
            s
        },
        SocketRepr::V6 { segments, port, flow_info, scope_id } => {
            let mut s = "std::net::SocketAddr::V6(".to_owned();
            s.append(generate_ipv6_socket_stream(segments, *port, *flow_info, *scope_id).as_str());
            s.append(")");
            proof {
                assert(s@ =~= ip_socket_text(*socket));
            }
            s
        },
    }
}

} // verus!
