//! Tests of the rendering side: decimal formatting, literal-kind
//! display names, and the generated constructor source text.

use fancy_ip::arg_parser::{Error, ErrorKind};
use fancy_ip::gen::{
    generate_ip_socket_stream, generate_ip_stream, generate_ipv4_socket_stream,
    generate_ipv4_stream, generate_ipv6_socket_stream, generate_ipv6_stream, IpRepr, SocketRepr,
};
use fancy_ip::render::format_decimal;
use fancy_ip::token::{LiteralType, Location};

#[test]
fn decimal_formatting() {
    assert_eq!(format_decimal(0), "0");
    assert_eq!(format_decimal(9), "9");
    assert_eq!(format_decimal(10), "10");
    assert_eq!(format_decimal(207), "207");
    assert_eq!(format_decimal(4294967295), "4294967295");
    assert_eq!(
        format_decimal(u128::MAX),
        "340282366920938463463374607431768211455"
    );
}

#[test]
fn literal_type_names() {
    assert_eq!(LiteralType::Bool.name(), "bool");
    assert_eq!(LiteralType::Byte.name(), "u8");
    assert_eq!(LiteralType::ByteString.name(), "[u8]");
    assert_eq!(LiteralType::Char.name(), "char");
    assert_eq!(LiteralType::String.name(), "str");
    assert_eq!(LiteralType::Float.name(), "float");
    assert_eq!(LiteralType::Integer.name(), "int");
}

#[test]
fn error_messages() {
    let bad = Error {
        kind: ErrorKind::BadType { given: LiteralType::Float, expected: LiteralType::Integer },
        span: Location { id: 0 },
    };
    assert_eq!(
        bad.message(),
        "Unexpected type: given `float`, expected `int`\n"
    );
    let oob = Error { kind: ErrorKind::OutOfBound, span: Location { id: 0 } };
    assert_eq!(
        oob.message(),
        "The integer value is out of bounds for the required type\n"
    );
    let tok = Error {
        kind: ErrorKind::UnexpectedToken("=>".to_string()),
        span: Location { id: 0 },
    };
    assert_eq!(tok.message(), "Unexpected token `=>`\n");
}

#[test]
fn ipv4_constructor_text() {
    assert_eq!(
        generate_ipv4_stream(&[192, 168, 1, 5]),
        "std::net::Ipv4Addr::new(192, 168, 1, 5)"
    );
}

#[test]
fn ipv6_constructor_text() {
    assert_eq!(
        generate_ipv6_stream(&[0, 0, 0, 0, 0, 0, 0, 1]),
        "std::net::Ipv6Addr::new(0, 0, 0, 0, 0, 0, 0, 1)"
    );
}

#[test]
fn socketv4_constructor_text() {
    assert_eq!(
        generate_ipv4_socket_stream(&[192, 168, 1, 5], 3000),
        "std::net::SocketAddrV4::new(std::net::Ipv4Addr::new(192, 168, 1, 5),3000)"
    );
}

#[test]
fn socketv6_constructor_text() {
    assert_eq!(
        generate_ipv6_socket_stream(&[0, 0, 0, 0, 0, 0, 0, 1], 3000, 58, 30),
        "std::net::SocketAddrV6::new(std::net::Ipv6Addr::new(0, 0, 0, 0, 0, 0, 0, 1),3000,58,30)"
    );
}

#[test]
fn ip_constructor_text_both_families() {
    assert_eq!(
        generate_ip_stream(&IpRepr::V4([127, 0, 0, 1])),
        "std::net::IpAddr::V4(std::net::Ipv4Addr::new(127, 0, 0, 1))"
    );
    assert_eq!(
        generate_ip_stream(&IpRepr::V6([0, 0, 0, 0, 0, 0, 0, 1])),
        "std::net::IpAddr::V6(std::net::Ipv6Addr::new(0, 0, 0, 0, 0, 0, 0, 1))"
    );
}

#[test]
fn ip_socket_constructor_text_both_families() {
    assert_eq!(
        generate_ip_socket_stream(&(SocketRepr::V4 { octets: [192, 168, 1, 5], port: 3000 })),
        "std::net::SocketAddr::V4(std::net::SocketAddrV4::new(std::net::Ipv4Addr::new(192, 168, 1, 5),3000))"
    );
    assert_eq!(
        generate_ip_socket_stream(
            &(SocketRepr::V6 {
                segments: [0, 0, 0, 0, 0, 0, 0, 1],
                port: 8080,
                flow_info: 58,
                scope_id: 30,
            })
        ),
        "std::net::SocketAddr::V6(std::net::SocketAddrV6::new(std::net::Ipv6Addr::new(0, 0, 0, 0, 0, 0, 0, 1),8080,58,30))"
    );
}
