//! Where the listeners bind unless they are told otherwise.

use vstd::prelude::*;

verus! {

/// An address of the internet protocol.
#[derive(Clone, Copy, PartialEq, Eq, Debug, Structural)]
pub enum IpAddress {
    V4(u8, u8, u8, u8),
    V6(u16, u16, u16, u16, u16, u16, u16, u16),
}

/// An address and a port to listen on.
#[derive(Clone, Copy, PartialEq, Eq, Debug, Structural)]
pub struct ListenEndpoint {
    pub ip: IpAddress,
    pub port: u16,
}

/// The port of the HTTP listener unless another is set.
pub const DEFAULT_HTTP_PORT: u16 = 8000;

/// The port of the RPC listener unless another is set.
pub const DEFAULT_GRPC_PORT: u16 = 8888;

/// The address that stands for all interfaces.
pub open spec fn all_interfaces() -> IpAddress {
    IpAddress::V4(0, 0, 0, 0)
}

/// The address that a listener binds unless another is set: all interfaces.
pub fn get_default_ip_address() -> (ip: IpAddress)
    ensures
        ip == all_interfaces(),
{
    IpAddress::V4(0, 0, 0, 0)
}

/// The value of a decimal digit.
pub open spec fn digit_value(c: char) -> Option<nat> {
    if '0' <= c <= '9' {
        Some((c as nat - '0' as nat) as nat)
    } else {
        None
    }
}

/// The number that a non-empty run of decimal digits denotes.
pub open spec fn decimal_value(digits: Seq<char>) -> Option<nat>
    decreases digits.len(),
{
    if digits.len() == 0 {
        None
    } else if digits.len() == 1 {
        digit_value(digits[0])
    } else {
        match (decimal_value(digits.drop_last()), digit_value(digits.last())) {
            (Some(high), Some(low)) => Some(high * 10 + low),
            _ => None,
        }
    }
}

/// The port that a text denotes: the text is an optional plus sign
/// followed by decimal digits and nothing else, and the number fits a port.
pub open spec fn parsed_port(text: Seq<char>) -> Option<u16> {
    let digits = if text.len() > 0 && text[0] == '+' {
        text.skip(1)
    } else {
        text
    };
    match decimal_value(digits) {
        Some(value) => if value <= u16::MAX {
            Some(value as u16)
        } else {
            None
        },
        None => None,
    }
}

/// `str::parse::<u16>`: the number that the text denotes in decimal. The
/// text has to be an optional plus sign followed by digits only; any
/// other character, no digit at all, or a number beyond the range of the
/// type gives nothing.
#[verifier::external_body]
pub(crate) fn parse_port(text: &str) -> (port: Option<u16>)
    ensures
        port == parsed_port(text@),
{
    text.parse::<u16>().ok()
}

/// The port to use when `parsed` is what the configured text denotes.
pub open spec fn port_or(parsed: Option<u16>, default_port: u16) -> u16 {
    match parsed {
        Some(port) => port,
        None => default_port,
    }
}

/// The port to use when `parsed` is what the configured text denotes: the
/// parsed port, or the default where the text denoted none.
pub fn port_or_default(parsed: Option<u16>, default_port: u16) -> (port: u16)
    ensures
        port == port_or(parsed, default_port),
{
    match parsed {
        Some(port) => port,
        None => default_port,
    }
}

/// The port that a configuration asks for.
pub open spec fn configured_port(configured: Option<Seq<char>>, default_port: u16) -> u16 {
    match configured {
        Some(text) => port_or(parsed_port(text), default_port),
        None => default_port,
    }
}

/// The port that a configuration asks for: the default where nothing is
/// configured or where the configured text is no port.
pub fn resolve_port(configured: Option<&str>, default_port: u16) -> (port: u16)
    ensures
        port == configured_port(
            match configured {
                Some(text) => Some(text@),
                None => None,
            },
            default_port,
        ),
{
    match configured {
        Some(text) => port_or_default(parse_port(text), default_port),
        None => default_port,
    }
}

} // verus!
