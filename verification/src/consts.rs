//! Protocol constants: the version, address types, commands and reply codes.

use vstd::prelude::*;
use crate::error::SocksError;

verus! {

/// The one protocol version that is understood.
pub const SOCKS5_VERSION: u8 = 0x05;

/// Tag of an IPv4 address: four address bytes and a port follow.
pub const SOCKS5_ADDR_TYPE_IPV4: u8 = 0x01;

/// Tag of a domain name: a length byte, the name and a port follow.
pub const SOCKS5_ADDR_TYPE_DOMAIN_NAME: u8 = 0x03;

/// Tag of an IPv6 address: sixteen address bytes and a port follow.
pub const SOCKS5_ADDR_TYPE_IPV6: u8 = 0x04;

/// The kind of address that a tag byte announces.
#[derive(Clone, Copy, Debug, PartialEq, Eq, Structural)]
pub enum AddrType {
    /// An IPv4 address.
    IPV4,
    /// A domain name, to be resolved by the proxy.
    DomainName,
    /// An IPv6 address.
    IPV6,
}

impl AddrType {
    /// The address type that `code` stands for, if any.
    pub open spec fn of_code(code: u8) -> Option<AddrType> {
        if code == SOCKS5_ADDR_TYPE_IPV4 {
            Some(AddrType::IPV4)
        } else if code == SOCKS5_ADDR_TYPE_DOMAIN_NAME {
            Some(AddrType::DomainName)
        } else if code == SOCKS5_ADDR_TYPE_IPV6 {
            Some(AddrType::IPV6)
        } else {
            None
        }
    }

    /// Reads a tag byte: the address type, or the error that carries the
    /// byte where it stands for none.
    pub fn from_code(code: u8) -> (r: Result<AddrType, SocksError>)
        ensures
            match AddrType::of_code(code) {
                Some(addr_type) => r == Ok::<AddrType, SocksError>(addr_type),
                None => r == Err::<AddrType, SocksError>(
                    SocksError::AddressTypeNotSupported { code },
                ),
            },
    {
        if code == SOCKS5_ADDR_TYPE_IPV4 {
            Ok(AddrType::IPV4)
        } else if code == SOCKS5_ADDR_TYPE_DOMAIN_NAME {
            Ok(AddrType::DomainName)
        } else if code == SOCKS5_ADDR_TYPE_IPV6 {
            Ok(AddrType::IPV6)
        } else {
            Err(SocksError::AddressTypeNotSupported { code })
        }
    }

    /// The tag byte of this address type.
    pub open spec fn spec_code(self) -> u8 {
        match self {
            AddrType::IPV4 => SOCKS5_ADDR_TYPE_IPV4,
            AddrType::DomainName => SOCKS5_ADDR_TYPE_DOMAIN_NAME,
            AddrType::IPV6 => SOCKS5_ADDR_TYPE_IPV6,
        }
    }

    /// The tag byte of this address type.
    #[verifier::when_used_as_spec(spec_code)]
    pub fn code(self) -> (code: u8)
        ensures
            code == self.spec_code(),
            AddrType::of_code(code) == Some(self),
    {
        match self {
            AddrType::IPV4 => SOCKS5_ADDR_TYPE_IPV4,
            AddrType::DomainName => SOCKS5_ADDR_TYPE_DOMAIN_NAME,
            AddrType::IPV6 => SOCKS5_ADDR_TYPE_IPV6,
        }
    }
}

/// What the client asks the proxy to do.
#[derive(Clone, Copy, Debug, PartialEq, Eq, Structural)]
pub enum Command {
    /// Open a TCP connection to the destination.
    TcpConnect,
    /// Wait for a TCP connection from the destination.
    TcpBind,
    /// Relay UDP datagrams.
    UdpAssociate,
}

/// How the proxy answers a request.
#[derive(Clone, Copy, Debug, PartialEq, Eq, Structural)]
pub enum Reply {
    /// The request was granted.
    Succeeded,
    /// The proxy failed in a way that has no code of its own.
    GeneralFailure,
    /// The rules of the proxy forbid the connection.
    ConnectionNotAllowed,
    /// The network of the destination cannot be reached.
    NetworkUnreachable,
    /// The destination host cannot be reached.
    HostUnreachable,
    /// The destination refused the connection.
    ConnectionRefused,
    /// The time to live ran out on the way.
    TtlExpired,
    /// The proxy does not know the command.
    CommandNotSupported,
    /// The proxy does not take the address type.
    AddressTypeNotSupported,
}

} // verus!
