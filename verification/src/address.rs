//! Addresses: an IP address with a port, or a domain name with a port.

use vstd::prelude::*;
use vstd::utf8::{decode_utf8, encode_utf8, valid_utf8};
use vstd::slice::slice_subrange;
use vstd::std_specs::cmp::PartialEqSpecImpl;
use crate::consts::{
    AddrType, SOCKS5_ADDR_TYPE_DOMAIN_NAME, SOCKS5_ADDR_TYPE_IPV4, SOCKS5_ADDR_TYPE_IPV6,
};
use crate::endian::{be_bytes, be_uint, read_u128be, read_u16be, read_u32be};
use crate::error::SocksError;
use crate::progress::Progress;

verus! {

/// An IP address with a port.
///
/// The address is held as a number: its big-endian bytes are the octets of
/// the address, in the order in which they are written and sent.
#[derive(Clone, Copy, Debug, PartialEq, Eq, Hash, Structural)]
#[allow(inconsistent_fields)]
pub enum SocketAddr {
    /// An IPv4 address and a port.
    V4 { ip: u32, port: u16 },
    /// An IPv6 address and a port, with the flow information and the scope
    /// that the protocol does not carry.
    V6 { ip: u128, port: u16, flowinfo: u32, scope_id: u32 },
}

/// Where a request or a reply points.
///
/// Two addresses are equal where they are of the same kind and hold the same
/// address or name and the same port.
#[derive(Clone, Debug, Eq, Hash)]
pub enum Address {
    /// An IP address with a port.
    SocketAddress(SocketAddr),
    /// A domain name with a port.
    DomainNameAddress(String, u16),
}

/// An [`Address`] as contracts see it: the name is its characters.
pub enum AddressView {
    SocketAddress(SocketAddr),
    DomainNameAddress(Seq<char>, u16),
}

impl View for Address {
    type V = AddressView;

    open spec fn view(&self) -> AddressView {
        match *self {
            Address::SocketAddress(addr) => AddressView::SocketAddress(addr),
            Address::DomainNameAddress(name, port) => AddressView::DomainNameAddress(name@, port),
        }
    }
}

impl PartialEq for Address {
    fn eq(&self, other: &Address) -> (equal: bool) {
        match (self, other) {
            (Address::SocketAddress(a), Address::SocketAddress(b)) => *a == *b,
            (Address::DomainNameAddress(a, p), Address::DomainNameAddress(b, q)) => *a == *b
                && *p == *q,
            _ => false,
        }
    }
}

impl PartialEqSpecImpl for Address {
    open spec fn obeys_eq_spec() -> bool {
        true
    }

    open spec fn eq_spec(&self, other: &Address) -> bool {
        self@ == other@
    }
}

impl AddressView {
    /// The port of the address.
    pub open spec fn port_number(self) -> nat {
        match self {
            AddressView::SocketAddress(SocketAddr::V4 { port, .. }) => port as nat,
            AddressView::SocketAddress(SocketAddr::V6 { port, .. }) => port as nat,
            AddressView::DomainNameAddress(_, port) => port as nat,
        }
    }

    /// How many bytes the address takes on the wire: the tag, the address
    /// and the port; for a name, the length byte as well.
    pub open spec fn wire_len(self) -> nat {
        match self {
            AddressView::SocketAddress(SocketAddr::V4 { .. }) => 1 + 4 + 2,
            AddressView::SocketAddress(SocketAddr::V6 { .. }) => 1 + 8 * 2 + 2,
            AddressView::DomainNameAddress(name, _) => 1 + 1 + encode_utf8(name).len() + 2,
        }
    }

    /// Whether the wire format can carry the address: an IPv6 address has no
    /// flow information and no scope, and a name has at most 255 bytes.
    pub open spec fn encodable(self) -> bool {
        match self {
            AddressView::SocketAddress(SocketAddr::V4 { .. }) => true,
            AddressView::SocketAddress(SocketAddr::V6 { flowinfo, scope_id, .. }) => flowinfo == 0
                && scope_id == 0,
            AddressView::DomainNameAddress(name, _) => encode_utf8(name).len() <= 255,
        }
    }

    /// The bytes of the address on the wire.
    pub open spec fn wire(self) -> Seq<u8> {
        match self {
            AddressView::SocketAddress(SocketAddr::V4 { ip, port }) => seq![SOCKS5_ADDR_TYPE_IPV4]
                + be_bytes(ip as nat, 4) + be_bytes(port as nat, 2),
            AddressView::SocketAddress(SocketAddr::V6 { ip, port, .. }) => seq![
                SOCKS5_ADDR_TYPE_IPV6,
            ] + be_bytes(ip as nat, 16) + be_bytes(port as nat, 2),
            AddressView::DomainNameAddress(name, port) => seq![
                SOCKS5_ADDR_TYPE_DOMAIN_NAME,
                encode_utf8(name).len() as u8,
            ] + encode_utf8(name) + be_bytes(port as nat, 2),
        }
    }
}

impl Address {
    /// How many bytes the address takes on the wire.
    pub fn len(&self) -> (n: usize)
        requires
            self@.wire_len() <= usize::MAX,
        ensures
            n == self@.wire_len(),
    {
        match self {
            Address::SocketAddress(SocketAddr::V4 { .. }) => 1 + 4 + 2,
            Address::SocketAddress(SocketAddr::V6 { .. }) => 1 + 8 * 2 + 2,
            Address::DomainNameAddress(dmname, _) => 1 + 1 + dmname.as_str().len() + 2,
        }
    }
}

/// What `String::from_utf8_lossy` makes of bytes that are not valid UTF-8:
/// the text in which each invalid sequence has become U+FFFD.
pub uninterp spec fn utf8_lossy(bytes: Seq<u8>) -> Seq<char>;

/// The text that name bytes are read as: the text that they encode where
/// they are valid UTF-8, and the repaired text where they are not.
pub open spec fn lossy_text(bytes: Seq<u8>) -> Seq<char> {
    if valid_utf8(bytes) {
        decode_utf8(bytes)
    } else {
        utf8_lossy(bytes)
    }
}

/// `String::from_utf8_lossy`, made an owned string. Valid UTF-8 comes back
/// as the text that it encodes; of other bytes the result is only named.
#[verifier::external_body]
fn string_from_utf8_lossy(bytes: &[u8]) -> (text: String)
    ensures
        text@ == if valid_utf8(bytes@) {
            decode_utf8(bytes@)
        } else {
            utf8_lossy(bytes@)
        },
{
    String::from_utf8_lossy(bytes).into_owned()
}

/// What the bytes received so far say of an address.
///
/// The reads follow the layout: the tag; for IPv4 the six bytes of address
/// and port; for IPv6 the sixteen bytes of the address, then the two of the
/// port; for a name the length byte, then the name and the port at once. A
/// tag that stands for no address type is refused as soon as it is seen, and
/// so is the tag of a name where `allow_domain` is not set.
pub open spec fn address_progress(received: Seq<u8>, allow_domain: bool) -> Progress<AddressView> {
    let have = received.len();
    if have == 0 {
        Progress::Read(1)
    } else {
        match AddrType::of_code(received[0]) {
            None => Progress::Failed {
                error: SocksError::AddressTypeNotSupported { code: received[0] },
                shutdown: false,
            },
            Some(AddrType::IPV4) => if have < 7 {
                Progress::Read((7 - have) as usize)
            } else {
                Progress::Done {
                    value: AddressView::SocketAddress(
                        SocketAddr::V4 {
                            ip: be_uint(received.subrange(1, 5)) as u32,
                            port: be_uint(received.subrange(5, 7)) as u16,
                        },
                    ),
                    consumed: 7,
                }
            },
            Some(AddrType::IPV6) => if have < 17 {
                Progress::Read((17 - have) as usize)
            } else if have < 19 {
                Progress::Read((19 - have) as usize)
            } else {
                Progress::Done {
                    value: AddressView::SocketAddress(
                        SocketAddr::V6 {
                            ip: be_uint(received.subrange(1, 17)) as u128,
                            port: be_uint(received.subrange(17, 19)) as u16,
                            flowinfo: 0,
                            scope_id: 0,
                        },
                    ),
                    consumed: 19,
                }
            },
            Some(AddrType::DomainName) => if !allow_domain {
                Progress::Failed {
                    error: SocksError::AddressTypeNotSupported { code: received[0] },
                    shutdown: false,
                }
            } else if have < 2 {
                Progress::Read(1)
            } else {
                let end = 2 + received[1] as int;
                if have < end + 2 {
                    Progress::Read((end + 2 - have) as usize)
                } else {
                    Progress::Done {
                        value: AddressView::DomainNameAddress(
                            lossy_text(received.subrange(2, end)),
                            be_uint(received.subrange(end, end + 2)) as u16,
                        ),
                        consumed: (end + 2) as usize,
                    }
                }
            },
        }
    }
}

/// What the bytes received so far say of an address that must be an IP
/// address: as [`address_progress`] without names.
pub open spec fn socket_addr_progress(received: Seq<u8>) -> Progress<SocketAddr> {
    match address_progress(received, false) {
        Progress::Read(count) => Progress::Read(count),
        Progress::Done { value: AddressView::SocketAddress(addr), consumed } => Progress::Done {
            value: addr,
            consumed,
        },
        Progress::Done { value: AddressView::DomainNameAddress(..), .. } => Progress::Failed {
            error: SocksError::AddressTypeNotSupported { code: SOCKS5_ADDR_TYPE_DOMAIN_NAME },
            shutdown: false,
        },
        Progress::Failed { error, shutdown } => Progress::Failed { error, shutdown },
    }
}

/// Decodes an address from the bytes received so far, with or without
/// names.
fn decode_address(received: &[u8], allow_domain: bool) -> (progress: Progress<Address>)
    ensures
        progress@ == address_progress(received@, allow_domain),
{
    let have = received.len();
    if have == 0 {
        return Progress::Read(1);
    }
    let a = received[0];
    let addr_type = match AddrType::from_code(a) {
        Ok(t) => t,
        Err(error) => {
            return Progress::Failed { error, shutdown: false };
        },
    };
    match addr_type {
        AddrType::IPV4 => {
            if have < 7 {
                return Progress::Read(7 - have);
            }
            let ip = read_u32be(slice_subrange(received, 1, 5));
            let port = read_u16be(slice_subrange(received, 5, 7));
            proof {
                let ip_bytes = received@.subrange(1, 5);
                let port_bytes = received@.subrange(5, 7);
                assert(ip_bytes.subrange(0, 4) =~= ip_bytes);
                assert(port_bytes.subrange(0, 2) =~= port_bytes);
            }
            Progress::Done {
                value: Address::SocketAddress(SocketAddr::V4 { ip, port }),
                consumed: 7,
            }
        },
        AddrType::IPV6 => {
            if have < 17 {
                return Progress::Read(17 - have);
            }
            if have < 19 {
                return Progress::Read(19 - have);
            }
            let ip = read_u128be(slice_subrange(received, 1, 17));
            let port = read_u16be(slice_subrange(received, 17, 19));
            proof {
                let ip_bytes = received@.subrange(1, 17);
                let port_bytes = received@.subrange(17, 19);
                assert(ip_bytes.subrange(0, 16) =~= ip_bytes);
                assert(port_bytes.subrange(0, 2) =~= port_bytes);
            }
            Progress::Done {
                value: Address::SocketAddress(
                    SocketAddr::V6 { ip, port, flowinfo: 0, scope_id: 0 },
                ),
                consumed: 19,
            }
        },
        AddrType::DomainName => {
            if !allow_domain {
                return Progress::Failed {
                    error: SocksError::AddressTypeNotSupported { code: addr_type.code() },
                    shutdown: false,
                };
            }
            if have < 2 {
                return Progress::Read(1);
            }
            let length = received[1];
            let addr_len = length as usize;
            if have < addr_len + 4 {
                return Progress::Read(addr_len + 4 - have);
            }
            let port = read_u16be(slice_subrange(received, addr_len + 2, addr_len + 4));
            let addr = string_from_utf8_lossy(slice_subrange(received, 2, addr_len + 2));
            proof {
                let port_bytes = received@.subrange(addr_len + 2, addr_len + 4);
                assert(port_bytes.subrange(0, 2) =~= port_bytes);
            }
            Progress::Done {
                value: Address::DomainNameAddress(addr, port),
                consumed: addr_len + 4,
            }
        },
    }
}

/// Decodes an address from the bytes received so far: an IP address or a
/// domain name, with its port.
pub fn read_socks_address(received: &[u8]) -> (progress: Progress<Address>)
    ensures
        progress@ == address_progress(received@, true),
{
    decode_address(received, true)
}

/// Decodes an IP address with its port from the bytes received so far. The
/// tag of a domain name is refused like an unknown one.
pub fn read_socks_socket_addr(received: &[u8]) -> (progress: Progress<SocketAddr>)
    ensures
        progress == socket_addr_progress(received@),
{
    match decode_address(received, false) {
        Progress::Read(count) => Progress::Read(count),
        Progress::Done { value: Address::SocketAddress(addr), consumed } => Progress::Done {
            value: addr,
            consumed,
        },
        Progress::Done { value: Address::DomainNameAddress(..), .. } => Progress::Failed {
            error: SocksError::AddressTypeNotSupported { code: SOCKS5_ADDR_TYPE_DOMAIN_NAME },
            shutdown: false,
        },
        Progress::Failed { error, shutdown } => Progress::Failed { error, shutdown },
    }
}

} // verus!
