//! What holds of the decoders on every input.

use vstd::prelude::*;
use vstd::utf8::{
    decode_utf8_encode_utf8, encode_utf8, encode_utf8_decode_utf8, encode_utf8_valid_utf8,
    valid_utf8,
};
use crate::address::{address_progress, lossy_text, socket_addr_progress, AddressView, SocketAddr};
use crate::consts::{
    SOCKS5_ADDR_TYPE_DOMAIN_NAME, SOCKS5_ADDR_TYPE_IPV4, SOCKS5_ADDR_TYPE_IPV6, SOCKS5_VERSION,
};
use crate::endian::{
    be_bytes, lemma_be_bytes_len, lemma_be_bytes_of_be_uint, lemma_be_uint_2,
    lemma_be_uint_bound, lemma_be_uint_of_be_bytes, lemma_pow256_values,
};
use crate::error::SocksError;
use crate::handshake::{handshake_progress, handshake_wire};
use crate::progress::{read_in_steps, Progress};

verus! {

/// The wire form of an address that the format can carry has the length that
/// `wire_len` gives.
pub proof fn law_wire_has_wire_len(addr: AddressView)
    requires
        addr.encodable(),
    ensures
        addr.wire().len() == addr.wire_len(),
{
    lemma_be_bytes_len(addr.port_number(), 2);
    match addr {
        AddressView::SocketAddress(SocketAddr::V4 { ip, .. }) => {
            lemma_be_bytes_len(ip as nat, 4);
        },
        AddressView::SocketAddress(SocketAddr::V6 { ip, .. }) => {
            lemma_be_bytes_len(ip as nat, 16);
        },
        AddressView::DomainNameAddress(..) => {},
    }
}

/// Decoding the wire form of an address gives the address back, whatever
/// follows it in the buffer, and takes exactly the bytes of the wire form.
/// Names are left out where the decoder does not take them.
pub proof fn law_decode_inverts_wire(addr: AddressView, rest: Seq<u8>, allow_domain: bool)
    requires
        addr.encodable(),
        allow_domain || addr is SocketAddress,
    ensures
        address_progress(addr.wire() + rest, allow_domain) == (Progress::Done {
            value: addr,
            consumed: addr.wire_len() as usize,
        }),
{
    let received = addr.wire() + rest;
    let port = addr.port_number();
    law_wire_has_wire_len(addr);
    lemma_pow256_values();
    lemma_be_bytes_len(port, 2);
    lemma_be_uint_of_be_bytes(port, 2);
    match addr {
        AddressView::SocketAddress(SocketAddr::V4 { ip, .. }) => {
            lemma_be_bytes_len(ip as nat, 4);
            lemma_be_uint_of_be_bytes(ip as nat, 4);
            assert(received[0] == SOCKS5_ADDR_TYPE_IPV4);
            assert(received.subrange(1, 5) =~= be_bytes(ip as nat, 4));
            assert(received.subrange(5, 7) =~= be_bytes(port, 2));
        },
        AddressView::SocketAddress(SocketAddr::V6 { ip, .. }) => {
            lemma_be_bytes_len(ip as nat, 16);
            lemma_be_uint_of_be_bytes(ip as nat, 16);
            assert(received[0] == SOCKS5_ADDR_TYPE_IPV6);
            assert(received.subrange(1, 17) =~= be_bytes(ip as nat, 16));
            assert(received.subrange(17, 19) =~= be_bytes(port, 2));
        },
        AddressView::DomainNameAddress(name, _) => {
            let bytes = encode_utf8(name);
            let end = 2 + bytes.len() as int;
            encode_utf8_valid_utf8(name);
            encode_utf8_decode_utf8(name);
            assert(received[0] == SOCKS5_ADDR_TYPE_DOMAIN_NAME);
            assert(received[1] == bytes.len() as u8);
            assert(received.subrange(2, end) =~= bytes);
            assert(received.subrange(end, end + 2) =~= be_bytes(port, 2));
        },
    }
}

/// The bytes that a decoded address took are its wire form, and their number
/// is the length that the address reports. For a name this holds where its
/// bytes are valid UTF-8: other bytes are repaired, and are not got back.
pub proof fn law_wire_inverts_decode(received: Seq<u8>, allow_domain: bool)
    requires
        address_progress(received, allow_domain) is Done,
        received[0] == SOCKS5_ADDR_TYPE_DOMAIN_NAME ==> valid_utf8(
            received.subrange(2, 2 + received[1] as int),
        ),
    ensures
        ({
            let addr = address_progress(received, allow_domain)->value;
            let consumed = address_progress(received, allow_domain)->consumed;
            &&& addr.encodable()
            &&& addr.wire_len() == consumed
            &&& addr.wire() == received.subrange(0, consumed as int)
        }),
{
    let addr = address_progress(received, allow_domain)->value;
    let consumed = address_progress(received, allow_domain)->consumed as int;
    let port_bytes = received.subrange(consumed - 2, consumed);
    lemma_pow256_values();
    lemma_be_uint_bound(port_bytes);
    lemma_be_bytes_of_be_uint(port_bytes);
    if received[0] == SOCKS5_ADDR_TYPE_IPV4 {
        let ip_bytes = received.subrange(1, 5);
        lemma_be_uint_bound(ip_bytes);
        lemma_be_bytes_of_be_uint(ip_bytes);
        assert(addr.wire() =~= received.subrange(0, 7));
    } else if received[0] == SOCKS5_ADDR_TYPE_IPV6 {
        let ip_bytes = received.subrange(1, 17);
        lemma_be_uint_bound(ip_bytes);
        lemma_be_bytes_of_be_uint(ip_bytes);
        assert(addr.wire() =~= received.subrange(0, 19));
    } else {
        let name_bytes = received.subrange(2, 2 + received[1] as int);
        decode_utf8_encode_utf8(name_bytes);
        assert(addr.wire() =~= received.subrange(0, consumed));
    }
}

/// An IPv4 address with a port takes seven bytes on the wire. Decoding them
/// gives the same address and port and takes those seven bytes, with names
/// allowed or not.
pub proof fn law_ipv4_round_trip(ip: u32, port: u16, rest: Seq<u8>, allow_domain: bool)
    ensures
        ({
            let addr = AddressView::SocketAddress(SocketAddr::V4 { ip, port });
            &&& addr.wire_len() == 7
            &&& addr.wire().len() == 7
            &&& address_progress(addr.wire() + rest, allow_domain) == (Progress::Done {
                value: addr,
                consumed: 7,
            })
            &&& socket_addr_progress(addr.wire() + rest) == (Progress::Done {
                value: SocketAddr::V4 { ip, port },
                consumed: 7,
            })
        }),
{
    let addr = AddressView::SocketAddress(SocketAddr::V4 { ip, port });
    law_wire_has_wire_len(addr);
    law_decode_inverts_wire(addr, rest, allow_domain);
    law_decode_inverts_wire(addr, rest, false);
}

/// An IPv6 address with a port takes nineteen bytes on the wire. Decoding
/// them gives the same address and port, without flow information or scope,
/// and takes those nineteen bytes.
pub proof fn law_ipv6_round_trip(ip: u128, port: u16, rest: Seq<u8>, allow_domain: bool)
    ensures
        ({
            let addr = AddressView::SocketAddress(
                SocketAddr::V6 { ip, port, flowinfo: 0, scope_id: 0 },
            );
            &&& addr.wire_len() == 19
            &&& addr.wire().len() == 19
            &&& address_progress(addr.wire() + rest, allow_domain) == (Progress::Done {
                value: addr,
                consumed: 19,
            })
            &&& socket_addr_progress(addr.wire() + rest) == (Progress::Done {
                value: SocketAddr::V6 { ip, port, flowinfo: 0, scope_id: 0 },
                consumed: 19,
            })
        }),
{
    let addr = AddressView::SocketAddress(SocketAddr::V6 { ip, port, flowinfo: 0, scope_id: 0 });
    law_wire_has_wire_len(addr);
    law_decode_inverts_wire(addr, rest, allow_domain);
    law_decode_inverts_wire(addr, rest, false);
}

/// Whatever the bytes, a decoded IPv6 address has neither flow information
/// nor scope, took nineteen bytes, and takes nineteen bytes on the wire.
pub proof fn law_decoded_ipv6_is_plain(received: Seq<u8>, allow_domain: bool)
    ensures
        match address_progress(received, allow_domain) {
            Progress::Done { value, consumed } => match value {
                AddressView::SocketAddress(SocketAddr::V6 { flowinfo, scope_id, .. }) => {
                    &&& flowinfo == 0
                    &&& scope_id == 0
                    &&& consumed == 19
                    &&& value.wire_len() == 19
                },
                _ => true,
            },
            _ => true,
        },
{
}

/// A buffer that holds the tag of a name, a length, as many name bytes and
/// the two bytes of a port decodes to the text of the name bytes and to the
/// port, and takes four bytes more than the name has. Where the name bytes
/// are valid UTF-8, the decoded address takes as many bytes on the wire.
pub proof fn law_domain_name(name: Seq<u8>, port_hi: u8, port_lo: u8, rest: Seq<u8>)
    requires
        name.len() <= 255,
    ensures
        ({
            let buffer = seq![SOCKS5_ADDR_TYPE_DOMAIN_NAME, name.len() as u8] + name
                + seq![port_hi, port_lo] + rest;
            let addr = AddressView::DomainNameAddress(
                lossy_text(name),
                (port_hi as int * 256 + port_lo as int) as u16,
            );
            &&& address_progress(buffer, true) == (Progress::Done {
                value: addr,
                consumed: (4 + name.len()) as usize,
            })
            &&& valid_utf8(name) ==> addr.wire_len() == 4 + name.len()
        }),
{
    let buffer = seq![SOCKS5_ADDR_TYPE_DOMAIN_NAME, name.len() as u8] + name + seq![
        port_hi,
        port_lo,
    ] + rest;
    let end = 2 + name.len() as int;
    assert(buffer[0] == SOCKS5_ADDR_TYPE_DOMAIN_NAME);
    assert(buffer[1] == name.len() as u8);
    assert(buffer.subrange(2, end) =~= name);
    assert(buffer.subrange(end, end + 2) =~= seq![port_hi, port_lo]);
    lemma_be_uint_2(seq![port_hi, port_lo]);
    if valid_utf8(name) {
        decode_utf8_encode_utf8(name);
    }
}

/// A tag that is none of IPv4, domain name and IPv6 is refused with that
/// very tag, whatever follows it, and the stream is left as it is.
pub proof fn law_unknown_tag(received: Seq<u8>, allow_domain: bool)
    requires
        received.len() >= 1,
        received[0] != SOCKS5_ADDR_TYPE_IPV4,
        received[0] != SOCKS5_ADDR_TYPE_DOMAIN_NAME,
        received[0] != SOCKS5_ADDR_TYPE_IPV6,
    ensures
        address_progress(received, allow_domain) == (Progress::<AddressView>::Failed {
            error: SocksError::AddressTypeNotSupported { code: received[0] },
            shutdown: false,
        }),
        socket_addr_progress(received) == (Progress::<SocketAddr>::Failed {
            error: SocksError::AddressTypeNotSupported { code: received[0] },
            shutdown: false,
        }),
{
}

/// Where only IP addresses are taken, the tag of a name is refused as soon
/// as it is there: no length byte is asked for.
pub proof fn law_name_refused_at_tag(received: Seq<u8>)
    requires
        received.len() >= 1,
        received[0] == SOCKS5_ADDR_TYPE_DOMAIN_NAME,
    ensures
        socket_addr_progress(received) == (Progress::<SocketAddr>::Failed {
            error: SocksError::AddressTypeNotSupported { code: 3 },
            shutdown: false,
        }),
{
}

/// Where only IP addresses are taken, the answer is that of the general
/// decoder on every buffer that does not begin with the tag of a name.
pub proof fn law_socket_addr_follows_address(received: Seq<u8>)
    requires
        received.len() == 0 || received[0] != SOCKS5_ADDR_TYPE_DOMAIN_NAME,
    ensures
        address_progress(received, true) == address_progress(received, false),
        match socket_addr_progress(received) {
            Progress::Read(count) => address_progress(received, true) == Progress::<
                AddressView,
            >::Read(count),
            Progress::Done { value, consumed } => address_progress(received, true)
                == (Progress::Done { value: AddressView::SocketAddress(value), consumed }),
            Progress::Failed { error, shutdown } => address_progress(received, true)
                == (Progress::<AddressView>::Failed { error, shutdown }),
        },
{
}

/// An address is decoded only from a buffer that holds all of its bytes, and
/// a count of bytes to read is never zero.
pub proof fn law_address_answer_in_bounds(received: Seq<u8>, allow_domain: bool)
    ensures
        match address_progress(received, allow_domain) {
            Progress::Read(count) => count >= 1,
            Progress::Done { consumed, .. } => consumed <= received.len(),
            Progress::Failed { .. } => true,
        },
{
}

/// No address comes out of a part of its bytes: a buffer that ends before
/// the address does is answered with a count of bytes to read, which does
/// not reach beyond the end of the address.
pub proof fn law_address_needs_every_byte(received: Seq<u8>, allow_domain: bool, have: int)
    requires
        address_progress(received, allow_domain) is Done,
        0 <= have < address_progress(received, allow_domain)->consumed,
    ensures
        address_progress(received.subrange(0, have), allow_domain) is Read,
        1 <= address_progress(received.subrange(0, have), allow_domain)->Read_0,
        have + address_progress(received.subrange(0, have), allow_domain)->Read_0
            <= address_progress(received, allow_domain)->consumed,
{
    let part = received.subrange(0, have);
    if have >= 1 {
        assert(part[0] == received[0]);
    }
    if have >= 2 {
        assert(part[1] == received[1]);
    }
}

/// A read never reaches into what follows the address: where the bytes that
/// were asked for are read and the address is then decoded, it takes all the
/// bytes received.
pub proof fn law_address_reads_end_with_the_address(
    received: Seq<u8>,
    more: Seq<u8>,
    allow_domain: bool,
)
    requires
        address_progress(received, allow_domain) is Read,
        more.len() == address_progress(received, allow_domain)->Read_0,
        address_progress(received + more, allow_domain) is Done,
    ensures
        address_progress(received + more, allow_domain)->consumed == received.len() + more.len(),
{
    let longer = received + more;
    if received.len() >= 1 {
        assert(longer[0] == received[0]);
    }
    if received.len() >= 2 {
        assert(longer[1] == received[1]);
    }
}

/// Once an address is decoded or refused, bytes that arrive later change
/// nothing.
pub proof fn law_address_answer_is_final(received: Seq<u8>, rest: Seq<u8>, allow_domain: bool)
    requires
        !(address_progress(received, allow_domain) is Read),
    ensures
        address_progress(received + rest, allow_domain) == address_progress(
            received,
            allow_domain,
        ),
{
    let longer = received + rest;
    assert(longer[0] == received[0]);
    if address_progress(received, allow_domain) is Done {
        if received[0] == SOCKS5_ADDR_TYPE_IPV4 {
            assert(longer.subrange(1, 5) =~= received.subrange(1, 5));
            assert(longer.subrange(5, 7) =~= received.subrange(5, 7));
        } else if received[0] == SOCKS5_ADDR_TYPE_IPV6 {
            assert(longer.subrange(1, 17) =~= received.subrange(1, 17));
            assert(longer.subrange(17, 19) =~= received.subrange(17, 19));
        } else {
            let end = 2 + received[1] as int;
            assert(longer[1] == received[1]);
            assert(longer.subrange(2, end) =~= received.subrange(2, end));
            assert(longer.subrange(end, end + 2) =~= received.subrange(end, end + 2));
        }
    }
}

/// Where a longer buffer is decoded or refused, a read that was asked for on
/// the way to it does not reach beyond its end.
pub proof fn law_address_read_stays_inside(received: Seq<u8>, more: Seq<u8>, allow_domain: bool)
    requires
        address_progress(received, allow_domain) is Read,
        !(address_progress(received + more, allow_domain) is Read),
    ensures
        address_progress(received, allow_domain)->Read_0 <= more.len(),
{
    let longer = received + more;
    if received.len() >= 1 {
        assert(longer[0] == received[0]);
    }
    if received.len() >= 2 {
        assert(longer[1] == received[1]);
    }
}

/// Reading in steps comes to what the whole stream says. Where the stream
/// holds an address, or a tag that is refused, the owner that reads what it
/// is asked to read ends with that address or that error. Where the stream
/// ends before the address does, it ends at a read that the stream cannot
/// serve, and never with an address.
pub proof fn law_address_read_in_steps(stream: Seq<u8>, allow_domain: bool, have: nat)
    requires
        have <= stream.len(),
    ensures
        ({
            let whole = address_progress(stream, allow_domain);
            let steps = read_in_steps(
                |received: Seq<u8>| address_progress(received, allow_domain),
                stream,
                have,
            );
            if whole is Read {
                steps is Read
            } else {
                steps == whole
            }
        }),
    decreases stream.len() - have,
{
    let received = stream.subrange(0, have as int);
    let rest = stream.subrange(have as int, stream.len() as int);
    assert(received + rest =~= stream);
    match address_progress(received, allow_domain) {
        Progress::Read(count) => {
            law_address_answer_in_bounds(received, allow_domain);
            if !(address_progress(stream, allow_domain) is Read) {
                law_address_read_stays_inside(received, rest, allow_domain);
            }
            if have + count <= stream.len() {
                law_address_read_in_steps(stream, allow_domain, have + count as nat);
            }
        },
        _ => {
            law_address_answer_is_final(received, rest, allow_domain);
        },
    }
}

/// Decoding the wire form of a handshake request gives the methods back in
/// their order, whatever follows them in the buffer, and takes two bytes
/// more than there are methods.
pub proof fn law_handshake_round_trip(methods: Seq<u8>, rest: Seq<u8>)
    requires
        methods.len() <= 255,
    ensures
        handshake_progress(handshake_wire(methods) + rest) == (Progress::Done {
            value: methods,
            consumed: (2 + methods.len()) as usize,
        }),
{
    let received = handshake_wire(methods) + rest;
    assert(received[0] == SOCKS5_VERSION);
    assert(received[1] == methods.len() as u8);
    assert(received.subrange(2, 2 + methods.len() as int) =~= methods);
}

/// A handshake whose first two bytes are there and whose version is not the
/// supported one fails with that version, whatever follows, and the write
/// side of the stream is to be shut down.
pub proof fn law_wrong_version(received: Seq<u8>)
    requires
        received.len() >= 2,
        received[0] != SOCKS5_VERSION,
    ensures
        handshake_progress(received) == (Progress::<Seq<u8>>::Failed {
            error: SocksError::SocksVersionNoSupport { ver: received[0] },
            shutdown: true,
        }),
{
}

/// A handshake request is decoded only from a buffer that holds all of its
/// bytes, a count of bytes to read is never zero, and only a wrong version
/// makes it fail.
pub proof fn law_handshake_answer_in_bounds(received: Seq<u8>)
    ensures
        match handshake_progress(received) {
            Progress::Read(count) => count >= 1,
            Progress::Done { value, consumed } => consumed <= received.len() && consumed == 2
                + value.len() && value.len() <= 255,
            Progress::Failed { error, shutdown } => shutdown && error
                == (SocksError::SocksVersionNoSupport { ver: received[0] }) && received[0]
                != SOCKS5_VERSION,
        },
{
}

/// No handshake request comes out of a part of its bytes: a buffer that ends
/// before the request does is answered with a count of bytes to read, which
/// does not reach beyond the end of the request.
pub proof fn law_handshake_needs_every_byte(received: Seq<u8>, have: int)
    requires
        handshake_progress(received) is Done,
        0 <= have < handshake_progress(received)->consumed,
    ensures
        handshake_progress(received.subrange(0, have)) is Read,
        1 <= handshake_progress(received.subrange(0, have))->Read_0,
        have + handshake_progress(received.subrange(0, have))->Read_0 <= handshake_progress(
            received,
        )->consumed,
{
    let part = received.subrange(0, have);
    if have >= 2 {
        assert(part[0] == received[0]);
        assert(part[1] == received[1]);
    }
}

/// A read never reaches into what follows the request: where the bytes that
/// were asked for are read and the request is then decoded, it takes all the
/// bytes received.
pub proof fn law_handshake_reads_end_with_the_request(received: Seq<u8>, more: Seq<u8>)
    requires
        handshake_progress(received) is Read,
        more.len() == handshake_progress(received)->Read_0,
        handshake_progress(received + more) is Done,
    ensures
        handshake_progress(received + more)->consumed == received.len() + more.len(),
{
    let longer = received + more;
    if received.len() >= 2 {
        assert(longer[0] == received[0]);
        assert(longer[1] == received[1]);
    }
}

/// Once a handshake request is decoded or refused, bytes that arrive later
/// change nothing.
pub proof fn law_handshake_answer_is_final(received: Seq<u8>, rest: Seq<u8>)
    requires
        !(handshake_progress(received) is Read),
    ensures
        handshake_progress(received + rest) == handshake_progress(received),
{
    let longer = received + rest;
    assert(longer[0] == received[0]);
    assert(longer[1] == received[1]);
    let end = 2 + received[1] as int;
    if received[0] == SOCKS5_VERSION {
        assert(longer.subrange(2, end) =~= received.subrange(2, end));
    }
}

/// Where a longer buffer is decoded or refused, a read that was asked for on
/// the way to it does not reach beyond its end.
pub proof fn law_handshake_read_stays_inside(received: Seq<u8>, more: Seq<u8>)
    requires
        handshake_progress(received) is Read,
        !(handshake_progress(received + more) is Read),
    ensures
        handshake_progress(received)->Read_0 <= more.len(),
{
    let longer = received + more;
    if received.len() >= 2 {
        assert(longer[0] == received[0]);
        assert(longer[1] == received[1]);
    }
}

/// Reading in steps comes to what the whole stream says. Where the stream
/// holds a handshake request, or another version, the owner that reads what
/// it is asked to read ends with that request or that error. Where the
/// stream ends before the request does, it ends at a read that the stream
/// cannot serve, and never with a request.
pub proof fn law_handshake_read_in_steps(stream: Seq<u8>, have: nat)
    requires
        have <= stream.len(),
    ensures
        ({
            let whole = handshake_progress(stream);
            let steps = read_in_steps(
                |received: Seq<u8>| handshake_progress(received),
                stream,
                have,
            );
            if whole is Read {
                steps is Read
            } else {
                steps == whole
            }
        }),
    decreases stream.len() - have,
{
    let received = stream.subrange(0, have as int);
    let rest = stream.subrange(have as int, stream.len() as int);
    assert(received + rest =~= stream);
    match handshake_progress(received) {
        Progress::Read(count) => {
            law_handshake_answer_in_bounds(received);
            if !(handshake_progress(stream) is Read) {
                law_handshake_read_stays_inside(received, rest);
            }
            if have + count <= stream.len() {
                law_handshake_read_in_steps(stream, have + count as nat);
            }
        },
        _ => {
            law_handshake_answer_is_final(received, rest);
        },
    }
}

} // verus!
