use asocks5::{
    AddrType, Address, Command, Reply, SocketAddr, SocksError, TcpRequestHeader,
    TcpResponseHeader, SOCKS5_VERSION,
};

#[test]
fn response_header_is_three_bytes_and_the_address() {
    let v4 = Address::SocketAddress(SocketAddr::V4 { ip: 0x7f00_0001, port: 1080 });
    let header = TcpResponseHeader::new(Reply::Succeeded, v4.clone());
    assert_eq!(header.reply, Reply::Succeeded);
    assert_eq!(header.address, v4);
    assert_eq!(header.len(), 10);

    let v6 = Address::SocketAddress(SocketAddr::V6 { ip: 1, port: 1080, flowinfo: 0, scope_id: 0 });
    assert_eq!(TcpResponseHeader::new(Reply::HostUnreachable, v6).len(), 22);

    let name = Address::DomainNameAddress("example.com".to_string(), 80);
    assert_eq!(TcpResponseHeader::new(Reply::GeneralFailure, name).len(), 3 + 4 + 11);

    let empty = Address::DomainNameAddress(String::new(), 80);
    assert_eq!(TcpResponseHeader::new(Reply::Succeeded, empty).len(), 7);
}

#[test]
fn request_header_holds_command_and_address() {
    let address = Address::DomainNameAddress("example.com".to_string(), 443);
    let header = TcpRequestHeader { command: Command::TcpConnect, address: address.clone() };
    let copy = header.clone();
    assert_eq!(copy.command, Command::TcpConnect);
    assert_eq!(copy.address, address);
    assert_ne!(Command::TcpBind, Command::UdpAssociate);
}

#[test]
fn address_types_and_their_tags() {
    assert!(matches!(AddrType::from_code(0x01), Ok(AddrType::IPV4)));
    assert!(matches!(AddrType::from_code(0x03), Ok(AddrType::DomainName)));
    assert!(matches!(AddrType::from_code(0x04), Ok(AddrType::IPV6)));
    assert_eq!(AddrType::IPV4.code(), 0x01);
    assert_eq!(AddrType::DomainName.code(), 0x03);
    assert_eq!(AddrType::IPV6.code(), 0x04);
    for code in [0x00u8, 0x02, 0x05, 0x7f, 0xff] {
        match AddrType::from_code(code) {
            Err(SocksError::AddressTypeNotSupported { code: refused }) => {
                assert_eq!(refused, code)
            }
            other => panic!("unexpected answer: {:?}", other),
        }
    }
}

#[test]
fn the_supported_version_is_five() {
    assert_eq!(SOCKS5_VERSION, 5);
}
