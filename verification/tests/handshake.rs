use asocks5::{read_handshake_request, HandshakeResponse, Progress, SocksError};
use std::io::{Error, ErrorKind};

#[test]
fn handshake_with_two_methods() {
    match read_handshake_request(&[0x05, 0x02, 0x00, 0x02]) {
        Progress::Done { value, consumed } => {
            assert_eq!(value.methods, vec![0x00, 0x02]);
            assert_eq!(consumed, 4);
        }
        other => panic!("unexpected answer: {:?}", other),
    }
}

#[test]
fn handshake_of_another_version_shuts_down() {
    for buf in [vec![0x04, 0x01], vec![0x04, 0x02, 0x00, 0x02], vec![0x04, 0x00]] {
        match read_handshake_request(&buf) {
            Progress::Failed { error: SocksError::SocksVersionNoSupport { ver }, shutdown } => {
                assert_eq!(ver, 4);
                assert!(shutdown);
            }
            other => panic!("unexpected answer: {:?}", other),
        }
    }
}

#[test]
fn every_other_version_is_refused() {
    for version in 0u8..=255 {
        if version == 0x05 {
            continue;
        }
        match read_handshake_request(&[version, 0x01, 0x00]) {
            Progress::Failed { error: SocksError::SocksVersionNoSupport { ver }, shutdown } => {
                assert_eq!(ver, version);
                assert!(shutdown);
            }
            other => panic!("unexpected answer: {:?}", other),
        }
    }
}

#[test]
fn the_version_is_judged_once_the_count_is_there() {
    assert!(matches!(read_handshake_request(&[]), Progress::Read(2)));
    assert!(matches!(read_handshake_request(&[0x04]), Progress::Read(1)));
    assert!(matches!(read_handshake_request(&[0x05]), Progress::Read(1)));
}

#[test]
fn handshake_without_methods() {
    match read_handshake_request(&[0x05, 0x00]) {
        Progress::Done { value, consumed } => {
            assert!(value.methods.is_empty());
            assert_eq!(consumed, 2);
        }
        other => panic!("unexpected answer: {:?}", other),
    }
}

#[test]
fn handshake_with_the_most_methods() {
    let mut buf = vec![0x05, 0xff];
    let methods: Vec<u8> = (0u8..255).rev().collect();
    buf.extend_from_slice(&methods);
    buf.push(0x99);
    match read_handshake_request(&buf) {
        Progress::Done { value, consumed } => {
            assert_eq!(value.methods, methods);
            assert_eq!(consumed, 257);
        }
        other => panic!("unexpected answer: {:?}", other),
    }
}

#[test]
fn methods_keep_their_order() {
    match read_handshake_request(&[0x05, 0x03, 0x02, 0x00, 0x01]) {
        Progress::Done { value, .. } => assert_eq!(value.methods, vec![0x02, 0x00, 0x01]),
        other => panic!("unexpected answer: {:?}", other),
    }
}

#[test]
fn no_handshake_from_a_part_of_its_bytes() {
    let message = [0x05, 0x03, 0x00, 0x01, 0x02];
    for have in 0..message.len() {
        match read_handshake_request(&message[..have]) {
            Progress::Read(count) => {
                assert!(count >= 1);
                assert!(have + count <= message.len());
            }
            other => panic!("unexpected answer at {}: {:?}", have, other),
        }
    }
    assert!(matches!(read_handshake_request(&[0x05, 0x03]), Progress::Read(3)));
    assert!(matches!(read_handshake_request(&[0x05, 0x03, 0x00]), Progress::Read(2)));
}

#[test]
fn a_shutdown_that_works_leaves_the_error() {
    let error = SocksError::SocksVersionNoSupport { ver: 4 };
    assert!(matches!(
        error.after_shutdown(Ok(())),
        SocksError::SocksVersionNoSupport { ver: 4 }
    ));
}

#[test]
fn a_shutdown_that_fails_is_reported() {
    let error = SocksError::SocksVersionNoSupport { ver: 4 };
    match error.after_shutdown(Err(Error::new(ErrorKind::NotConnected, "gone"))) {
        SocksError::IOError { err } => assert_eq!(err.kind(), ErrorKind::NotConnected),
        other => panic!("unexpected error: {:?}", other),
    }
}

#[test]
fn a_failed_read_becomes_an_io_error() {
    let closed = Error::new(ErrorKind::UnexpectedEof, "early eof");
    match SocksError::from(closed) {
        SocksError::IOError { err } => {
            assert_eq!(err.kind(), ErrorKind::UnexpectedEof);
            assert_eq!(err.to_string(), "early eof");
        }
        other => panic!("unexpected error: {:?}", other),
    }
}

#[test]
fn a_stream_that_ends_early_gives_an_io_error() {
    // The peer sends the version, the count and one of two methods, then closes.
    let stream = [0x05u8, 0x02, 0x00];
    let mut received: Vec<u8> = Vec::new();
    let outcome = loop {
        match read_handshake_request(&received) {
            Progress::Read(count) => {
                let start = received.len();
                if start + count > stream.len() {
                    break Err(SocksError::from(Error::from(ErrorKind::UnexpectedEof)));
                }
                received.extend_from_slice(&stream[start..start + count]);
            }
            Progress::Done { value, .. } => break Ok(value),
            Progress::Failed { error, .. } => break Err(error),
        }
    };
    match outcome {
        Err(SocksError::IOError { err }) => assert_eq!(err.kind(), ErrorKind::UnexpectedEof),
        other => panic!("unexpected outcome: {:?}", other),
    }
}

#[test]
fn the_response_holds_the_chosen_method() {
    let response = HandshakeResponse { chosen_method: 0x02 };
    let copy = response;
    assert_eq!(copy.chosen_method, 0x02);
    assert_eq!(response.chosen_method, 0x02);
}
