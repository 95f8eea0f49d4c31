//! The handshake: the client offers authentication methods, the server
//! chooses one.

use vstd::prelude::*;
use vstd::slice::{slice_subrange, slice_to_vec};
use crate::consts::SOCKS5_VERSION;
use crate::error::SocksError;
use crate::progress::Progress;

verus! {

/// The methods that the client offers, in the order of its preference.
///
/// On the wire: the version, the number of methods, the methods.
#[derive(Clone, Debug)]
pub struct HandshakeRequest {
    pub methods: Vec<u8>,
}

impl View for HandshakeRequest {
    type V = Seq<u8>;

    open spec fn view(&self) -> Seq<u8> {
        self.methods@
    }
}

/// The method that the server chose.
///
/// On the wire: the version, the method.
#[derive(Clone, Debug, Copy)]
pub struct HandshakeResponse {
    pub chosen_method: u8,
}

/// The bytes of a handshake request that offers `methods`.
pub open spec fn handshake_wire(methods: Seq<u8>) -> Seq<u8> {
    seq![SOCKS5_VERSION, methods.len() as u8] + methods
}

/// What the bytes received so far say of a handshake request.
///
/// The version and the count are read together. A version other than the
/// supported one ends the exchange: the write side is to be shut down and
/// the version is reported. Otherwise as many methods follow as the count
/// says, and they are kept in their order.
pub open spec fn handshake_progress(received: Seq<u8>) -> Progress<Seq<u8>> {
    let have = received.len();
    if have < 2 {
        Progress::Read((2 - have) as usize)
    } else if received[0] != SOCKS5_VERSION {
        Progress::Failed {
            error: SocksError::SocksVersionNoSupport { ver: received[0] },
            shutdown: true,
        }
    } else {
        let end = 2 + received[1] as int;
        if have < end {
            Progress::Read((end - have) as usize)
        } else {
            Progress::Done { value: received.subrange(2, end), consumed: end as usize }
        }
    }
}

/// Decodes a handshake request from the bytes received so far.
pub fn read_handshake_request(received: &[u8]) -> (progress: Progress<HandshakeRequest>)
    ensures
        progress@ == handshake_progress(received@),
{
    let have = received.len();
    if have < 2 {
        return Progress::Read(2 - have);
    }
    let ver = received[0];
    let nmet = received[1];

    if ver != SOCKS5_VERSION {
        return Progress::Failed {
            error: SocksError::SocksVersionNoSupport { ver },
            shutdown: true,
        };
    }
    let end = 2 + nmet as usize;
    if have < end {
        return Progress::Read(end - have);
    }
    let methods = slice_to_vec(slice_subrange(received, 2, end));
    Progress::Done { value: HandshakeRequest { methods }, consumed: end }
}

} // verus!
