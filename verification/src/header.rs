//! The headers that follow the handshake.

use vstd::prelude::*;
use crate::address::Address;
use crate::consts::{Command, Reply};

verus! {

/// The request of the client: what to do, and where.
///
/// On the wire: the version, the command, a reserved zero byte, the address.
#[derive(Clone, Debug)]
pub struct TcpRequestHeader {
    /// What the client asks for.
    pub command: Command,
    /// The destination.
    pub address: Address,
}

/// The answer of the server: how it went, and the address that it bound.
///
/// On the wire: the version, the reply code, a reserved zero byte, the
/// address.
#[derive(Clone, Debug)]
pub struct TcpResponseHeader {
    /// How the request went.
    pub reply: Reply,
    /// The bound address.
    pub address: Address,
}

impl TcpResponseHeader {
    /// A header of a reply code and an address.
    pub fn new(reply: Reply, address: Address) -> (header: TcpResponseHeader)
        ensures
            header.reply == reply,
            header.address == address,
    {
        TcpResponseHeader { reply, address }
    }

    /// How many bytes the header takes on the wire: three, and the address.
    pub open spec fn wire_len(&self) -> nat {
        self.address@.wire_len() + 3
    }

    /// How many bytes the header takes on the wire.
    #[inline]
    pub fn len(&self) -> (n: usize)
        requires
            self.wire_len() <= usize::MAX,
        ensures
            n == self.wire_len(),
    {
        self.address.len() + 3
    }
}

} // verus!
