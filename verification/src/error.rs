//! The ways in which decoding, and the exchange around it, can fail.

use vstd::prelude::*;
use vstd::std_specs::convert::FromSpecImpl;
use crate::consts::Reply;

verus! {

/// `std::io::Error`, the transport's own error. It is carried through as it
/// is: nothing is claimed of what one holds.
#[verifier::external_type_specification]
#[verifier::external_body]
pub struct ExIoError(std::io::Error);

/// Every failure is exactly one of these.
#[derive(Debug)]
#[allow(inconsistent_fields)]
pub enum SocksError {
    /// The handshake names a protocol version other than the supported one.
    SocksVersionNoSupport { ver: u8 },
    /// The address-type tag is none of IPv4, domain name, IPv6, or it is one
    /// that the caller does not take.
    AddressTypeNotSupported { code: u8 },
    /// A domain name is not well encoded.
    InvalidDomainEncoding,
    /// The two sides share no authentication method.
    NoSupportAuth,
    /// The command byte is none that is known.
    CommandUnSupport { cmd: u8 },
    /// The reply code is none that is known.
    InvalidReply { reply: u8 },
    /// The peer answered with something other than success.
    RepliedError { reply: Reply },
    /// The framing of a message is violated.
    ProtocolIncorrect,
    /// A payload is malformed: what is wrong, and the bytes.
    InvalidData { msg: &'static str, data: Vec<u8> },
    /// The transport failed on a read, a write or a shutdown.
    IOError { err: std::io::Error },
}

impl SocksError {
    /// What is reported once the write side has been shut down on account
    /// of this error: the error itself, unless the shutdown failed, whose
    /// failure then takes its place.
    pub fn after_shutdown(self, outcome: Result<(), std::io::Error>) -> (reported: SocksError)
        ensures
            reported == match outcome {
                Ok(_) => self,
                Err(err) => SocksError::IOError { err },
            },
    {
        match outcome {
            Ok(_) => self,
            Err(err) => SocksError::from(err),
        }
    }
}

impl From<std::io::Error> for SocksError {
    fn from(err: std::io::Error) -> (e: SocksError) {
        SocksError::IOError { err }
    }
}

impl FromSpecImpl<std::io::Error> for SocksError {
    open spec fn obeys_from_spec() -> bool {
        true
    }

    open spec fn from_spec(err: std::io::Error) -> SocksError {
        SocksError::IOError { err }
    }
}

} // verus!
