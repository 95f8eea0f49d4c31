//! Decoding of the SOCKS5 handshake and of SOCKS5 addresses (RFC 1928).
//!
//! The decoders never touch a stream. Each one looks at the bytes received so
//! far and answers with a [`Progress`]: how many bytes to read next, the
//! decoded value, or the protocol error. The owner of the stream performs the
//! reads and hands the longer buffer back.

pub mod address;
pub mod consts;
pub mod endian;
pub mod error;
pub mod handshake;
pub mod header;
pub mod laws;
pub mod progress;

pub use address::{read_socks_address, read_socks_socket_addr, Address, SocketAddr};
pub use consts::{AddrType, Command, Reply, SOCKS5_VERSION};
pub use error::SocksError;
pub use handshake::{read_handshake_request, HandshakeRequest, HandshakeResponse};
pub use header::{TcpRequestHeader, TcpResponseHeader};
pub use progress::Progress;
