//! The TLS negotiation contract.
//!
//! The wire-protocol handshake never depends on a concrete cryptographic
//! backend: a backend is injected at composition time as something that
//! satisfies [`TlsHandshake`], and everything after the handshake goes
//! through the encrypted-stream capability [`TlsStream`].  Both are
//! generic in `S`, the unencrypted transport they wrap, so protocol code
//! that needs transport-level metadata can still reach the innermost
//! stream through the encryption layer.

use vstd::prelude::*;

use crate::failures::{TlsError, TransportError};

verus! {

/// The encrypted-stream capability: an ordinary byte stream that also
/// exposes the unencrypted transport it wraps, read-only and mutably.
pub trait TlsStream<S> {
    /// Reads at most `max_len` bytes from the encrypted stream, or
    /// reports the transport fault that stopped it.
    fn read(&mut self, max_len: usize) -> Result<Vec<u8>, TransportError>;

    /// Writes the given bytes to the encrypted stream, returning how many
    /// were accepted, or reports the transport fault that stopped it.
    fn write(&mut self, data: &Vec<u8>) -> Result<usize, TransportError>;

    /// A read-only view of the underlying unencrypted transport.
    fn get_ref(&self) -> &S;

    /// Mutable access to the underlying unencrypted transport.
    fn get_mut(&mut self) -> &mut S;
}

/// The handshake capability: something that can initiate a client-side
/// TLS session over an unencrypted stream.
///
/// The implementation alone is responsible for verifying the server's
/// identity against `host` before the returned stream may be trusted.
/// It hands back either a fully negotiated stream satisfying
/// [`TlsStream`] — never a partially initialized one, since nothing else
/// inhabits the success case — or a diagnosable failure; distinct
/// backends report distinct failure shapes, so the failure carries only
/// its description.
pub trait TlsHandshake<S, T: TlsStream<S>> {
    /// Performs a client-side TLS handshake over `stream`, verifying the
    /// server's identity against `host`.
    fn tls_handshake(&self, host: &str, stream: S) -> Result<T, TlsError>;
}

} // verus!
