//! Models of the lower-level failures the error taxonomy wraps.
//!
//! Transport and cryptographic failures originate outside this crate: the
//! transport reports I/O faults, a TLS backend reports handshake faults in
//! whatever shape it chooses.  The taxonomy only ever reads two things of
//! them — what kind of fault occurred and its description — so the types
//! here carry exactly that, as plain values.  Code that sits at the I/O
//! edge converts its own failure values into these before handing them to
//! the library, and the taxonomy preserves them unchanged as inspectable
//! causes.

use vstd::prelude::*;

verus! {

/// The kind of a transport-level fault.
#[derive(Clone, Copy, Debug, PartialEq, Eq, Structural)]
pub enum TransportErrorKind {
    /// The peer closed or reset the connection.
    ConnectionReset,
    /// The operation did not complete in time.
    Timeout,
    /// A write delivered only part of a message.
    PartialWrite,
    /// A read delivered only part of a message.
    PartialRead,
    /// The stream ended where more data was expected.
    UnexpectedEof,
    /// Any other transport-level fault.
    Other,
}

/// A transport-level failure: an I/O fault reported by whatever carries
/// the bytes, preserved so it can be surfaced as a cause.
#[derive(Clone, Debug, PartialEq, Eq)]
pub struct TransportError {
    kind: TransportErrorKind,
    description: String,
}

impl TransportError {
    /// The kind of the fault.
    pub closed spec fn spec_kind(self) -> TransportErrorKind {
        self.kind
    }

    /// The description of the fault.
    pub closed spec fn spec_description(self) -> Seq<char> {
        self.description@
    }

    /// Builds a transport failure from its kind and description.
    pub fn new(kind: TransportErrorKind, description: String) -> (r: TransportError)
        ensures
            r.spec_kind() == kind,
            r.spec_description() == description@,
    {
        TransportError { kind, description }
    }

    /// The kind of the fault.
    pub fn kind(&self) -> (r: TransportErrorKind)
        ensures
            r == self.spec_kind(),
    {
        self.kind
    }

    /// The description of the fault.
    pub fn description(&self) -> (r: &str)
        ensures
            r@ == self.spec_description(),
    {
        self.description.as_str()
    }
}

/// A cryptographic-layer failure: whatever a TLS backend reported while
/// negotiating or using an encrypted stream.  Backends report failures in
/// distinct shapes, so the contract keeps only what every backend can
/// give: a description for diagnostics.
#[derive(Clone, Debug, PartialEq, Eq)]
pub struct TlsError {
    description: String,
}

impl TlsError {
    /// The description of the failure.
    pub closed spec fn spec_description(self) -> Seq<char> {
        self.description@
    }

    /// Builds a cryptographic failure from its description.
    pub fn new(description: String) -> (r: TlsError)
        ensures
            r.spec_description() == description@,
    {
        TlsError { description }
    }

    /// The description of the failure.
    pub fn description(&self) -> (r: &str)
        ensures
            r@ == self.spec_description(),
    {
        self.description.as_str()
    }
}

} // verus!
