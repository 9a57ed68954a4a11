//! The desynchronization state machine of a live connection.
//!
//! A connection is either *synchronized* or *desynchronized*.  It starts
//! synchronized; a transport failure while a message is in flight moves it
//! to desynchronized, and that transition is permanent.  Once the framing
//! of the byte stream can no longer be trusted, every further operation
//! must fail immediately with [`Error::StreamDesynchronized`] instead of
//! touching the transport again — the contracts below pin both the check
//! at every entry point and the one-way transition.

use vstd::prelude::*;

use crate::error::Error;
use crate::failures::TransportError;

verus! {

/// The byte-level interface this crate consumes from the transport layer:
/// something that can carry whole protocol messages in both directions and
/// report its faults as [`TransportError`] values.  Implementations live
/// at the I/O edge, outside this crate.
pub trait Transport {
    /// Sends one protocol message, or reports the transport fault that
    /// stopped it.
    fn send(&mut self, data: &Vec<u8>) -> Result<(), TransportError>;

    /// Receives one protocol message, or reports the transport fault that
    /// stopped it.
    fn receive(&mut self) -> Result<Vec<u8>, TransportError>;
}

/// A live connection: a transport together with the synchronization flag
/// that guards it.  Every operation consults the flag before any I/O, and
/// a transport failure mid-message sets it for good.
pub struct Connection<S> {
    transport: S,
    desynchronized: bool,
}

impl<S: Transport> Connection<S> {
    /// Whether the connection has desynchronized from the server.
    pub closed spec fn spec_is_desynchronized(self) -> bool {
        self.desynchronized
    }

    /// The underlying transport.
    pub closed spec fn spec_transport(self) -> S {
        self.transport
    }

    /// Wraps a transport into a fresh, synchronized connection.
    pub fn new(transport: S) -> (c: Connection<S>)
        ensures
            !c.spec_is_desynchronized(),
            c.spec_transport() == transport,
    {
        Connection { transport, desynchronized: false }
    }

    /// Whether the connection has desynchronized from the server.
    pub fn is_desynchronized(&self) -> (b: bool)
        ensures
            b == self.spec_is_desynchronized(),
    {
        self.desynchronized
    }

    /// A read-only view of the underlying transport.
    pub fn transport(&self) -> (r: &S)
        ensures
            *r == self.spec_transport(),
    {
        &self.transport
    }

    /// Sends one message.  A desynchronized connection refuses at once:
    /// it returns the desynchronization error and leaves the whole
    /// connection — transport included — untouched, so no further I/O is
    /// attempted.  On a synchronized connection a transport failure
    /// desynchronizes it permanently and surfaces the fault as the cause;
    /// success leaves it synchronized.
    pub fn send_message(&mut self, data: &Vec<u8>) -> (r: Result<(), Error>)
        ensures
            old(self).spec_is_desynchronized() ==> *final(self) == *old(self) && r == Err::<
                (),
                Error,
            >(Error::StreamDesynchronized),
            !old(self).spec_is_desynchronized() ==> match r {
                Ok(_) => !final(self).spec_is_desynchronized(),
                Err(e) => final(self).spec_is_desynchronized() && (e matches Error::IoError(_)),
            },
            old(self).spec_is_desynchronized() ==> final(self).spec_is_desynchronized(),
    {
        if self.desynchronized {
            return Err(Error::StreamDesynchronized);
        }
        match self.transport.send(data) {
            Ok(_) => Ok(()),
            Err(e) => {
                self.desynchronized = true;
                Err(Error::IoError(e))
            },
        }
    }

    /// Receives one message.  A desynchronized connection refuses at
    /// once: it returns the desynchronization error and leaves the whole
    /// connection — transport included — untouched, so no further I/O is
    /// attempted.  On a synchronized connection a transport failure
    /// desynchronizes it permanently and surfaces the fault as the cause;
    /// success leaves it synchronized.
    pub fn receive_message(&mut self) -> (r: Result<Vec<u8>, Error>)
        ensures
            old(self).spec_is_desynchronized() ==> *final(self) == *old(self) && r == Err::<
                Vec<u8>,
                Error,
            >(Error::StreamDesynchronized),
            !old(self).spec_is_desynchronized() ==> match r {
                Ok(_) => !final(self).spec_is_desynchronized(),
                Err(e) => final(self).spec_is_desynchronized() && (e matches Error::IoError(_)),
            },
            old(self).spec_is_desynchronized() ==> final(self).spec_is_desynchronized(),
    {
        if self.desynchronized {
            return Err(Error::StreamDesynchronized);
        }
        match self.transport.receive() {
            Ok(data) => Ok(data),
            Err(e) => {
                self.desynchronized = true;
                Err(Error::IoError(e))
            },
        }
    }
}

} // verus!
