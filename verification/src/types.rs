//! The wire-protocol type descriptor the taxonomy reports.
//!
//! Value conversion itself lives above this crate; the taxonomy only needs
//! to say, when a conversion was attempted against an incompatible
//! wire-protocol type, which type that was.  A descriptor names the type
//! and carries its object identifier on the wire.

use vstd::prelude::*;

verus! {

/// A wire-protocol type descriptor: the object identifier the server uses
/// for the type, and the type's name for display.
#[derive(Clone, Debug, PartialEq, Eq)]
pub struct Type {
    oid: u32,
    name: String,
}

impl Type {
    /// The object identifier of the type on the wire.
    pub closed spec fn spec_oid(self) -> u32 {
        self.oid
    }

    /// The name of the type.
    pub closed spec fn spec_name(self) -> Seq<char> {
        self.name@
    }

    /// Builds a descriptor from an object identifier and a name.
    pub fn new(oid: u32, name: String) -> (r: Type)
        ensures
            r.spec_oid() == oid,
            r.spec_name() == name@,
    {
        Type { oid, name }
    }

    /// The object identifier of the type on the wire.
    pub fn oid(&self) -> (r: u32)
        ensures
            r == self.spec_oid(),
    {
        self.oid
    }

    /// The name of the type.
    pub fn name(&self) -> (r: &str)
        ensures
            r@ == self.spec_name(),
    {
        self.name.as_str()
    }
}

} // verus!
